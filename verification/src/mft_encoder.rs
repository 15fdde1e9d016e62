//! The H.264 encoder behind a Media Foundation transform: what is in flight,
//! which events were seen, and what is to be done next. The transform itself is
//! driven by the caller, who performs the action that a step asks for and hands
//! back what came of it.
use std::collections::VecDeque;

use vstd::prelude::*;

use crate::text;

verus! {

/// The event type of a transform that asks for input.
pub const ME_TRANSFORM_NEED_INPUT: u32 = 601;

/// The event type of a transform that has output ready.
pub const ME_TRANSFORM_HAVE_OUTPUT: u32 = 602;

/// The least time to wait for output, in milliseconds.
pub const ASYNC_HAVE_OUTPUT_WAIT_MS: u32 = 8;

/// How often the counters of [`SubmitDiagWindow`] are reported, in microseconds.
pub const DIAG_WINDOW_US: u64 = 1_000_000;

/// Why encoding failed.
#[derive(Debug, Clone, PartialEq, Eq)]
pub enum MftEncoderError {
    NoEncoderFound,
    Init(String),
    MediaType(String),
    Encode(String),
    Windows(String),
}

/// The view of an [`MftEncoderError`].
pub enum MftErrorView {
    NoEncoderFound,
    Init(Seq<char>),
    MediaType(Seq<char>),
    Encode(Seq<char>),
    Windows(Seq<char>),
}

impl View for MftEncoderError {
    type V = MftErrorView;

    open spec fn view(&self) -> MftErrorView {
        match *self {
            MftEncoderError::NoEncoderFound => MftErrorView::NoEncoderFound,
            MftEncoderError::Init(s) => MftErrorView::Init(s@),
            MftEncoderError::MediaType(s) => MftErrorView::MediaType(s@),
            MftEncoderError::Encode(s) => MftErrorView::Encode(s@),
            MftEncoderError::Windows(s) => MftErrorView::Windows(s@),
        }
    }
}

/// The text of an error.
pub open spec fn error_text(e: MftErrorView) -> Seq<char> {
    match e {
        MftErrorView::NoEncoderFound => "No MFT H.264 encoder found (hardware or software)"@,
        MftErrorView::Init(s) => "MFT initialization failed: "@ + s,
        MftErrorView::MediaType(s) => "Media type setup failed: "@ + s,
        MftErrorView::Encode(s) => "Encode failed: "@ + s,
        MftErrorView::Windows(s) => "Windows API error: "@ + s,
    }
}

/// `prefix` followed by `detail`.
fn concat(prefix: &str, detail: &str) -> (r: String)
    ensures
        r@ == prefix@ + detail@,
{
    let mut r = String::new();
    r.push_str(prefix);
    r.push_str(detail);
    assert(r@ =~= prefix@ + detail@);
    r
}

fn encode_error(prefix: &str, detail: &str) -> (r: MftEncoderError)
    ensures
        r@ == MftErrorView::Encode(prefix@ + detail@),
{
    MftEncoderError::Encode(concat(prefix, detail))
}

fn encode_error_plain(message: &str) -> (r: MftEncoderError)
    ensures
        r@ == MftErrorView::Encode(message@),
{
    MftEncoderError::Encode(message.to_owned())
}

impl MftEncoderError {
    /// The text of the error.
    pub fn message(&self) -> (r: String)
        ensures
            r@ == error_text(self@),
    {
        match self {
            MftEncoderError::NoEncoderFound => {
                "No MFT H.264 encoder found (hardware or software)".to_owned()
            },
            MftEncoderError::Init(s) => concat("MFT initialization failed: ", s.as_str()),
            MftEncoderError::MediaType(s) => concat("Media type setup failed: ", s.as_str()),
            MftEncoderError::Encode(s) => concat("Encode failed: ", s.as_str()),
            MftEncoderError::Windows(s) => concat("Windows API error: ", s.as_str()),
        }
    }
}

/// An encoded H.264 frame in Annex B form.
#[derive(Debug, Clone, PartialEq, Eq)]
pub struct EncodedFrame {
    pub data: Vec<u8>,
    pub timestamp_us: i64,
    pub key_frame: bool,
}

/// What was noted of a frame when it was submitted. Times are microseconds on a
/// monotonic clock.
#[derive(Debug, Clone, Copy, PartialEq, Eq, Structural)]
pub struct FrameMeta {
    pub rtp_ts: u32,
    pub capture_us: i64,
    pub submit_time: u64,
    pub requested_key_frame: bool,
}

/// An encoded frame with what was noted of its input, and how long the encoding
/// took.
#[derive(Debug, Clone, PartialEq, Eq)]
pub struct PendingOutput {
    pub frame: EncodedFrame,
    pub rtp_ts: u32,
    pub capture_us: i64,
    pub encode_us: u64,
}

/// What was seen while polling for an event.
#[derive(Debug, Clone, Copy, PartialEq, Eq, Structural)]
pub struct PolledEvents {
    pub found: bool,
    pub need_input: u32,
    pub have_output: u32,
}

impl PolledEvents {
    /// Nothing seen yet.
    pub fn none() -> (r: PolledEvents)
        ensures
            r == (PolledEvents { found: false, need_input: 0, have_output: 0 }),
    {
        PolledEvents { found: false, need_input: 0, have_output: 0 }
    }

    /// Notes one event off the queue; `true` where it is the one that is waited
    /// for and the polling ends.
    pub fn observe(&mut self, event_type: u32, target_type: u32) -> (stop: bool)
        requires
            event_type != target_type && event_type == ME_TRANSFORM_NEED_INPUT ==> old(
                self,
            ).need_input < u32::MAX,
            event_type != target_type && event_type == ME_TRANSFORM_HAVE_OUTPUT ==> old(
                self,
            ).have_output < u32::MAX,
        ensures
            *final(self) == events_after(*old(self), event_type, target_type),
            stop == (event_type == target_type),
    {
        if event_type == target_type {
            self.found = true;
            true
        } else {
            if event_type == ME_TRANSFORM_NEED_INPUT {
                self.need_input += 1;
            } else if event_type == ME_TRANSFORM_HAVE_OUTPUT {
                self.have_output += 1;
            }
            false
        }
    }
}

/// What was seen, with one more event.
pub open spec fn events_after(e: PolledEvents, event_type: u32, target_type: u32) -> PolledEvents {
    if event_type == target_type {
        PolledEvents { found: true, ..e }
    } else if event_type == ME_TRANSFORM_NEED_INPUT {
        PolledEvents { need_input: (e.need_input + 1) as u32, ..e }
    } else if event_type == ME_TRANSFORM_HAVE_OUTPUT {
        PolledEvents { have_output: (e.have_output + 1) as u32, ..e }
    } else {
        e
    }
}

/// The longest sleep between two looks at the queue of events, in microseconds.
pub const POLL_SLEEP_US: u64 = 1000;

/// How long to sleep before the queue of events is looked at again, in
/// microseconds; nothing once the time is up. Times are on a monotonic clock.
pub fn poll_step(now_us: u64, deadline_us: u64) -> (r: Option<u64>)
    ensures
        r == if now_us >= deadline_us {
            None
        } else if deadline_us - now_us < POLL_SLEEP_US {
            Some((deadline_us - now_us) as u64)
        } else {
            Some(POLL_SLEEP_US)
        },
{
    if now_us >= deadline_us {
        None
    } else if deadline_us - now_us < POLL_SLEEP_US {
        Some(deadline_us - now_us)
    } else {
        Some(POLL_SLEEP_US)
    }
}

/// How waiting for an event went.
#[derive(Debug, Clone, Copy, PartialEq, Eq, Structural)]
pub struct AsyncWaitTrace {
    pub found: bool,
    pub buffered: bool,
    pub need_input: u32,
    pub have_output: u32,
    pub wait_us: u64,
    pub poll_loops: u32,
}

/// A wait that did not take place.
pub open spec fn no_wait() -> AsyncWaitTrace {
    AsyncWaitTrace {
        found: false,
        buffered: false,
        need_input: 0,
        have_output: 0,
        wait_us: 0,
        poll_loops: 0,
    }
}

/// A wait that a buffered event made unnecessary.
pub open spec fn buffered_wait() -> AsyncWaitTrace {
    AsyncWaitTrace { found: true, buffered: true, ..no_wait() }
}

/// A wait that polled.
pub open spec fn polled_wait(e: PolledEvents, wait_us: u64, poll_loops: u32) -> AsyncWaitTrace {
    AsyncWaitTrace {
        found: e.found,
        buffered: false,
        need_input: e.need_input,
        have_output: e.have_output,
        wait_us,
        poll_loops,
    }
}

/// How draining one output went.
#[derive(Debug, Clone, Copy, PartialEq, Eq, Structural)]
pub struct DrainPendingTrace {
    pub found_output: bool,
    pub queued_frame: bool,
    pub wait: AsyncWaitTrace,
    pub drain_us: u64,
    pub encode_us: u64,
}

/// A drain that did not take place.
pub open spec fn no_drain() -> DrainPendingTrace {
    DrainPendingTrace {
        found_output: false,
        queued_frame: false,
        wait: no_wait(),
        drain_us: 0,
        encode_us: 0,
    }
}

/// How an attempt to hand over the input went.
#[derive(Debug, Clone, Copy, PartialEq, Eq, Structural)]
pub enum Attempt {
    Skipped,
    Accepted,
    NotAccepting,
    Failed,
    TimedOut,
}

impl Attempt {
    /// The name under which the attempt is reported.
    pub fn label(&self) -> (r: &'static str)
        ensures
            r@ == match *self {
                Attempt::Skipped => "skipped"@,
                Attempt::Accepted => "ok"@,
                Attempt::NotAccepting => "not_accepting"@,
                Attempt::Failed => "err"@,
                Attempt::TimedOut => "need_input_timeout"@,
            },
    {
        match self {
            Attempt::Skipped => "skipped",
            Attempt::Accepted => "ok",
            Attempt::NotAccepting => "not_accepting",
            Attempt::Failed => "err",
            Attempt::TimedOut => "need_input_timeout",
        }
    }
}

/// Counters over the submissions of about a second.
#[derive(Debug, Clone, Copy, PartialEq, Eq, Structural)]
pub struct SubmitDiagWindow {
    pub submits: u64,
    pub sample_us_total: u64,
    pub initial_ok: u64,
    pub initial_not_accepting: u64,
    pub initial_err: u64,
    pub initial_us_total: u64,
    pub need_wait_calls: u64,
    pub need_wait_found: u64,
    pub need_wait_buffered: u64,
    pub need_wait_us_total: u64,
    pub need_wait_loops_total: u64,
    pub need_wait_seen_need_total: u64,
    pub need_wait_seen_have_total: u64,
    pub after_need_ok: u64,
    pub after_need_not_accepting: u64,
    pub after_need_err: u64,
    pub after_need_us_total: u64,
    pub drain_calls: u64,
    pub drain_found_output: u64,
    pub drain_queued_frame: u64,
    pub drain_wait_us_total: u64,
    pub drain_output_us_total: u64,
    pub drain_encode_us_total: u64,
    pub retry_after_drain_ok: u64,
    pub retry_after_drain_not_accepting: u64,
    pub retry_after_drain_err: u64,
    pub retry_after_drain_us_total: u64,
    pub total_submit_us_total: u64,
    pub meta_queue_max: usize,
    pub pending_outputs_max: usize,
    pub need_input_buffered_max: u32,
    pub have_output_buffered_max: u32,
}

/// Counters at zero.
pub open spec fn empty_diag() -> SubmitDiagWindow {
    SubmitDiagWindow {
        submits: 0,
        sample_us_total: 0,
        initial_ok: 0,
        initial_not_accepting: 0,
        initial_err: 0,
        initial_us_total: 0,
        need_wait_calls: 0,
        need_wait_found: 0,
        need_wait_buffered: 0,
        need_wait_us_total: 0,
        need_wait_loops_total: 0,
        need_wait_seen_need_total: 0,
        need_wait_seen_have_total: 0,
        after_need_ok: 0,
        after_need_not_accepting: 0,
        after_need_err: 0,
        after_need_us_total: 0,
        drain_calls: 0,
        drain_found_output: 0,
        drain_queued_frame: 0,
        drain_wait_us_total: 0,
        drain_output_us_total: 0,
        drain_encode_us_total: 0,
        retry_after_drain_ok: 0,
        retry_after_drain_not_accepting: 0,
        retry_after_drain_err: 0,
        retry_after_drain_us_total: 0,
        total_submit_us_total: 0,
        meta_queue_max: 0,
        pending_outputs_max: 0,
        need_input_buffered_max: 0,
        have_output_buffered_max: 0,
    }
}

/// `a + b`, at most the largest 64-bit number.
pub open spec fn sat(a: u64, b: u64) -> u64 {
    if a + b > u64::MAX {
        u64::MAX
    } else {
        (a + b) as u64
    }
}

/// `a` and one more where `yes`, at most the largest 64-bit number.
pub open spec fn count(a: u64, yes: bool) -> u64 {
    if yes {
        sat(a, 1)
    } else {
        a
    }
}

/// `a + b` where `yes`, at most the largest 64-bit number.
pub open spec fn sat_if(a: u64, b: u64, yes: bool) -> u64 {
    if yes {
        sat(a, b)
    } else {
        a
    }
}

fn tally(a: u64, yes: bool) -> (r: u64)
    ensures
        r == count(a, yes),
{
    if yes {
        a.saturating_add(1)
    } else {
        a
    }
}

fn total_if(a: u64, b: u64, yes: bool) -> (r: u64)
    ensures
        r == sat_if(a, b, yes),
{
    if yes {
        a.saturating_add(b)
    } else {
        a
    }
}

/// The mean of `n` values that add up to `total`; zero of none.
pub fn avg_us(total: u64, n: u64) -> (r: u64)
    ensures
        r == if n == 0 {
            0
        } else {
            total as int / n as int
        },
{
    if n == 0 {
        0
    } else {
        total / n
    }
}

impl SubmitDiagWindow {
    /// Counters at zero.
    pub fn new() -> (r: SubmitDiagWindow)
        ensures
            r == empty_diag(),
    {
        SubmitDiagWindow {
            submits: 0,
            sample_us_total: 0,
            initial_ok: 0,
            initial_not_accepting: 0,
            initial_err: 0,
            initial_us_total: 0,
            need_wait_calls: 0,
            need_wait_found: 0,
            need_wait_buffered: 0,
            need_wait_us_total: 0,
            need_wait_loops_total: 0,
            need_wait_seen_need_total: 0,
            need_wait_seen_have_total: 0,
            after_need_ok: 0,
            after_need_not_accepting: 0,
            after_need_err: 0,
            after_need_us_total: 0,
            drain_calls: 0,
            drain_found_output: 0,
            drain_queued_frame: 0,
            drain_wait_us_total: 0,
            drain_output_us_total: 0,
            drain_encode_us_total: 0,
            retry_after_drain_ok: 0,
            retry_after_drain_not_accepting: 0,
            retry_after_drain_err: 0,
            retry_after_drain_us_total: 0,
            total_submit_us_total: 0,
            meta_queue_max: 0,
            pending_outputs_max: 0,
            need_input_buffered_max: 0,
            have_output_buffered_max: 0,
        }
    }

    /// The counters to report and the window starts anew, once a second has
    /// passed and something was submitted.
    pub fn take_summary(&mut self, window_start: &mut u64, now: u64) -> (r: Option<
        SubmitDiagWindow,
    >)
        ensures
            ({
                let due = now >= *old(window_start) + DIAG_WINDOW_US && old(self).submits > 0;
                &&& due ==> r == Some(*old(self)) && *final(self) == empty_diag()
                    && *final(window_start) == now
                &&& !due ==> r is None && *final(self) == *old(self) && *final(window_start)
                    == *old(window_start)
            }),
    {
        if now < *window_start || now - *window_start < DIAG_WINDOW_US || self.submits == 0 {
            return None;
        }
        let report = *self;
        *self = SubmitDiagWindow::new();
        *window_start = now;
        Some(report)
    }
}

/// Where a submission stands.
#[derive(Debug, Clone, Copy, PartialEq, Eq, Structural)]
pub enum SubmitStage {
    /// The input is being handed over for the first time.
    Initial,
    /// An event is awaited that asks for input.
    AwaitNeedInput,
    /// The input is being handed over after that event.
    AfterNeedInput,
    /// An event is awaited that announces output.
    AwaitHaveOutput,
    /// An output is being taken.
    Draining,
    /// The input is being handed over after an output was taken.
    AfterDrain,
    /// The submission is over.
    Over,
}

/// One submission: its frame, and how it went so far.
#[derive(Debug, Clone, Copy, PartialEq, Eq, Structural)]
pub struct SubmitJob {
    pub stage: SubmitStage,
    pub key_frame: bool,
    pub rtp_ts: u32,
    pub capture_us: i64,
    pub timeout_ms: u32,
    pub start_us: u64,
    pub sample_us: u64,
    pub initial: Attempt,
    pub initial_us: u64,
    pub need_wait_used: bool,
    pub need_wait: AsyncWaitTrace,
    pub after_need: Attempt,
    pub after_need_us: u64,
    pub drain: DrainPendingTrace,
    pub retry: Attempt,
    pub retry_us: u64,
}

/// What came of handing over the input.
#[derive(Debug, Clone, PartialEq, Eq)]
pub enum InputResult {
    Accepted,
    NotAccepting,
    Failed(String),
}

/// What came of taking an output.
#[derive(Debug, Clone, PartialEq, Eq)]
pub enum OutputResult {
    Frame(EncodedFrame),
    Nothing,
    Failed(String),
}

/// What came of the action that a step asked for.
#[derive(Debug, Clone, PartialEq, Eq)]
pub enum SubmitEvent {
    Input { result: InputResult, us: u64, now_us: u64 },
    Polled { events: PolledEvents, poll_loops: u32, wait_us: u64 },
    Output { output: OutputResult, drain_us: u64, now_us: u64 },
}

/// What to do next.
#[derive(Debug, Clone, PartialEq, Eq)]
pub enum SubmitAction {
    ProcessInput,
    Poll { target_type: u32, timeout_ms: u32 },
    ProcessOutput,
    Submitted,
    Failed(MftEncoderError),
}

/// The view of a [`SubmitAction`].
pub enum ActionView {
    ProcessInput,
    Poll { target_type: u32, timeout_ms: u32 },
    ProcessOutput,
    Submitted,
    Failed(MftErrorView),
}

impl View for SubmitAction {
    type V = ActionView;

    open spec fn view(&self) -> ActionView {
        match *self {
            SubmitAction::ProcessInput => ActionView::ProcessInput,
            SubmitAction::Poll { target_type, timeout_ms } => ActionView::Poll {
                target_type,
                timeout_ms,
            },
            SubmitAction::ProcessOutput => ActionView::ProcessOutput,
            SubmitAction::Submitted => ActionView::Submitted,
            SubmitAction::Failed(e) => ActionView::Failed(e@),
        }
    }
}

/// The encoder's state beside the transform.
#[derive(Debug)]
pub struct MftH264Encoder {
    pub width: u32,
    pub height: u32,
    pub fps: u32,
    pub bitrate_bps: u32,
    pub frame_count: u64,
    pub encoder_name: String,
    pub is_hardware: bool,
    pub is_async: bool,
    /// What was noted of the frames in flight, oldest first.
    pub meta_queue: VecDeque<FrameMeta>,
    /// Events that ask for input and were seen while another was awaited.
    pub need_input_buffered: u32,
    /// Events that announce output and were seen while another was awaited.
    pub have_output_buffered: u32,
    /// Outputs that were taken during a submission, oldest first.
    pub pending_outputs: VecDeque<PendingOutput>,
    pub submit_diag_window_start: u64,
    pub submit_diag: SubmitDiagWindow,
}

/// The view of an [`MftH264Encoder`].
#[verifier::ext_equal]
pub struct EncoderView {
    pub width: u32,
    pub height: u32,
    pub fps: u32,
    pub bitrate_bps: u32,
    pub frame_count: u64,
    pub encoder_name: String,
    pub is_hardware: bool,
    pub is_async: bool,
    pub meta_queue: Seq<FrameMeta>,
    pub need_input_buffered: u32,
    pub have_output_buffered: u32,
    pub pending_outputs: Seq<PendingOutput>,
    pub submit_diag_window_start: u64,
    pub submit_diag: SubmitDiagWindow,
}

impl View for MftH264Encoder {
    type V = EncoderView;

    open spec fn view(&self) -> EncoderView {
        EncoderView {
            width: self.width,
            height: self.height,
            fps: self.fps,
            bitrate_bps: self.bitrate_bps,
            frame_count: self.frame_count,
            encoder_name: self.encoder_name,
            is_hardware: self.is_hardware,
            is_async: self.is_async,
            meta_queue: self.meta_queue@,
            need_input_buffered: self.need_input_buffered,
            have_output_buffered: self.have_output_buffered,
            pending_outputs: self.pending_outputs@,
            submit_diag_window_start: self.submit_diag_window_start,
            submit_diag: self.submit_diag,
        }
    }
}

/// `a + b`, at most the largest 32-bit number.
pub open spec fn sat32(a: u32, b: u32) -> u32 {
    if a + b > u32::MAX {
        u32::MAX
    } else {
        (a + b) as u32
    }
}

/// The events that were seen besides the awaited one, put aside.
pub open spec fn events_buffered(a: EncoderView, e: PolledEvents) -> EncoderView {
    EncoderView {
        need_input_buffered: sat32(a.need_input_buffered, e.need_input),
        have_output_buffered: sat32(a.have_output_buffered, e.have_output),
        ..a
    }
}

/// Whether an event of the type was put aside.
pub open spec fn event_in_buffer(a: EncoderView, target_type: u32) -> bool {
    ||| target_type == ME_TRANSFORM_NEED_INPUT && a.need_input_buffered > 0
    ||| target_type == ME_TRANSFORM_HAVE_OUTPUT && a.have_output_buffered > 0
}

/// One event of the type taken from those put aside.
pub open spec fn event_taken(a: EncoderView, target_type: u32) -> EncoderView {
    if target_type == ME_TRANSFORM_NEED_INPUT && a.need_input_buffered > 0 {
        EncoderView { need_input_buffered: (a.need_input_buffered - 1) as u32, ..a }
    } else if target_type == ME_TRANSFORM_HAVE_OUTPUT && a.have_output_buffered > 0 {
        EncoderView { have_output_buffered: (a.have_output_buffered - 1) as u32, ..a }
    } else {
        a
    }
}

/// What an output that is taken at `now` is tagged with: what was noted of the
/// oldest frame in flight, or zeros where none is in flight.
pub open spec fn oldest_meta(a: EncoderView, now: u64) -> FrameMeta {
    if a.meta_queue.len() > 0 {
        a.meta_queue[0]
    } else {
        FrameMeta { rtp_ts: 0, capture_us: 0, submit_time: now, requested_key_frame: false }
    }
}

/// The encoder with the oldest frame no longer in flight.
pub open spec fn oldest_done(a: EncoderView) -> EncoderView {
    if a.meta_queue.len() > 0 {
        EncoderView { meta_queue: a.meta_queue.drop_first(), ..a }
    } else {
        a
    }
}

/// The time since `then`; zero where `then` lies ahead.
pub open spec fn span(now: u64, then: u64) -> u64 {
    if now >= then {
        (now - then) as u64
    } else {
        0
    }
}

/// An output tagged with what was noted of its input.
pub open spec fn tagged(frame: EncodedFrame, meta: FrameMeta, now: u64) -> PendingOutput {
    PendingOutput {
        frame: EncodedFrame { key_frame: meta.requested_key_frame, ..frame },
        rtp_ts: meta.rtp_ts,
        capture_us: meta.capture_us,
        encode_us: span(now, meta.submit_time),
    }
}

/// How an attempt went.
pub open spec fn attempt_of(r: InputResult) -> Attempt {
    match r {
        InputResult::Accepted => Attempt::Accepted,
        InputResult::NotAccepting => Attempt::NotAccepting,
        InputResult::Failed(_) => Attempt::Failed,
    }
}

/// The counters with one more submission, which left the encoder as `a`.
pub open spec fn diag_recorded(
    d: SubmitDiagWindow,
    job: SubmitJob,
    a: EncoderView,
    total_us: u64,
) -> SubmitDiagWindow {
    let waited = job.need_wait_used;
    let retried = waited && job.need_wait.found;
    let drained = waited && job.after_need != Attempt::Accepted;
    let queued = drained && job.drain.queued_frame;
    SubmitDiagWindow {
        submits: sat(d.submits, 1),
        sample_us_total: sat(d.sample_us_total, job.sample_us),
        initial_ok: count(d.initial_ok, job.initial == Attempt::Accepted),
        initial_not_accepting: count(
            d.initial_not_accepting,
            job.initial == Attempt::NotAccepting,
        ),
        initial_err: d.initial_err,
        initial_us_total: sat(d.initial_us_total, job.initial_us),
        need_wait_calls: count(d.need_wait_calls, waited),
        need_wait_found: count(d.need_wait_found, retried),
        need_wait_buffered: count(d.need_wait_buffered, waited && job.need_wait.buffered),
        need_wait_us_total: sat_if(d.need_wait_us_total, job.need_wait.wait_us, waited),
        need_wait_loops_total: sat_if(
            d.need_wait_loops_total,
            job.need_wait.poll_loops as u64,
            waited,
        ),
        need_wait_seen_need_total: sat_if(
            d.need_wait_seen_need_total,
            job.need_wait.need_input as u64,
            waited,
        ),
        need_wait_seen_have_total: sat_if(
            d.need_wait_seen_have_total,
            job.need_wait.have_output as u64,
            waited,
        ),
        after_need_ok: count(d.after_need_ok, retried && job.after_need == Attempt::Accepted),
        after_need_not_accepting: count(
            d.after_need_not_accepting,
            retried && job.after_need == Attempt::NotAccepting,
        ),
        after_need_err: d.after_need_err,
        after_need_us_total: sat_if(d.after_need_us_total, job.after_need_us, retried),
        drain_calls: count(d.drain_calls, drained),
        drain_found_output: count(d.drain_found_output, drained && job.drain.found_output),
        drain_queued_frame: count(d.drain_queued_frame, queued),
        drain_wait_us_total: sat_if(d.drain_wait_us_total, job.drain.wait.wait_us, drained),
        drain_output_us_total: sat_if(d.drain_output_us_total, job.drain.drain_us, drained),
        drain_encode_us_total: sat_if(d.drain_encode_us_total, job.drain.encode_us, drained),
        retry_after_drain_ok: count(
            d.retry_after_drain_ok,
            queued && job.retry == Attempt::Accepted,
        ),
        retry_after_drain_not_accepting: d.retry_after_drain_not_accepting,
        retry_after_drain_err: d.retry_after_drain_err,
        retry_after_drain_us_total: sat_if(d.retry_after_drain_us_total, job.retry_us, queued),
        total_submit_us_total: sat(d.total_submit_us_total, total_us),
        meta_queue_max: if d.meta_queue_max >= a.meta_queue.len() {
            d.meta_queue_max
        } else {
            a.meta_queue.len() as usize
        },
        pending_outputs_max: if d.pending_outputs_max >= a.pending_outputs.len() {
            d.pending_outputs_max
        } else {
            a.pending_outputs.len() as usize
        },
        need_input_buffered_max: if d.need_input_buffered_max >= a.need_input_buffered {
            d.need_input_buffered_max
        } else {
            a.need_input_buffered
        },
        have_output_buffered_max: if d.have_output_buffered_max >= a.have_output_buffered {
            d.have_output_buffered_max
        } else {
            a.have_output_buffered
        },
    }
}

/// The frame was accepted: it is in flight, and the submission is counted.
pub open spec fn submitted(a: EncoderView, job: SubmitJob, now: u64) -> EncoderView {
    let b = EncoderView {
        frame_count: (a.frame_count + 1) as u64,
        meta_queue: a.meta_queue.push(
            FrameMeta {
                rtp_ts: job.rtp_ts,
                capture_us: job.capture_us,
                submit_time: now,
                requested_key_frame: job.key_frame,
            },
        ),
        ..a
    };
    EncoderView {
        submit_diag: diag_recorded(a.submit_diag, job, b, span(now, job.start_us)),
        ..b
    }
}

/// A state, a submission, and what to do next.
pub type Step = (EncoderView, SubmitJob, ActionView);

pub open spec fn step_over(a: EncoderView, job: SubmitJob, now: u64) -> Step {
    (
        submitted(a, job, now),
        SubmitJob { stage: SubmitStage::Over, ..job },
        ActionView::Submitted,
    )
}

pub open spec fn step_failed(a: EncoderView, job: SubmitJob, message: Seq<char>) -> Step {
    (
        a,
        SubmitJob { stage: SubmitStage::Over, ..job },
        ActionView::Failed(MftErrorView::Encode(message)),
    )
}

/// Output is wanted: one that was announced before, or the next to be announced.
pub open spec fn step_want_output(a: EncoderView, job: SubmitJob) -> Step {
    if event_in_buffer(a, ME_TRANSFORM_HAVE_OUTPUT) {
        (
            event_taken(a, ME_TRANSFORM_HAVE_OUTPUT),
            SubmitJob {
                stage: SubmitStage::Draining,
                drain: DrainPendingTrace { wait: buffered_wait(), ..no_drain() },
                ..job
            },
            ActionView::ProcessOutput,
        )
    } else {
        (
            a,
            SubmitJob { stage: SubmitStage::AwaitHaveOutput, ..job },
            ActionView::Poll {
                target_type: ME_TRANSFORM_HAVE_OUTPUT,
                timeout_ms: job.timeout_ms,
            },
        )
    }
}

/// The input was refused at first: it is handed over again once the transform
/// asks for input.
pub open spec fn step_want_need(a: EncoderView, job: SubmitJob) -> Step {
    if event_in_buffer(a, ME_TRANSFORM_NEED_INPUT) {
        (
            event_taken(a, ME_TRANSFORM_NEED_INPUT),
            SubmitJob {
                stage: SubmitStage::AfterNeedInput,
                need_wait_used: true,
                need_wait: buffered_wait(),
                ..job
            },
            ActionView::ProcessInput,
        )
    } else {
        (
            a,
            SubmitJob { stage: SubmitStage::AwaitNeedInput, need_wait_used: true, ..job },
            ActionView::Poll {
                target_type: ME_TRANSFORM_NEED_INPUT,
                timeout_ms: job.timeout_ms,
            },
        )
    }
}

/// Whether the event answers the action that led to the stage.
pub open spec fn answers(stage: SubmitStage, ev: SubmitEvent) -> bool {
    match stage {
        SubmitStage::Initial | SubmitStage::AfterNeedInput | SubmitStage::AfterDrain => ev
            is Input,
        SubmitStage::AwaitNeedInput | SubmitStage::AwaitHaveOutput => ev is Polled,
        SubmitStage::Draining => ev is Output,
        SubmitStage::Over => false,
    }
}

/// What a submission does next, given what came of its last action.
pub open spec fn submit_next(a: EncoderView, job: SubmitJob, ev: SubmitEvent) -> Step {
    match (job.stage, ev) {
        (SubmitStage::Initial, SubmitEvent::Input { result, us, now_us }) => {
            let j = SubmitJob { initial: attempt_of(result), initial_us: us, ..job };
            match result {
                InputResult::Accepted => step_over(a, j, now_us),
                InputResult::NotAccepting => step_want_need(a, j),
                InputResult::Failed(e) => step_failed(a, j, "async ProcessInput: "@ + e@),
            }
        },
        (
            SubmitStage::AwaitNeedInput,
            SubmitEvent::Polled { events, poll_loops, wait_us },
        ) => {
            let b = events_buffered(a, events);
            let j = SubmitJob { need_wait: polled_wait(events, wait_us, poll_loops), ..job };
            if events.found {
                (
                    b,
                    SubmitJob { stage: SubmitStage::AfterNeedInput, ..j },
                    ActionView::ProcessInput,
                )
            } else {
                step_want_output(b, SubmitJob { after_need: Attempt::TimedOut, ..j })
            }
        },
        (SubmitStage::AfterNeedInput, SubmitEvent::Input { result, us, now_us }) => {
            let j = SubmitJob { after_need: attempt_of(result), after_need_us: us, ..job };
            match result {
                InputResult::Accepted => step_over(a, j, now_us),
                InputResult::NotAccepting => step_want_output(a, j),
                InputResult::Failed(e) => step_failed(
                    a,
                    j,
                    "async ProcessInput after NeedInput: "@ + e@,
                ),
            }
        },
        (
            SubmitStage::AwaitHaveOutput,
            SubmitEvent::Polled { events, poll_loops, wait_us },
        ) => {
            let b = events_buffered(a, events);
            let j = SubmitJob {
                drain: DrainPendingTrace {
                    wait: polled_wait(events, wait_us, poll_loops),
                    ..no_drain()
                },
                ..job
            };
            if events.found {
                (b, SubmitJob { stage: SubmitStage::Draining, ..j }, ActionView::ProcessOutput)
            } else {
                step_failed(b, j, "async MFT: timeout waiting for METransformHaveOutput"@)
            }
        },
        (SubmitStage::Draining, SubmitEvent::Output { output: result, drain_us, now_us }) => {
            let j = SubmitJob {
                drain: DrainPendingTrace { found_output: true, drain_us, ..job.drain },
                ..job
            };
            match result {
                OutputResult::Frame(frame) => {
                    let out = tagged(frame, oldest_meta(a, now_us), now_us);
                    let b = EncoderView {
                        pending_outputs: a.pending_outputs.push(out),
                        ..oldest_done(a)
                    };
                    (
                        b,
                        SubmitJob {
                            stage: SubmitStage::AfterDrain,
                            drain: DrainPendingTrace {
                                queued_frame: true,
                                encode_us: out.encode_us,
                                ..j.drain
                            },
                            ..j
                        },
                        ActionView::ProcessInput,
                    )
                },
                OutputResult::Nothing => step_failed(
                    a,
                    j,
                    "async MFT: timeout waiting for METransformHaveOutput"@,
                ),
                OutputResult::Failed(e) => step_failed(a, j, "ProcessOutput failed: "@ + e@),
            }
        },
        (SubmitStage::AfterDrain, SubmitEvent::Input { result, us, now_us }) => {
            let j = SubmitJob { retry: attempt_of(result), retry_us: us, ..job };
            match result {
                InputResult::Accepted => step_over(a, j, now_us),
                InputResult::NotAccepting => step_failed(
                    a,
                    j,
                    "async MFT: still not accepting after draining output"@,
                ),
                InputResult::Failed(e) => step_failed(
                    a,
                    j,
                    "async ProcessInput after drain: "@ + e@,
                ),
            }
        },
        _ => (a, job, ActionView::Submitted),
    }
}

impl InputResult {
    fn attempt(&self) -> (r: Attempt)
        ensures
            r == attempt_of(*self),
    {
        match self {
            InputResult::Accepted => Attempt::Accepted,
            InputResult::NotAccepting => Attempt::NotAccepting,
            InputResult::Failed(_) => Attempt::Failed,
        }
    }
}

fn wait_of(events: PolledEvents, wait_us: u64, poll_loops: u32) -> (r: AsyncWaitTrace)
    ensures
        r == polled_wait(events, wait_us, poll_loops),
{
    AsyncWaitTrace {
        found: events.found,
        buffered: false,
        need_input: events.need_input,
        have_output: events.have_output,
        wait_us,
        poll_loops,
    }
}

fn wait_from_buffer() -> (r: AsyncWaitTrace)
    ensures
        r == buffered_wait(),
{
    AsyncWaitTrace {
        found: true,
        buffered: true,
        need_input: 0,
        have_output: 0,
        wait_us: 0,
        poll_loops: 0,
    }
}

fn drain_after(wait: AsyncWaitTrace) -> (r: DrainPendingTrace)
    ensures
        r == (DrainPendingTrace { wait, ..no_drain() }),
{
    DrainPendingTrace { found_output: false, queued_frame: false, wait, drain_us: 0, encode_us: 0 }
}

impl MftH264Encoder {
    /// An encoder with nothing in flight.
    pub fn new(
        width: u32,
        height: u32,
        fps: u32,
        bitrate_bps: u32,
        encoder_name: String,
        is_hardware: bool,
        is_async: bool,
        now_us: u64,
    ) -> (r: MftH264Encoder)
        ensures
            r@ == (EncoderView {
                width,
                height,
                fps,
                bitrate_bps,
                frame_count: 0,
                encoder_name,
                is_hardware,
                is_async,
                meta_queue: Seq::empty(),
                need_input_buffered: 0,
                have_output_buffered: 0,
                pending_outputs: Seq::empty(),
                submit_diag_window_start: now_us,
                submit_diag: empty_diag(),
            }),
    {
        MftH264Encoder {
            width,
            height,
            fps,
            bitrate_bps,
            frame_count: 0,
            encoder_name,
            is_hardware,
            is_async,
            meta_queue: VecDeque::new(),
            need_input_buffered: 0,
            have_output_buffered: 0,
            pending_outputs: VecDeque::new(),
            submit_diag_window_start: now_us,
            submit_diag: SubmitDiagWindow::new(),
        }
    }

    /// Puts aside the events that were seen besides the awaited one.
    pub fn buffer_async_events(&mut self, events: PolledEvents)
        ensures
            final(self)@ == events_buffered(old(self)@, events),
    {
        let ghost before = self@;
        self.need_input_buffered = self.need_input_buffered.saturating_add(events.need_input);
        self.have_output_buffered = self.have_output_buffered.saturating_add(events.have_output);
        assert(self@ =~= events_buffered(before, events));
    }

    /// Takes an event of the type from those put aside, where there is one.
    pub fn take_buffered_event(&mut self, target_type: u32) -> (taken: bool)
        ensures
            taken == event_in_buffer(old(self)@, target_type),
            final(self)@ == event_taken(old(self)@, target_type),
    {
        let ghost before = self@;
        let taken = if target_type == ME_TRANSFORM_NEED_INPUT && self.need_input_buffered > 0 {
            self.need_input_buffered -= 1;
            true
        } else if target_type == ME_TRANSFORM_HAVE_OUTPUT && self.have_output_buffered > 0 {
            self.have_output_buffered -= 1;
            true
        } else {
            false
        };
        assert(self@ =~= event_taken(before, target_type));
        taken
    }

    /// Takes the oldest frame out of flight and tags an output with it.
    fn tag_output(&mut self, frame: EncodedFrame, now_us: u64) -> (r: PendingOutput)
        ensures
            r == tagged(frame, oldest_meta(old(self)@, now_us), now_us),
            final(self)@ == oldest_done(old(self)@),
    {
        let ghost before = self@;
        let meta = match self.meta_queue.pop_front() {
            Some(meta) => meta,
            None => FrameMeta {
                rtp_ts: 0,
                capture_us: 0,
                submit_time: now_us,
                requested_key_frame: false,
            },
        };
        assert(self@ =~= oldest_done(before));
        let mut frame = frame;
        frame.key_frame = meta.requested_key_frame;
        PendingOutput {
            frame,
            rtp_ts: meta.rtp_ts,
            capture_us: meta.capture_us,
            encode_us: now_us.saturating_sub(meta.submit_time),
        }
    }

    /// Counts a submission that was accepted.
    fn record_submit(&mut self, job: &SubmitJob, total_us: u64)
        ensures
            final(self)@ == (EncoderView {
                submit_diag: diag_recorded(
                    old(self)@.submit_diag,
                    *job,
                    old(self)@,
                    total_us,
                ),
                ..old(self)@
            }),
    {
        let ghost before = self@;
        let d = self.submit_diag;
        let waited = job.need_wait_used;
        let retried = waited && job.need_wait.found;
        let drained = waited && job.after_need != Attempt::Accepted;
        let queued = drained && job.drain.queued_frame;
        let metas: usize = self.meta_queue.len();
        let pending: usize = self.pending_outputs.len();
        self.submit_diag = SubmitDiagWindow {
            submits: d.submits.saturating_add(1),
            sample_us_total: d.sample_us_total.saturating_add(job.sample_us),
            initial_ok: tally(d.initial_ok, job.initial == Attempt::Accepted),
            initial_not_accepting: tally(
                d.initial_not_accepting,
                job.initial == Attempt::NotAccepting,
            ),
            initial_err: d.initial_err,
            initial_us_total: d.initial_us_total.saturating_add(job.initial_us),
            need_wait_calls: tally(d.need_wait_calls, waited),
            need_wait_found: tally(d.need_wait_found, retried),
            need_wait_buffered: tally(d.need_wait_buffered, waited && job.need_wait.buffered),
            need_wait_us_total: total_if(d.need_wait_us_total, job.need_wait.wait_us, waited),
            need_wait_loops_total: total_if(
                d.need_wait_loops_total,
                job.need_wait.poll_loops as u64,
                waited,
            ),
            need_wait_seen_need_total: total_if(
                d.need_wait_seen_need_total,
                job.need_wait.need_input as u64,
                waited,
            ),
            need_wait_seen_have_total: total_if(
                d.need_wait_seen_have_total,
                job.need_wait.have_output as u64,
                waited,
            ),
            after_need_ok: tally(d.after_need_ok, retried && job.after_need == Attempt::Accepted),
            after_need_not_accepting: tally(
                d.after_need_not_accepting,
                retried && job.after_need == Attempt::NotAccepting,
            ),
            after_need_err: d.after_need_err,
            after_need_us_total: total_if(d.after_need_us_total, job.after_need_us, retried),
            drain_calls: tally(d.drain_calls, drained),
            drain_found_output: tally(d.drain_found_output, drained && job.drain.found_output),
            drain_queued_frame: tally(d.drain_queued_frame, queued),
            drain_wait_us_total: total_if(d.drain_wait_us_total, job.drain.wait.wait_us, drained),
            drain_output_us_total: total_if(d.drain_output_us_total, job.drain.drain_us, drained),
            drain_encode_us_total: total_if(d.drain_encode_us_total, job.drain.encode_us, drained),
            retry_after_drain_ok: tally(
                d.retry_after_drain_ok,
                queued && job.retry == Attempt::Accepted,
            ),
            retry_after_drain_not_accepting: d.retry_after_drain_not_accepting,
            retry_after_drain_err: d.retry_after_drain_err,
            retry_after_drain_us_total: total_if(
                d.retry_after_drain_us_total,
                job.retry_us,
                queued,
            ),
            total_submit_us_total: d.total_submit_us_total.saturating_add(total_us),
            meta_queue_max: if d.meta_queue_max >= metas {
                d.meta_queue_max
            } else {
                metas
            },
            pending_outputs_max: if d.pending_outputs_max >= pending {
                d.pending_outputs_max
            } else {
                pending
            },
            need_input_buffered_max: if d.need_input_buffered_max >= self.need_input_buffered {
                d.need_input_buffered_max
            } else {
                self.need_input_buffered
            },
            have_output_buffered_max: if d.have_output_buffered_max >= self.have_output_buffered {
                d.have_output_buffered_max
            } else {
                self.have_output_buffered
            },
        };
        assert(self@ =~= (EncoderView {
            submit_diag: diag_recorded(before.submit_diag, *job, before, total_us),
            ..before
        }));
    }

    fn finish_submit(&mut self, job: &mut SubmitJob, now_us: u64) -> (r: SubmitAction)
        requires
            old(self).frame_count < u64::MAX,
        ensures
            (final(self)@, *final(job), r@) == step_over(old(self)@, *old(job), now_us),
    {
        let ghost before = self@;
        self.frame_count += 1;
        self.meta_queue.push_back(
            FrameMeta {
                rtp_ts: job.rtp_ts,
                capture_us: job.capture_us,
                submit_time: now_us,
                requested_key_frame: job.key_frame,
            },
        );
        self.record_submit(job, now_us.saturating_sub(job.start_us));
        assert(self@ =~= submitted(before, *job, now_us));
        job.stage = SubmitStage::Over;
        SubmitAction::Submitted
    }

    fn want_output(&mut self, job: &mut SubmitJob) -> (r: SubmitAction)
        ensures
            (final(self)@, *final(job), r@) == step_want_output(old(self)@, *old(job)),
    {
        if self.take_buffered_event(ME_TRANSFORM_HAVE_OUTPUT) {
            job.stage = SubmitStage::Draining;
            job.drain = drain_after(wait_from_buffer());
            SubmitAction::ProcessOutput
        } else {
            job.stage = SubmitStage::AwaitHaveOutput;
            SubmitAction::Poll {
                target_type: ME_TRANSFORM_HAVE_OUTPUT,
                timeout_ms: job.timeout_ms,
            }
        }
    }

    fn want_need_input(&mut self, job: &mut SubmitJob) -> (r: SubmitAction)
        ensures
            (final(self)@, *final(job), r@) == step_want_need(old(self)@, *old(job)),
    {
        job.need_wait_used = true;
        if self.take_buffered_event(ME_TRANSFORM_NEED_INPUT) {
            job.stage = SubmitStage::AfterNeedInput;
            job.need_wait = wait_from_buffer();
            SubmitAction::ProcessInput
        } else {
            job.stage = SubmitStage::AwaitNeedInput;
            SubmitAction::Poll { target_type: ME_TRANSFORM_NEED_INPUT, timeout_ms: job.timeout_ms }
        }
    }

    /// Begins to submit a frame, whose input is then to be handed over. Only a
    /// transform that works asynchronously takes submissions.
    pub fn submit(
        &self,
        key_frame: bool,
        rtp_ts: u32,
        capture_us: i64,
        need_input_timeout_ms: u32,
        start_us: u64,
        sample_us: u64,
    ) -> (r: Result<SubmitJob, MftEncoderError>)
        ensures
            match r {
                Ok(job) => self.is_async && job == (SubmitJob {
                    stage: SubmitStage::Initial,
                    key_frame,
                    rtp_ts,
                    capture_us,
                    timeout_ms: need_input_timeout_ms,
                    start_us,
                    sample_us,
                    initial: Attempt::Skipped,
                    initial_us: 0,
                    need_wait_used: false,
                    need_wait: no_wait(),
                    after_need: Attempt::Skipped,
                    after_need_us: 0,
                    drain: no_drain(),
                    retry: Attempt::Skipped,
                    retry_us: 0,
                }),
                Err(e) => !self.is_async && e@ == MftErrorView::Encode(
                    "submit/collect only for async MFT; use encode() for sync"@,
                ),
            },
    {
        if !self.is_async {
            return Err(
                encode_error_plain("submit/collect only for async MFT; use encode() for sync"),
            );
        }
        let wait = AsyncWaitTrace {
            found: false,
            buffered: false,
            need_input: 0,
            have_output: 0,
            wait_us: 0,
            poll_loops: 0,
        };
        Ok(
            SubmitJob {
                stage: SubmitStage::Initial,
                key_frame,
                rtp_ts,
                capture_us,
                timeout_ms: need_input_timeout_ms,
                start_us,
                sample_us,
                initial: Attempt::Skipped,
                initial_us: 0,
                need_wait_used: false,
                need_wait: wait,
                after_need: Attempt::Skipped,
                after_need_us: 0,
                drain: drain_after(wait),
                retry: Attempt::Skipped,
                retry_us: 0,
            },
        )
    }

    /// Goes on with a submission, given what came of its last action.
    pub fn submit_step(&mut self, job: &mut SubmitJob, ev: SubmitEvent) -> (r: SubmitAction)
        requires
            answers(old(job).stage, ev),
            ev is Input && ev->result is Accepted ==> old(self).frame_count < u64::MAX,
        ensures
            (final(self)@, *final(job), r@) == submit_next(old(self)@, *old(job), ev),
    {
        let ghost before = self@;
        match ev {
            SubmitEvent::Input { result, us, now_us } => {
                let attempt = result.attempt();
                match job.stage {
                    SubmitStage::Initial => {
                        job.initial = attempt;
                        job.initial_us = us;
                        match result {
                            InputResult::Accepted => self.finish_submit(job, now_us),
                            InputResult::NotAccepting => self.want_need_input(job),
                            InputResult::Failed(e) => {
                                job.stage = SubmitStage::Over;
                                SubmitAction::Failed(
                                    encode_error("async ProcessInput: ", e.as_str()),
                                )
                            },
                        }
                    },
                    SubmitStage::AfterNeedInput => {
                        job.after_need = attempt;
                        job.after_need_us = us;
                        match result {
                            InputResult::Accepted => self.finish_submit(job, now_us),
                            InputResult::NotAccepting => self.want_output(job),
                            InputResult::Failed(e) => {
                                job.stage = SubmitStage::Over;
                                SubmitAction::Failed(
                                    encode_error(
                                        "async ProcessInput after NeedInput: ",
                                        e.as_str(),
                                    ),
                                )
                            },
                        }
                    },
                    _ => {
                        job.retry = attempt;
                        job.retry_us = us;
                        match result {
                            InputResult::Accepted => self.finish_submit(job, now_us),
                            InputResult::NotAccepting => {
                                job.stage = SubmitStage::Over;
                                SubmitAction::Failed(
                                    encode_error_plain(
                                        "async MFT: still not accepting after draining output",
                                    ),
                                )
                            },
                            InputResult::Failed(e) => {
                                job.stage = SubmitStage::Over;
                                SubmitAction::Failed(
                                    encode_error("async ProcessInput after drain: ", e.as_str()),
                                )
                            },
                        }
                    },
                }
            },
            SubmitEvent::Polled { events, poll_loops, wait_us } => {
                self.buffer_async_events(events);
                let wait = wait_of(events, wait_us, poll_loops);
                if job.stage == SubmitStage::AwaitNeedInput {
                    job.need_wait = wait;
                    if events.found {
                        job.stage = SubmitStage::AfterNeedInput;
                        SubmitAction::ProcessInput
                    } else {
                        job.after_need = Attempt::TimedOut;
                        self.want_output(job)
                    }
                } else {
                    job.drain = drain_after(wait);
                    if events.found {
                        job.stage = SubmitStage::Draining;
                        SubmitAction::ProcessOutput
                    } else {
                        job.stage = SubmitStage::Over;
                        SubmitAction::Failed(
                            encode_error_plain(
                                "async MFT: timeout waiting for METransformHaveOutput",
                            ),
                        )
                    }
                }
            },
            SubmitEvent::Output { output: result, drain_us, now_us } => {
                job.drain.found_output = true;
                job.drain.drain_us = drain_us;
                match result {
                    OutputResult::Frame(frame) => {
                        let out = self.tag_output(frame, now_us);
                        job.drain.queued_frame = true;
                        job.drain.encode_us = out.encode_us;
                        job.stage = SubmitStage::AfterDrain;
                        self.pending_outputs.push_back(out);
                        assert(self@ =~= submit_next(before, *old(job), ev).0);
                        SubmitAction::ProcessInput
                    },
                    OutputResult::Nothing => {
                        job.stage = SubmitStage::Over;
                        SubmitAction::Failed(
                            encode_error_plain(
                                "async MFT: timeout waiting for METransformHaveOutput",
                            ),
                        )
                    },
                    OutputResult::Failed(e) => {
                        job.stage = SubmitStage::Over;
                        SubmitAction::Failed(encode_error("ProcessOutput failed: ", e.as_str()))
                    },
                }
            },
        }
    }
}

/// What collecting hands out: the encoded frames, the RTP time stamp and the capture
/// time of their input, and how long the encoding took in microseconds.
pub type Output = (Vec<EncodedFrame>, u32, i64, u64);

/// The view of an [`Output`].
pub type OutputView = (Seq<EncodedFrame>, u32, i64, u64);

/// The view of what collecting hands out.
pub open spec fn output_view(out: Output) -> OutputView {
    (out.0@, out.1, out.2, out.3)
}

/// What is handed out of an encoded frame: that frame alone, with what was noted of
/// its input.
pub open spec fn handed(p: PendingOutput) -> OutputView {
    (seq![p.frame], p.rtp_ts, p.capture_us, p.encode_us)
}

fn hand_out(p: PendingOutput) -> (r: Output)
    ensures
        output_view(r) == handed(p),
{
    let mut frames: Vec<EncodedFrame> = Vec::new();
    frames.push(p.frame);
    assert(frames@ =~= seq![p.frame]);
    (frames, p.rtp_ts, p.capture_us, p.encode_us)
}

/// What to do to collect an output.
#[derive(Debug, PartialEq, Eq)]
pub enum CollectStep {
    /// An output that was taken during a submission.
    Ready(Output),
    /// Poll for the event that announces output; without a timeout, do not wait.
    Poll { target_type: u32, timeout_ms: Option<u32> },
    /// Take an output that was announced before.
    ProcessOutput,
}

/// Where encoding a single frame stands.
#[derive(Debug, Clone, Copy, PartialEq, Eq, Structural)]
pub enum EncodeStage {
    /// The input is being handed over for the first time.
    Initial,
    /// An output is awaited that has to make room for the input.
    AwaitRoom,
    /// That output is being taken.
    MakeRoom,
    /// The input is being handed over after that.
    Retry,
    /// The input was accepted, and an output is awaited.
    AwaitOutput,
    /// That output is being taken.
    TakeOutput,
    /// The encoding is over.
    Over,
}

/// The encoding of one frame.
#[derive(Debug)]
pub struct EncodeJob {
    pub stage: EncodeStage,
    pub key_frame: bool,
    pub timeout_ms: u32,
    pub frames: Vec<EncodedFrame>,
}

/// The view of an [`EncodeJob`].
#[verifier::ext_equal]
pub struct EncodeView {
    pub stage: EncodeStage,
    pub key_frame: bool,
    pub timeout_ms: u32,
    pub frames: Seq<EncodedFrame>,
}

impl View for EncodeJob {
    type V = EncodeView;

    open spec fn view(&self) -> EncodeView {
        EncodeView {
            stage: self.stage,
            key_frame: self.key_frame,
            timeout_ms: self.timeout_ms,
            frames: self.frames@,
        }
    }
}

/// What came of the action that a step of an encoding asked for.
#[derive(Debug, Clone, PartialEq, Eq)]
pub enum EncodeEvent {
    Input(InputResult),
    Polled(PolledEvents),
    Output(OutputResult),
}

/// What to do next to encode a frame.
#[derive(Debug, Clone, PartialEq, Eq)]
pub enum EncodeAction {
    ProcessInput,
    Poll { target_type: u32, timeout_ms: u32 },
    ProcessOutput,
    /// The frames of the job are the result.
    Encoded,
    Failed(MftEncoderError),
}

/// The view of an [`EncodeAction`].
pub enum EncodeActionView {
    ProcessInput,
    Poll { target_type: u32, timeout_ms: u32 },
    ProcessOutput,
    Encoded,
    Failed(MftErrorView),
}

impl View for EncodeAction {
    type V = EncodeActionView;

    open spec fn view(&self) -> EncodeActionView {
        match *self {
            EncodeAction::ProcessInput => EncodeActionView::ProcessInput,
            EncodeAction::Poll { target_type, timeout_ms } => EncodeActionView::Poll {
                target_type,
                timeout_ms,
            },
            EncodeAction::ProcessOutput => EncodeActionView::ProcessOutput,
            EncodeAction::Encoded => EncodeActionView::Encoded,
            EncodeAction::Failed(e) => EncodeActionView::Failed(e@),
        }
    }
}

/// Whether the event answers the action that led to the stage.
pub open spec fn encode_answers(stage: EncodeStage, ev: EncodeEvent) -> bool {
    match stage {
        EncodeStage::Initial | EncodeStage::Retry => ev is Input,
        EncodeStage::AwaitRoom | EncodeStage::AwaitOutput => ev is Polled,
        EncodeStage::MakeRoom | EncodeStage::TakeOutput => ev is Output,
        EncodeStage::Over => false,
    }
}

/// A state, an encoding, and what to do next.
pub type EncodeStep = (EncoderView, EncodeView, EncodeActionView);

pub open spec fn encode_failed(a: EncoderView, job: EncodeView, message: Seq<char>) -> EncodeStep {
    (
        a,
        EncodeView { stage: EncodeStage::Over, ..job },
        EncodeActionView::Failed(MftErrorView::Encode(message)),
    )
}

/// Output is wanted: one that was announced before, or the next to be announced.
pub open spec fn encode_want_output(
    a: EncoderView,
    job: EncodeView,
    taking: EncodeStage,
    awaiting: EncodeStage,
) -> EncodeStep {
    if event_in_buffer(a, ME_TRANSFORM_HAVE_OUTPUT) {
        (
            event_taken(a, ME_TRANSFORM_HAVE_OUTPUT),
            EncodeView { stage: taking, ..job },
            EncodeActionView::ProcessOutput,
        )
    } else {
        (
            a,
            EncodeView { stage: awaiting, ..job },
            EncodeActionView::Poll {
                target_type: ME_TRANSFORM_HAVE_OUTPUT,
                timeout_ms: job.timeout_ms,
            },
        )
    }
}

/// The input was accepted: it is counted, and its output is wanted.
pub open spec fn encode_accepted(a: EncoderView, job: EncodeView) -> EncodeStep {
    encode_want_output(
        EncoderView { frame_count: (a.frame_count + 1) as u64, ..a },
        job,
        EncodeStage::TakeOutput,
        EncodeStage::AwaitOutput,
    )
}

/// The job with one more output, marked as it was asked for.
pub open spec fn encode_pushed(job: EncodeView, frame: EncodedFrame) -> EncodeView {
    EncodeView {
        frames: job.frames.push(EncodedFrame { key_frame: job.key_frame, ..frame }),
        ..job
    }
}

/// What encoding a frame does next, given what came of its last action.
pub open spec fn encode_next(a: EncoderView, job: EncodeView, ev: EncodeEvent) -> EncodeStep {
    match (job.stage, ev) {
        (EncodeStage::Initial, EncodeEvent::Input(r)) => match r {
            InputResult::Accepted => encode_accepted(a, job),
            InputResult::NotAccepting => encode_want_output(
                a,
                job,
                EncodeStage::MakeRoom,
                EncodeStage::AwaitRoom,
            ),
            InputResult::Failed(e) => encode_failed(a, job, "async ProcessInput: "@ + e@),
        },
        (EncodeStage::AwaitRoom, EncodeEvent::Polled(events)) => if events.found {
            (
                events_buffered(a, events),
                EncodeView { stage: EncodeStage::MakeRoom, ..job },
                EncodeActionView::ProcessOutput,
            )
        } else {
            encode_failed(
                events_buffered(a, events),
                job,
                "async MFT: timeout waiting for METransformHaveOutput"@,
            )
        },
        (EncodeStage::MakeRoom, EncodeEvent::Output(r)) => match r {
            OutputResult::Frame(frame) => (
                a,
                EncodeView { stage: EncodeStage::Retry, ..encode_pushed(job, frame) },
                EncodeActionView::ProcessInput,
            ),
            OutputResult::Nothing => encode_failed(
                a,
                job,
                "async MFT: timeout waiting for METransformHaveOutput"@,
            ),
            OutputResult::Failed(e) => encode_failed(a, job, "ProcessOutput failed: "@ + e@),
        },
        (EncodeStage::Retry, EncodeEvent::Input(r)) => match r {
            InputResult::Accepted => encode_accepted(a, job),
            InputResult::NotAccepting => encode_failed(
                a,
                job,
                "async MFT: still not accepting after draining output"@,
            ),
            InputResult::Failed(e) => encode_failed(
                a,
                job,
                "async ProcessInput after drain: "@ + e@,
            ),
        },
        (EncodeStage::AwaitOutput, EncodeEvent::Polled(events)) => if events.found {
            (
                events_buffered(a, events),
                EncodeView { stage: EncodeStage::TakeOutput, ..job },
                EncodeActionView::ProcessOutput,
            )
        } else {
            (
                events_buffered(a, events),
                EncodeView { stage: EncodeStage::Over, ..job },
                EncodeActionView::Encoded,
            )
        },
        (EncodeStage::TakeOutput, EncodeEvent::Output(r)) => match r {
            OutputResult::Frame(frame) => (
                a,
                EncodeView { stage: EncodeStage::Over, ..encode_pushed(job, frame) },
                EncodeActionView::Encoded,
            ),
            OutputResult::Nothing => (
                a,
                EncodeView { stage: EncodeStage::Over, ..job },
                EncodeActionView::Encoded,
            ),
            OutputResult::Failed(e) => encode_failed(a, job, "ProcessOutput failed: "@ + e@),
        },
        _ => (a, job, EncodeActionView::Encoded),
    }
}

/// How long to wait for an output, in milliseconds: generously at the start and
/// for key frames, else two frame times within narrow bounds.
pub open spec fn output_timeout(frame_count: u64, fps: u32, key_frame: bool) -> int {
    if frame_count < 3 || key_frame {
        120
    } else {
        let two_frames = 2_000int / (if fps == 0 {
            1int
        } else {
            fps as int
        });
        if two_frames < 8 {
            8
        } else if two_frames > 40 {
            40
        } else {
            two_frames
        }
    }
}

impl MftH264Encoder {
    /// Begins to collect an output without waiting for one.
    pub fn collect(&mut self) -> (r: Result<CollectStep, MftEncoderError>)
        ensures
            collect_begun(old(self)@, final(self)@, r, None),
    {
        self.begin_collect(None)
    }

    /// Begins to collect an output, waiting for one as long as is given.
    pub fn collect_blocking(&mut self, timeout_ms: u32) -> (r: Result<
        CollectStep,
        MftEncoderError,
    >)
        ensures
            collect_begun(old(self)@, final(self)@, r, Some(timeout_ms)),
    {
        self.begin_collect(Some(timeout_ms))
    }

    fn begin_collect(&mut self, timeout_ms: Option<u32>) -> (r: Result<
        CollectStep,
        MftEncoderError,
    >)
        ensures
            collect_begun(old(self)@, final(self)@, r, timeout_ms),
    {
        let ghost before = self@;
        if !self.is_async {
            return Err(
                encode_error_plain("submit/collect only for async MFT; use encode() for sync"),
            );
        }
        if let Some(out) = self.pending_outputs.pop_front() {
            assert(self@ =~= (EncoderView {
                pending_outputs: before.pending_outputs.drop_first(),
                ..before
            }));
            return Ok(CollectStep::Ready(hand_out(out)));
        }
        if self.take_buffered_event(ME_TRANSFORM_HAVE_OUTPUT) {
            Ok(CollectStep::ProcessOutput)
        } else {
            Ok(CollectStep::Poll { target_type: ME_TRANSFORM_HAVE_OUTPUT, timeout_ms })
        }
    }

    /// Goes on with collecting after the poll: whether an output is to be taken.
    pub fn collect_polled(&mut self, events: PolledEvents) -> (found: bool)
        ensures
            found == events.found,
            final(self)@ == events_buffered(old(self)@, events),
    {
        self.buffer_async_events(events);
        events.found
    }

    /// Ends collecting: the output, tagged with what was noted of the oldest
    /// frame in flight.
    pub fn collect_inner(&mut self, result: OutputResult, now_us: u64) -> (r: Result<
        Option<Output>,
        MftEncoderError,
    >)
        ensures
            match (result, r) {
                (OutputResult::Frame(frame), Ok(Some(out))) => output_view(out) == handed(
                    tagged(frame, oldest_meta(old(self)@, now_us), now_us),
                ) && final(self)@ == oldest_done(old(self)@),
                (OutputResult::Nothing, Ok(None)) => final(self)@ == old(self)@,
                (OutputResult::Failed(e), Err(err)) => final(self)@ == old(self)@ && err@
                    == MftErrorView::Encode("ProcessOutput failed: "@ + e@),
                _ => false,
            },
    {
        match result {
            OutputResult::Frame(frame) => Ok(Some(hand_out(self.tag_output(frame, now_us)))),
            OutputResult::Nothing => Ok(None),
            OutputResult::Failed(e) => Err(encode_error("ProcessOutput failed: ", e.as_str())),
        }
    }

    /// How long to wait for an output, in milliseconds.
    pub fn async_output_timeout_ms(&self, key_frame: bool) -> (r: u32)
        ensures
            r == output_timeout(self.frame_count, self.fps, key_frame),
    {
        if self.frame_count < 3 || key_frame {
            120
        } else {
            let fps: u32 = if self.fps == 0 {
                1
            } else {
                self.fps
            };
            let two_frames: u32 = 2_000 / fps;
            if two_frames < ASYNC_HAVE_OUTPUT_WAIT_MS {
                ASYNC_HAVE_OUTPUT_WAIT_MS
            } else if two_frames > 40 {
                40
            } else {
                two_frames
            }
        }
    }

    /// Begins to encode a frame with a transform that works asynchronously; its
    /// input is then to be handed over.
    pub fn encode_async(&self, key_frame: bool) -> (r: EncodeJob)
        ensures
            r@ == (EncodeView {
                stage: EncodeStage::Initial,
                key_frame,
                timeout_ms: output_timeout(self.frame_count, self.fps, key_frame) as u32,
                frames: Seq::empty(),
            }),
    {
        EncodeJob {
            stage: EncodeStage::Initial,
            key_frame,
            timeout_ms: self.async_output_timeout_ms(key_frame),
            frames: Vec::new(),
        }
    }

    fn encode_wants_output(
        &mut self,
        job: &mut EncodeJob,
        taking: EncodeStage,
        awaiting: EncodeStage,
    ) -> (r: EncodeAction)
        ensures
            (final(self)@, final(job)@, r@) == encode_want_output(
                old(self)@,
                old(job)@,
                taking,
                awaiting,
            ),
    {
        if self.take_buffered_event(ME_TRANSFORM_HAVE_OUTPUT) {
            job.stage = taking;
            EncodeAction::ProcessOutput
        } else {
            job.stage = awaiting;
            EncodeAction::Poll { target_type: ME_TRANSFORM_HAVE_OUTPUT, timeout_ms: job.timeout_ms }
        }
    }

    fn encode_input_accepted(&mut self, job: &mut EncodeJob) -> (r: EncodeAction)
        requires
            old(self).frame_count < u64::MAX,
        ensures
            (final(self)@, final(job)@, r@) == encode_accepted(old(self)@, old(job)@),
    {
        let ghost before = self@;
        self.frame_count += 1;
        assert(self@ =~= (EncoderView { frame_count: (before.frame_count + 1) as u64, ..before }));
        self.encode_wants_output(job, EncodeStage::TakeOutput, EncodeStage::AwaitOutput)
    }

    /// Goes on with encoding a frame, given what came of the last action.
    pub fn encode_step(&mut self, job: &mut EncodeJob, ev: EncodeEvent) -> (r: EncodeAction)
        requires
            encode_answers(old(job).stage, ev),
            ev == EncodeEvent::Input(InputResult::Accepted) ==> old(self).frame_count < u64::MAX,
        ensures
            (final(self)@, final(job)@, r@) == encode_next(old(self)@, old(job)@, ev),
            old(job).frames@.len() <= final(job).frames@.len(),
            final(job).frames@.take(old(job).frames@.len() as int) == old(job).frames@,
    {
        let ghost jb = job@;
        proof {
            let (_, j, _) = encode_next(self@, job@, ev);
            assert(j.frames.take(jb.frames.len() as int) =~= jb.frames);
        }
        match ev {
            EncodeEvent::Input(result) => {
                let first = job.stage == EncodeStage::Initial;
                match result {
                    InputResult::Accepted => self.encode_input_accepted(job),
                    InputResult::NotAccepting => {
                        if first {
                            self.encode_wants_output(
                                job,
                                EncodeStage::MakeRoom,
                                EncodeStage::AwaitRoom,
                            )
                        } else {
                            job.stage = EncodeStage::Over;
                            EncodeAction::Failed(
                                encode_error_plain(
                                    "async MFT: still not accepting after draining output",
                                ),
                            )
                        }
                    },
                    InputResult::Failed(e) => {
                        job.stage = EncodeStage::Over;
                        if first {
                            EncodeAction::Failed(encode_error("async ProcessInput: ", e.as_str()))
                        } else {
                            EncodeAction::Failed(
                                encode_error("async ProcessInput after drain: ", e.as_str()),
                            )
                        }
                    },
                }
            },
            EncodeEvent::Polled(events) => {
                self.buffer_async_events(events);
                if job.stage == EncodeStage::AwaitRoom {
                    if events.found {
                        job.stage = EncodeStage::MakeRoom;
                        EncodeAction::ProcessOutput
                    } else {
                        job.stage = EncodeStage::Over;
                        EncodeAction::Failed(
                            encode_error_plain(
                                "async MFT: timeout waiting for METransformHaveOutput",
                            ),
                        )
                    }
                } else if events.found {
                    job.stage = EncodeStage::TakeOutput;
                    EncodeAction::ProcessOutput
                } else {
                    job.stage = EncodeStage::Over;
                    EncodeAction::Encoded
                }
            },
            EncodeEvent::Output(result) => {
                let room = job.stage == EncodeStage::MakeRoom;
                match result {
                    OutputResult::Frame(frame) => {
                        let mut marked = frame;
                        marked.key_frame = job.key_frame;
                        job.frames.push(marked);
                        if room {
                            job.stage = EncodeStage::Retry;
                            assert(job@ =~= (EncodeView {
                                stage: EncodeStage::Retry,
                                ..encode_pushed(jb, frame)
                            }));
                            EncodeAction::ProcessInput
                        } else {
                            job.stage = EncodeStage::Over;
                            assert(job@ =~= (EncodeView {
                                stage: EncodeStage::Over,
                                ..encode_pushed(jb, frame)
                            }));
                            EncodeAction::Encoded
                        }
                    },
                    OutputResult::Nothing => {
                        job.stage = EncodeStage::Over;
                        if room {
                            EncodeAction::Failed(
                                encode_error_plain(
                                    "async MFT: timeout waiting for METransformHaveOutput",
                                ),
                            )
                        } else {
                            EncodeAction::Encoded
                        }
                    },
                    OutputResult::Failed(e) => {
                        job.stage = EncodeStage::Over;
                        EncodeAction::Failed(encode_error("ProcessOutput failed: ", e.as_str()))
                    },
                }
            },
        }
    }

    /// Counts a frame that a synchronous transform accepted, and marks the
    /// outputs that it gave as they were asked for.
    pub fn encode(&mut self, outputs: Vec<EncodedFrame>, key_frame: bool) -> (r: Vec<EncodedFrame>)
        requires
            old(self).frame_count < u64::MAX,
        ensures
            final(self)@ == (EncoderView {
                frame_count: (old(self).frame_count + 1) as u64,
                ..old(self)@
            }),
            r@ == outputs@.map_values(|f: EncodedFrame| EncodedFrame { key_frame, ..f }),
    {
        let ghost before = self@;
        self.frame_count += 1;
        assert(self@ =~= (EncoderView { frame_count: (before.frame_count + 1) as u64, ..before }));
        let ghost all = outputs@;
        let mut frames = outputs;
        let mut i: usize = 0;
        while i < frames.len()
            invariant
                i <= frames@.len(),
                frames@.len() == all.len(),
                forall|k: int|
                    0 <= k < i ==> #[trigger] frames@[k] == (EncodedFrame { key_frame, ..all[k] }),
                forall|k: int| i <= k < all.len() ==> #[trigger] frames@[k] == all[k],
            decreases frames@.len() - i,
        {
            frames[i].key_frame = key_frame;
            i += 1;
        }
        assert(frames@ =~= all.map_values(|f: EncodedFrame| EncodedFrame { key_frame, ..f }));
        frames
    }

    /// Whether a new bit rate is to be set: it is not zero and differs from the
    /// one in force.
    pub fn bitrate_change_due(&self, bps: u32) -> (r: bool)
        ensures
            r == (bps != 0 && bps != self.bitrate_bps),
    {
        bps != 0 && self.bitrate_bps != bps
    }

    /// Puts a bit rate in force, given what came of setting it on the transform
    /// where that was due.
    pub fn set_bitrate(&mut self, bps: u32, outcome: Result<(), String>) -> (r: Result<
        (),
        MftEncoderError,
    >)
        ensures
            ({
                let due = bps != 0 && bps != old(self).bitrate_bps;
                match (due, outcome) {
                    (false, _) => r is Ok && final(self)@ == old(self)@,
                    (true, Ok(_)) => r is Ok && final(self)@ == (EncoderView {
                        bitrate_bps: bps,
                        ..old(self)@
                    }),
                    (true, Err(e)) => r is Err && r->Err_0@ == MftErrorView::Encode(
                        "Set bitrate: "@ + e@,
                    ) && final(self)@ == old(self)@,
                }
            }),
    {
        let ghost before = self@;
        if !self.bitrate_change_due(bps) {
            return Ok(());
        }
        match outcome {
            Ok(_) => {
                self.bitrate_bps = bps;
                assert(self@ =~= (EncoderView { bitrate_bps: bps, ..before }));
                Ok(())
            },
            Err(e) => Err(encode_error("Set bitrate: ", e.as_str())),
        }
    }

    /// Whether the transform runs on hardware.
    pub fn is_hardware(&self) -> (r: bool)
        ensures
            r == self.is_hardware,
    {
        self.is_hardware
    }

    /// Whether the transform works asynchronously.
    pub fn is_async(&self) -> (r: bool)
        ensures
            r == self.is_async,
    {
        self.is_async
    }

    /// The transform's name.
    pub fn encoder_name(&self) -> (r: &str)
        ensures
            r@ == self.encoder_name@,
    {
        self.encoder_name.as_str()
    }

    /// The width of the frames.
    pub fn width(&self) -> (r: u32)
        ensures
            r == self.width,
    {
        self.width
    }

    /// The height of the frames.
    pub fn height(&self) -> (r: u32)
        ensures
            r == self.height,
    {
        self.height
    }
}

/// How collecting begins: with an output that was taken before, else with one
/// that was announced before, else with a poll.
pub open spec fn collect_begun(
    a: EncoderView,
    b: EncoderView,
    r: Result<CollectStep, MftEncoderError>,
    timeout_ms: Option<u32>,
) -> bool {
    match r {
        Err(e) => !a.is_async && b == a && e@ == MftErrorView::Encode(
            "submit/collect only for async MFT; use encode() for sync"@,
        ),
        Ok(CollectStep::Ready(out)) => a.is_async && a.pending_outputs.len() > 0 && output_view(out)
            == handed(a.pending_outputs[0]) && b == EncoderView {
            pending_outputs: a.pending_outputs.drop_first(),
            ..a
        },
        Ok(CollectStep::ProcessOutput) => a.is_async && a.pending_outputs.len() == 0
            && event_in_buffer(a, ME_TRANSFORM_HAVE_OUTPUT) && b == event_taken(
            a,
            ME_TRANSFORM_HAVE_OUTPUT,
        ),
        Ok(CollectStep::Poll { target_type, timeout_ms: t }) => a.is_async
            && a.pending_outputs.len() == 0 && !event_in_buffer(a, ME_TRANSFORM_HAVE_OUTPUT) && b
            == a && target_type == ME_TRANSFORM_HAVE_OUTPUT && t == timeout_ms,
    }
}

/// Adds one output of a synchronous transform; `false` once there are no more.
pub fn drain_output(frames: &mut Vec<EncodedFrame>, result: OutputResult) -> (r: Result<
    bool,
    MftEncoderError,
>)
    ensures
        match (result, r) {
            (OutputResult::Frame(frame), Ok(more)) => more && final(frames)@
                == old(frames)@.push(frame),
            (OutputResult::Nothing, Ok(more)) => !more && final(frames)@ == old(frames)@,
            (OutputResult::Failed(e), Err(err)) => final(frames)@ == old(frames)@ && err@
                == MftErrorView::Encode("ProcessOutput failed: "@ + e@),
            _ => false,
        },
{
    match result {
        OutputResult::Frame(frame) => {
            frames.push(frame);
            Ok(true)
        },
        OutputResult::Nothing => Ok(false),
        OutputResult::Failed(e) => Err(encode_error("ProcessOutput failed: ", e.as_str())),
    }
}

/// What a frame is submitted with and its output is to carry: the RTP time stamp, the
/// capture time, and whether a key frame was asked for.
pub type Tag = (u32, i64, bool);

/// The tag of a submission.
pub open spec fn job_tag(job: SubmitJob) -> Tag {
    (job.rtp_ts, job.capture_us, job.key_frame)
}

/// The tag of an output.
pub open spec fn output_tag(out: PendingOutput) -> Tag {
    (out.rtp_ts, out.capture_us, out.frame.key_frame)
}

/// The tags of the frames that were submitted and not handed out yet, in the order in
/// which they are handed out.
pub open spec fn uncollected(a: EncoderView) -> Seq<Tag> {
    a.pending_outputs.map_values(|p: PendingOutput| output_tag(p)) + a.meta_queue.map_values(
        |m: FrameMeta| (m.rtp_ts, m.capture_us, m.requested_key_frame),
    )
}

/// Submissions keep the order of frames: a step leaves the queue of uncollected
/// frames as it was, but for the step that gets the frame accepted, which puts
/// it at the end. (An output is taken only while a frame is in flight.)
pub proof fn submitting_keeps_order(a: EncoderView, job: SubmitJob, ev: SubmitEvent)
    requires
        answers(job.stage, ev),
        output_in_flight(a, ev),
    ensures
        ({
            let (b, j, action) = submit_next(a, job, ev);
            &&& job_tag(j) == job_tag(job)
            &&& uncollected(b) == if action is Submitted {
                uncollected(a).push(job_tag(job))
            } else {
                uncollected(a)
            }
        }),
{
    let (b, j, action) = submit_next(a, job, ev);
    if action is Submitted {
        assert(uncollected(b) =~= uncollected(a).push(job_tag(job)));
    } else {
        assert(uncollected(b) =~= uncollected(a));
    }
}

/// An output that a submission takes comes while a frame is in flight.
pub open spec fn output_in_flight(a: EncoderView, ev: SubmitEvent) -> bool {
    match ev {
        SubmitEvent::Output { output: OutputResult::Frame(_), .. } => a.meta_queue.len() > 0,
        _ => true,
    }
}

/// Collecting gives the frames back in the order in which they were submitted:
/// what is handed out carries the tag of the oldest uncollected frame.
pub proof fn collecting_keeps_order(a: EncoderView, frame: EncodedFrame, now: u64)
    requires
        uncollected(a).len() > 0,
    ensures
        a.pending_outputs.len() > 0 ==> {
            let b = EncoderView { pending_outputs: a.pending_outputs.drop_first(), ..a };
            output_tag(a.pending_outputs[0]) == uncollected(a)[0] && uncollected(b) == uncollected(
                a,
            ).drop_first()
        },
        a.pending_outputs.len() == 0 ==> {
            let b = oldest_done(a);
            output_tag(tagged(frame, oldest_meta(a, now), now)) == uncollected(a)[0]
                && uncollected(b) == uncollected(a).drop_first()
        },
{
    if a.pending_outputs.len() > 0 {
        let b = EncoderView { pending_outputs: a.pending_outputs.drop_first(), ..a };
        assert(uncollected(b) =~= uncollected(a).drop_first());
    } else {
        assert(uncollected(oldest_done(a)) =~= uncollected(a).drop_first());
    }
}

/// What a whole submission comes to, given what came of its actions: the encoder, and
/// whether the frame was accepted.
pub open spec fn submission(a: EncoderView, job: SubmitJob, events: Seq<SubmitEvent>) -> (
    EncoderView,
    bool,
)
    decreases events.len(),
{
    if events.len() == 0 {
        (a, false)
    } else {
        let (b, j, action) = submit_next(a, job, events[0]);
        match action {
            ActionView::Submitted => (b, true),
            ActionView::Failed(_) => (b, false),
            _ => submission(b, j, events.drop_first()),
        }
    }
}

/// The events answer the actions of a submission, and its outputs come while a frame
/// is in flight.
pub open spec fn submission_possible(a: EncoderView, job: SubmitJob, events: Seq<SubmitEvent>) -> bool
    decreases events.len(),
{
    events.len() > 0 ==> {
        let (b, j, action) = submit_next(a, job, events[0]);
        &&& answers(job.stage, events[0])
        &&& output_in_flight(a, events[0])
        &&& action is Submitted || action is Failed || submission_possible(
            b,
            j,
            events.drop_first(),
        )
    }
}

/// What came of taking an output, and the encoder after that.
pub open spec fn output_taken(a: EncoderView, result: OutputResult, now: u64) -> (
    EncoderView,
    Option<OutputView>,
) {
    match result {
        OutputResult::Frame(frame) => (
            oldest_done(a),
            Some(handed(tagged(frame, oldest_meta(a, now), now))),
        ),
        _ => (a, None),
    }
}

/// What collecting an output comes to: the encoder, and the output where there is
/// one. `events` are those of the poll and `result` is what came of taking an output,
/// where either is needed.
pub open spec fn collected(
    a: EncoderView,
    events: PolledEvents,
    result: OutputResult,
    now: u64,
) -> (EncoderView, Option<OutputView>) {
    if a.pending_outputs.len() > 0 {
        (
            EncoderView { pending_outputs: a.pending_outputs.drop_first(), ..a },
            Some(handed(a.pending_outputs[0])),
        )
    } else if event_in_buffer(a, ME_TRANSFORM_HAVE_OUTPUT) {
        output_taken(event_taken(a, ME_TRANSFORM_HAVE_OUTPUT), result, now)
    } else if events.found {
        output_taken(events_buffered(a, events), result, now)
    } else {
        (events_buffered(a, events), None)
    }
}

/// The functions that collect an output, called as they ask for it, come to what is
/// collected.
pub proof fn collecting_in_steps(
    a: EncoderView,
    b: EncoderView,
    r: Result<CollectStep, MftEncoderError>,
    timeout_ms: Option<u32>,
    events: PolledEvents,
    result: OutputResult,
    now: u64,
)
    requires
        collect_begun(a, b, r, timeout_ms),
        r is Ok,
    ensures
        collected(a, events, result, now) == match r->Ok_0 {
            CollectStep::Ready(out) => (b, Some(output_view(out))),
            CollectStep::ProcessOutput => output_taken(b, result, now),
            CollectStep::Poll { .. } => if events.found {
                output_taken(events_buffered(b, events), result, now)
            } else {
                (events_buffered(b, events), None)
            },
        },
{
}

/// A call on an encoder that works asynchronously, with what the transform did.
pub ghost enum EncoderCall {
    Submit { job: SubmitJob, events: Seq<SubmitEvent> },
    Collect { events: PolledEvents, result: OutputResult, now: u64 },
}

/// An encoder after calls, the tags of the frames that were accepted by them, and the
/// outputs that they handed out, each in order.
pub ghost struct EncoderRun {
    pub state: EncoderView,
    pub accepted: Seq<Tag>,
    pub handed_out: Seq<OutputView>,
}

/// The tag that an output carries.
pub open spec fn carried(out: OutputView) -> Tag {
    (out.1, out.2, out.0[0].key_frame)
}

/// The tags that outputs carry.
pub open spec fn carried_tags(outs: Seq<OutputView>) -> Seq<Tag> {
    outs.map_values(|out: OutputView| carried(out))
}

/// Every output holds one frame, and the tags of what was handed out and of what was
/// not yet are those of the accepted frames.
pub open spec fn in_order(r: EncoderRun) -> bool {
    &&& forall|k: int| 0 <= k < r.handed_out.len() ==> (#[trigger] r.handed_out[k]).0.len() == 1
    &&& carried_tags(r.handed_out) + uncollected(r.state) == r.accepted
}

/// One more call. A submission that failed adds nothing to the accepted frames.
pub open spec fn run_call(r: EncoderRun, call: EncoderCall) -> EncoderRun {
    match call {
        EncoderCall::Submit { job, events } => {
            let (state, accepted) = submission(r.state, job, events);
            EncoderRun {
                state,
                accepted: if accepted {
                    r.accepted.push(job_tag(job))
                } else {
                    r.accepted
                },
                ..r
            }
        },
        EncoderCall::Collect { events, result, now } => {
            let (state, out) = collected(r.state, events, result, now);
            EncoderRun {
                state,
                handed_out: match out {
                    Some(out) => r.handed_out.push(out),
                    None => r.handed_out,
                },
                ..r
            }
        },
    }
}

/// The transform gives no output without a frame in flight.
pub open spec fn call_possible(a: EncoderView, call: EncoderCall) -> bool {
    match call {
        EncoderCall::Submit { job, events } => submission_possible(a, job, events),
        EncoderCall::Collect { events, result, now } => {
            collected(a, events, result, now).1 is Some ==> uncollected(a).len() > 0
        },
    }
}

pub open spec fn run_calls(r: EncoderRun, calls: Seq<EncoderCall>) -> EncoderRun
    decreases calls.len(),
{
    if calls.len() == 0 {
        r
    } else {
        run_calls(run_call(r, calls[0]), calls.drop_first())
    }
}

pub open spec fn calls_possible(r: EncoderRun, calls: Seq<EncoderCall>) -> bool
    decreases calls.len(),
{
    calls.len() > 0 ==> call_possible(r.state, calls[0]) && calls_possible(
        run_call(r, calls[0]),
        calls.drop_first(),
    )
}

proof fn submission_keeps_order(a: EncoderView, job: SubmitJob, events: Seq<SubmitEvent>)
    requires
        submission_possible(a, job, events),
    ensures
        ({
            let (b, accepted) = submission(a, job, events);
            uncollected(b) == if accepted {
                uncollected(a).push(job_tag(job))
            } else {
                uncollected(a)
            }
        }),
    decreases events.len(),
{
    if events.len() > 0 {
        submitting_keeps_order(a, job, events[0]);
        let (b, j, action) = submit_next(a, job, events[0]);
        if !(action is Submitted || action is Failed) {
            submission_keeps_order(b, j, events.drop_first());
        }
    }
}

proof fn call_keeps_order(r: EncoderRun, call: EncoderCall)
    requires
        call_possible(r.state, call),
        in_order(r),
    ensures
        in_order(run_call(r, call)),
{
    let n = run_call(r, call);
    let u = uncollected(r.state);
    let tags = carried_tags(r.handed_out);
    match call {
        EncoderCall::Submit { job, events } => {
            submission_keeps_order(r.state, job, events);
            let (b, accepted) = submission(r.state, job, events);
            if accepted {
                assert(tags + u.push(job_tag(job)) =~= (tags + u).push(job_tag(job)));
            }
        },
        EncoderCall::Collect { events, result, now } => {
            let (b, out) = collected(r.state, events, result, now);
            if out is Some {
                match result {
                    OutputResult::Frame(frame) => {
                        let c = if event_in_buffer(r.state, ME_TRANSFORM_HAVE_OUTPUT) {
                            event_taken(r.state, ME_TRANSFORM_HAVE_OUTPUT)
                        } else {
                            events_buffered(r.state, events)
                        };
                        assert(uncollected(c) =~= u);
                        collecting_keeps_order(r.state, frame, now);
                        collecting_keeps_order(c, frame, now);
                    },
                    _ => {
                        assert(uncollected(b) =~= u.drop_first());
                    },
                }
                assert(carried_tags(n.handed_out) =~= tags.push(u[0]));
                assert(tags.push(u[0]) + u.drop_first() =~= tags + u);
            } else {
                assert(uncollected(b) =~= u);
            }
        },
    }
}

proof fn calls_keep_order(r: EncoderRun, calls: Seq<EncoderCall>)
    requires
        calls_possible(r, calls),
        in_order(r),
    ensures
        in_order(run_calls(r, calls)),
    decreases calls.len(),
{
    if calls.len() > 0 {
        call_keeps_order(r, calls[0]);
        calls_keep_order(run_call(r, calls[0]), calls.drop_first());
    }
}

/// Outputs are handed out in the order of submission, each with what its own frame was
/// submitted with: after any calls on an encoder with nothing in flight, the k-th
/// output holds one frame and carries the RTP time stamp, the capture time and the wish
/// for a key frame of the k-th frame that was accepted. Submissions that failed do not
/// count.
pub proof fn outputs_carry_their_inputs(a: EncoderView, calls: Seq<EncoderCall>)
    requires
        a.meta_queue.len() == 0,
        a.pending_outputs.len() == 0,
        calls_possible(
            (EncoderRun { state: a, accepted: Seq::empty(), handed_out: Seq::empty() }),
            calls,
        ),
    ensures
        ({
            let n = run_calls(
                EncoderRun { state: a, accepted: Seq::empty(), handed_out: Seq::empty() },
                calls,
            );
            &&& in_order(n)
            &&& n.handed_out.len() <= n.accepted.len()
            &&& forall|k: int|
                0 <= k < n.handed_out.len() ==> {
                    let out = #[trigger] n.handed_out[k];
                    out.0.len() == 1 && (out.1, out.2, out.0[0].key_frame) == n.accepted[k]
                }
        }),
{
    let r = EncoderRun { state: a, accepted: Seq::empty(), handed_out: Seq::empty() };
    assert(carried_tags(r.handed_out) + uncollected(r.state) =~= r.accepted);
    calls_keep_order(r, calls);
    let n = run_calls(r, calls);
    assert forall|k: int| 0 <= k < n.handed_out.len() implies {
        let out = #[trigger] n.handed_out[k];
        out.0.len() == 1 && (out.1, out.2, out.0[0].key_frame) == n.accepted[k]
    } by {
        let tags = carried_tags(n.handed_out);
        assert((tags + uncollected(n.state))[k] == tags[k]);
    }
}

/// How far a submission has come.
pub open spec fn stage_rank(s: SubmitStage) -> int {
    match s {
        SubmitStage::Initial => 0,
        SubmitStage::AwaitNeedInput => 1,
        SubmitStage::AfterNeedInput => 2,
        SubmitStage::AwaitHaveOutput => 3,
        SubmitStage::Draining => 4,
        SubmitStage::AfterDrain => 5,
        SubmitStage::Over => 6,
    }
}

/// Every step brings a submission forward, so it is over after six at most; it
/// ends exactly when the frame was accepted or the submission failed; and a
/// submission that fails puts nothing in flight.
pub proof fn submission_goes_forward(a: EncoderView, job: SubmitJob, ev: SubmitEvent)
    requires
        answers(job.stage, ev),
    ensures
        ({
            let (b, j, action) = submit_next(a, job, ev);
            &&& stage_rank(j.stage) > stage_rank(job.stage)
            &&& (j.stage is Over) == (action is Submitted || action is Failed)
            &&& action is Failed ==> b.meta_queue == a.meta_queue && b.frame_count == a.frame_count
            &&& action is Submitted ==> b.meta_queue.len() == a.meta_queue.len() + 1
        }),
{
}

/// No event is lost while it is put aside, as long as the counters have room:
/// what was seen and not awaited can be taken that many times.
pub proof fn buffered_events_are_kept(a: EncoderView, e: PolledEvents)
    requires
        a.need_input_buffered + e.need_input <= u32::MAX,
        a.have_output_buffered + e.have_output <= u32::MAX,
    ensures
        events_buffered(a, e).need_input_buffered == a.need_input_buffered + e.need_input,
        events_buffered(a, e).have_output_buffered == a.have_output_buffered + e.have_output,
        e.need_input > 0 ==> event_in_buffer(events_buffered(a, e), ME_TRANSFORM_NEED_INPUT),
        e.have_output > 0 ==> event_in_buffer(events_buffered(a, e), ME_TRANSFORM_HAVE_OUTPUT),
{
}

} // verus!
