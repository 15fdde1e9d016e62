//! Where the time of a frame goes on the GPU: time stamps per stage, a ring of
//! recent frames, averages, and an export as JSON.
use vstd::prelude::*;

use crate::text;

verus! {

/// The time that a frame has at sixty frames a second, in microseconds.
pub const FRAME_BUDGET_US: u64 = 16_666;

/// Ticks per second where nothing else is known.
pub const DEFAULT_FREQUENCY: u64 = 1_000_000_000;

/// The stages of a frame.
#[derive(Debug, Clone, Copy, PartialEq, Eq, Structural)]
pub enum GpuStage {
    CaptureStart,
    CopyDone,
    ConvertDone,
    EncodeSubmit,
    EncodeDone,
}

impl GpuStage {
    /// The stage's name.
    pub fn name(&self) -> (r: &'static str)
        ensures
            r@ == match *self {
                GpuStage::CaptureStart => "capture"@,
                GpuStage::CopyDone => "copy"@,
                GpuStage::ConvertDone => "convert"@,
                GpuStage::EncodeSubmit => "encode_submit"@,
                GpuStage::EncodeDone => "encode_done"@,
            },
    {
        match self {
            GpuStage::CaptureStart => "capture",
            GpuStage::CopyDone => "copy",
            GpuStage::ConvertDone => "convert",
            GpuStage::EncodeSubmit => "encode_submit",
            GpuStage::EncodeDone => "encode_done",
        }
    }

    /// The stage's colour in a timeline, as ARGB.
    pub fn pix_color(&self) -> (r: u32)
        ensures
            r == match *self {
                GpuStage::CaptureStart => 0xff80_80ffu32,
                GpuStage::CopyDone => 0xffff_80ffu32,
                GpuStage::ConvertDone => 0xff80_ff80u32,
                GpuStage::EncodeSubmit => 0xffff_4080u32,
                GpuStage::EncodeDone => 0xffff_8040u32,
            },
    {
        match self {
            GpuStage::CaptureStart => 0xff80_80ff,
            GpuStage::CopyDone => 0xffff_80ff,
            GpuStage::ConvertDone => 0xff80_ff80,
            GpuStage::EncodeSubmit => 0xffff_4080,
            GpuStage::EncodeDone => 0xffff_8040,
        }
    }
}

/// The time stamp of each stage, in nanoseconds.
#[derive(Debug, Clone, Copy, PartialEq, Eq, Structural)]
pub struct GpuTimestamps {
    pub capture_start: u64,
    pub copy_done: u64,
    pub convert_done: u64,
    pub encode_submit: u64,
    pub encode_done: u64,
}

impl GpuTimestamps {
    /// The time stamp of a stage.
    pub open spec fn of(self, stage: GpuStage) -> u64 {
        match stage {
            GpuStage::CaptureStart => self.capture_start,
            GpuStage::CopyDone => self.copy_done,
            GpuStage::ConvertDone => self.convert_done,
            GpuStage::EncodeSubmit => self.encode_submit,
            GpuStage::EncodeDone => self.encode_done,
        }
    }

    /// The time between two stages in microseconds; zero where the second is not
    /// later.
    pub open spec fn between(self, from: GpuStage, to: GpuStage) -> int {
        if self.of(to) > self.of(from) {
            (self.of(to) - self.of(from)) / 1000
        } else {
            0
        }
    }

    fn timestamp(&self, stage: GpuStage) -> (r: u64)
        ensures
            r == self.of(stage),
    {
        match stage {
            GpuStage::CaptureStart => self.capture_start,
            GpuStage::CopyDone => self.copy_done,
            GpuStage::ConvertDone => self.convert_done,
            GpuStage::EncodeSubmit => self.encode_submit,
            GpuStage::EncodeDone => self.encode_done,
        }
    }

    /// The time between two stages in microseconds.
    pub fn stage_us(&self, from: GpuStage, to: GpuStage) -> (r: u64)
        ensures
            r == self.between(from, to),
    {
        let from_ts: u64 = self.timestamp(from);
        let to_ts: u64 = self.timestamp(to);
        if to_ts > from_ts {
            (to_ts - from_ts) / 1000
        } else {
            0
        }
    }
}

/// What the steps of a frame took on the CPU's clock, in microseconds.
#[derive(Debug, Clone, Copy, PartialEq, Eq, Structural)]
pub struct GpuTiming {
    pub ctx_wait_us: u64,
    pub submit_us: u64,
    pub copy_us: u64,
    pub blt_dispatch_us: u64,
    pub encode_us: u64,
}

/// Nothing took any time.
pub open spec fn no_timing() -> GpuTiming {
    GpuTiming { ctx_wait_us: 0, submit_us: 0, copy_us: 0, blt_dispatch_us: 0, encode_us: 0 }
}

impl GpuTiming {
    /// Nothing took any time.
    pub fn zero() -> (r: GpuTiming)
        ensures
            r == no_timing(),
    {
        GpuTiming { ctx_wait_us: 0, submit_us: 0, copy_us: 0, blt_dispatch_us: 0, encode_us: 0 }
    }

    /// The time from waiting for the context to the end of the submission.
    pub fn total_latency_us(&self) -> (r: u64)
        requires
            self.ctx_wait_us + self.submit_us <= u64::MAX,
        ensures
            r == self.ctx_wait_us + self.submit_us,
    {
        self.ctx_wait_us + self.submit_us
    }
}

/// One frame of the timeline.
#[derive(Debug, Clone, Copy, PartialEq, Eq, Structural)]
pub struct GpuTimelineEntry {
    pub frame: u64,
    pub wall_us: i64,
    pub timestamps: GpuTimestamps,
    pub timing: GpuTiming,
    /// How much of a frame's time budget the encoder was busy, in microseconds.
    pub gpu_busy_us: u64,
}

/// How much of a frame's time budget the encoder was busy.
pub open spec fn busy_us(t: GpuTiming) -> u64 {
    if t.encode_us < FRAME_BUDGET_US {
        t.encode_us
    } else {
        FRAME_BUDGET_US
    }
}

/// The recent frames, in a ring.
#[derive(Debug)]
pub struct GpuTimeline {
    pub entries: Vec<GpuTimelineEntry>,
    pub cursor: usize,
    pub capacity: usize,
    pub timestamp_freq: u64,
    /// Markers that were set for a PIX session, where one is open.
    pub pix_markers: Option<u64>,
    pub nsight_active: bool,
}

/// `s` without its first entries, so that at most `n` are left.
pub open spec fn last_of<T>(s: Seq<T>, n: int) -> Seq<T> {
    if s.len() <= n {
        s
    } else {
        s.skip(s.len() - n)
    }
}

proof fn residues_differ(a: int, b: int, m: int)
    requires
        m > 0,
        0 <= a < b,
        b - a < m,
    ensures
        a % m != b % m,
{
    vstd::arithmetic::div_mod::lemma_fundamental_div_mod(a, m);
    vstd::arithmetic::div_mod::lemma_fundamental_div_mod(b, m);
    let (qa, qb) = (a / m, b / m);
    if a % m == b % m {
        assert(b - a == m * qb - m * qa);
        assert(m * qb - m * qa == m * (qb - qa)) by (nonlinear_arith);
        assert(qb - qa > 0) by (nonlinear_arith)
            requires
                m * (qb - qa) > 0,
                m > 0,
        ;
        assert(m * (qb - qa) >= m) by (nonlinear_arith)
            requires
                qb - qa > 0,
                m > 0,
        ;
    }
}

/// The sums of the timings of frames.
pub open spec fn timing_sums(s: Seq<GpuTimelineEntry>) -> (int, int, int, int, int)
    decreases s.len(),
{
    if s.len() == 0 {
        (0, 0, 0, 0, 0)
    } else {
        let (a, b, c, d, e) = timing_sums(s.drop_last());
        let t = s.last().timing;
        (
            a + t.ctx_wait_us,
            b + t.submit_us,
            c + t.copy_us,
            d + t.blt_dispatch_us,
            e + t.encode_us,
        )
    }
}

/// Every sum of the timings fits in 64 bits.
pub open spec fn sums_fit(s: Seq<GpuTimelineEntry>) -> bool {
    let (a, b, c, d, e) = timing_sums(s);
    a <= u64::MAX && b <= u64::MAX && c <= u64::MAX && d <= u64::MAX && e <= u64::MAX
}

proof fn sums_grow(s: Seq<GpuTimelineEntry>, n: int)
    requires
        0 <= n <= s.len(),
        sums_fit(s),
    ensures
        sums_fit(s.take(n)),
    decreases s.len() - n,
{
    if n < s.len() {
        sums_grow(s, n + 1);
        assert(s.take(n + 1).drop_last() =~= s.take(n));
    } else {
        assert(s.take(n) =~= s);
    }
}

/// A stage of a frame in the export.
pub open spec fn stage_json(name: Seq<char>, us: int) -> Seq<char> {
    "{\"name\":\""@ + name + "\",\"gpu_us\":"@ + text::decimal(us as nat) + "}"@
}

/// A frame in the export.
pub open spec fn frame_json(e: GpuTimelineEntry) -> Seq<char> {
    let t = e.timestamps;
    "{\"frame\":"@ + text::decimal(e.frame as nat) + ",\"stages\":["@ + stage_json(
        "capture"@,
        t.between(GpuStage::CaptureStart, GpuStage::CopyDone),
    ) + ","@ + stage_json("copy"@, t.between(GpuStage::CopyDone, GpuStage::ConvertDone)) + ","@
        + stage_json("convert"@, t.between(GpuStage::ConvertDone, GpuStage::EncodeSubmit)) + ","@
        + stage_json("encode"@, t.between(GpuStage::EncodeSubmit, GpuStage::EncodeDone)) + "]}"@
}

/// Frames in the export, with a comma between neighbours.
pub open spec fn frames_json(s: Seq<GpuTimelineEntry>) -> Seq<char>
    decreases s.len(),
{
    if s.len() == 0 {
        Seq::empty()
    } else if s.len() == 1 {
        frame_json(s[0])
    } else {
        frames_json(s.drop_last()) + ","@ + frame_json(s.last())
    }
}

fn push_stage(out: &mut String, name: &str, us: u64)
    ensures
        final(out)@ == old(out)@ + stage_json(name@, us as int),
{
    out.push_str("{\"name\":\"");
    out.push_str(name);
    out.push_str("\",\"gpu_us\":");
    text::push_decimal(out, us);
    out.push_str("}");
    assert(out@ =~= old(out)@ + stage_json(name@, us as int));
}

fn push_frame(out: &mut String, e: &GpuTimelineEntry)
    ensures
        final(out)@ == old(out)@ + frame_json(*e),
{
    let t = &e.timestamps;
    out.push_str("{\"frame\":");
    text::push_decimal(out, e.frame);
    out.push_str(",\"stages\":[");
    push_stage(out, "capture", t.stage_us(GpuStage::CaptureStart, GpuStage::CopyDone));
    out.push_str(",");
    push_stage(out, "copy", t.stage_us(GpuStage::CopyDone, GpuStage::ConvertDone));
    out.push_str(",");
    push_stage(out, "convert", t.stage_us(GpuStage::ConvertDone, GpuStage::EncodeSubmit));
    out.push_str(",");
    push_stage(out, "encode", t.stage_us(GpuStage::EncodeSubmit, GpuStage::EncodeDone));
    out.push_str("]}");
    assert(out@ =~= old(out)@ + frame_json(*e));
}

impl GpuTimeline {
    /// The ring has its size.
    pub open spec fn well_formed(self) -> bool {
        self.entries@.len() == self.capacity
    }

    /// How many frames the ring holds.
    pub open spec fn held(self) -> int {
        if self.cursor < self.capacity {
            self.cursor as int
        } else {
            self.capacity as int
        }
    }

    /// The frames that the ring holds, oldest first.
    pub open spec fn recorded(self) -> Seq<GpuTimelineEntry> {
        Seq::new(
            self.held() as nat,
            |i: int| self.entries@[(self.cursor - self.held() + i) % (self.capacity as int)],
        )
    }

    /// A timeline that holds the given number of frames. One that holds none can
    /// be read, but no frame can be recorded in it.
    pub fn new(capacity: usize) -> (r: GpuTimeline)
        ensures
            r.well_formed(),
            r.capacity == capacity,
            r.recorded() == Seq::<GpuTimelineEntry>::empty(),
            r.cursor == 0,
            r.timestamp_freq == DEFAULT_FREQUENCY,
            r.pix_markers is None,
            !r.nsight_active,
    {
        let blank = GpuTimelineEntry {
            frame: 0,
            wall_us: 0,
            timestamps: GpuTimestamps {
                capture_start: 0,
                copy_done: 0,
                convert_done: 0,
                encode_submit: 0,
                encode_done: 0,
            },
            timing: GpuTiming::zero(),
            gpu_busy_us: 0,
        };
        let r = GpuTimeline {
            entries: vec![blank; capacity],
            cursor: 0,
            capacity,
            timestamp_freq: DEFAULT_FREQUENCY,
            pix_markers: None,
            nsight_active: false,
        };
        assert(r.recorded() =~= Seq::<GpuTimelineEntry>::empty());
        r
    }

    /// Opens a PIX session.
    pub fn init_pix(&mut self)
        requires
            old(self).well_formed(),
        ensures
            final(self).well_formed(),
            final(self).pix_markers == Some(0u64),
            final(self).capacity == old(self).capacity,
            final(self).cursor == old(self).cursor,
            final(self).recorded() == old(self).recorded(),
            final(self).timestamp_freq == old(self).timestamp_freq,
            final(self).nsight_active == old(self).nsight_active,
    {
        self.pix_markers = Some(0);
        assert(self.recorded() =~= old(self).recorded());
    }

    /// Opens an Nsight session.
    pub fn init_nsight(&mut self)
        requires
            old(self).well_formed(),
        ensures
            final(self).well_formed(),
            final(self).nsight_active,
            final(self).capacity == old(self).capacity,
            final(self).cursor == old(self).cursor,
            final(self).recorded() == old(self).recorded(),
            final(self).timestamp_freq == old(self).timestamp_freq,
            final(self).pix_markers == old(self).pix_markers,
    {
        self.nsight_active = true;
        assert(self.recorded() =~= old(self).recorded());
    }

    /// Sets the ticks per second of the time stamps.
    pub fn set_timestamp_freq(&mut self, freq: u64)
        requires
            old(self).well_formed(),
        ensures
            final(self).well_formed(),
            final(self).timestamp_freq == freq,
            final(self).capacity == old(self).capacity,
            final(self).cursor == old(self).cursor,
            final(self).recorded() == old(self).recorded(),
            final(self).pix_markers == old(self).pix_markers,
            final(self).nsight_active == old(self).nsight_active,
    {
        self.timestamp_freq = freq;
        assert(self.recorded() =~= old(self).recorded());
    }

    /// Records a frame; the oldest gives way where the ring is full. Where a PIX
    /// session is open, the text of the marker to set.
    pub fn record(
        &mut self,
        frame: u64,
        wall_us: i64,
        timestamps: GpuTimestamps,
        timing: GpuTiming,
    ) -> (marker: Option<String>)
        requires
            old(self).well_formed(),
            old(self).capacity > 0,
            old(self).cursor < usize::MAX,
        ensures
            final(self).well_formed(),
            final(self).capacity == old(self).capacity,
            final(self).cursor == old(self).cursor + 1,
            final(self).timestamp_freq == old(self).timestamp_freq,
            final(self).nsight_active == old(self).nsight_active,
            final(self).recorded() == last_of(
                old(self).recorded().push(
                    GpuTimelineEntry {
                        frame,
                        wall_us,
                        timestamps,
                        timing,
                        gpu_busy_us: busy_us(timing),
                    },
                ),
                old(self).capacity as int,
            ),
            match (old(self).pix_markers, marker) {
                (Some(n), Some(s)) => s@ == "frame_"@ + text::decimal(frame as nat)
                    && final(self).pix_markers == Some(((n + 1) % 0x1_0000_0000_0000_0000) as u64),
                (None, None) => final(self).pix_markers is None,
                _ => false,
            },
    {
        let ghost before = *self;
        let idx: usize = self.cursor % self.capacity;
        let busy: u64 = if timing.encode_us < FRAME_BUDGET_US {
            timing.encode_us
        } else {
            FRAME_BUDGET_US
        };
        let entry = GpuTimelineEntry { frame, wall_us, timestamps, timing, gpu_busy_us: busy };
        self.entries[idx] = entry;
        let mut marker: Option<String> = None;
        if let Some(n) = self.pix_markers {
            self.pix_markers = Some(n.wrapping_add(1));
            let mut s = "frame_".to_owned();
            text::push_decimal(&mut s, frame);
            marker = Some(s);
        }
        self.cursor += 1;
        proof {
            let cap = self.capacity as int;
            let c = before.cursor as int;
            let old_rec = before.recorded();
            let want = last_of(old_rec.push(entry), cap);
            let new_rec = self.recorded();
            assert(new_rec.len() == want.len());
            assert forall|i: int| 0 <= i < new_rec.len() implies new_rec[i] == want[i] by {
                let at = c + 1 - self.held() + i;
                if at == c {
                    assert(new_rec[i] == entry);
                } else {
                    residues_differ(at, c, cap);
                    assert(0 <= at % cap < cap) by {
                        vstd::arithmetic::div_mod::lemma_mod_bound(at, cap);
                    }
                    assert(new_rec[i] == before.entries@[at % cap]);
                    let j = at - (c - before.held());
                    assert(old_rec[j] == before.entries@[at % cap]);
                }
            }
            assert(new_rec =~= want);
        }
        marker
    }

    /// The last frames, at most `count`, oldest first.
    pub fn recent(&self, count: usize) -> (r: Vec<GpuTimelineEntry>)
        requires
            self.well_formed(),
        ensures
            r@ == last_of(self.recorded(), count as int),
    {
        let count: usize = if count < self.capacity {
            count
        } else {
            self.capacity
        };
        let start: usize = self.cursor.saturating_sub(count);
        let mut r: Vec<GpuTimelineEntry> = Vec::new();
        let mut i: usize = start;
        while i < self.cursor
            invariant
                self.well_formed(),
                start <= i <= self.cursor,
                start < self.cursor ==> self.capacity > 0,
                r@.len() == i - start,
                forall|k: int|
                    0 <= k < r@.len() ==> r@[k] == self.entries@[(start + k) % (
                    self.capacity as int)],
            decreases self.cursor - i,
        {
            r.push(self.entries[i % self.capacity]);
            i += 1;
        }
        assert(r@ =~= last_of(self.recorded(), count as int)) by {
            let rec = self.recorded();
            let want = last_of(rec, count as int);
            assert(r@.len() == want.len());
            assert forall|k: int| 0 <= k < r@.len() implies r@[k] == want[k] by {
                let j = start + k - (self.cursor - self.held());
                assert(want[k] == rec[j]);
            }
        }
        r
    }

    /// The mean timing of the last frames, at most `window`; zero of none.
    pub fn average_timing(&self, window: usize) -> (r: GpuTiming)
        requires
            self.well_formed(),
            sums_fit(last_of(self.recorded(), window as int)),
        ensures
            ({
                let s = last_of(self.recorded(), window as int);
                let n = s.len() as int;
                let (a, b, c, d, e) = timing_sums(s);
                r == if n == 0 {
                    no_timing()
                } else {
                    GpuTiming {
                        ctx_wait_us: (a / n) as u64,
                        submit_us: (b / n) as u64,
                        copy_us: (c / n) as u64,
                        blt_dispatch_us: (d / n) as u64,
                        encode_us: (e / n) as u64,
                    }
                }
            }),
    {
        let entries = self.recent(window);
        if entries.len() == 0 {
            return GpuTiming::zero();
        }
        let mut sum = GpuTiming::zero();
        let mut i: usize = 0;
        while i < entries.len()
            invariant
                i <= entries@.len(),
                sums_fit(entries@),
                timing_sums(entries@.take(i as int)) == (
                    sum.ctx_wait_us as int,
                    sum.submit_us as int,
                    sum.copy_us as int,
                    sum.blt_dispatch_us as int,
                    sum.encode_us as int,
                ),
            decreases entries@.len() - i,
        {
            proof {
                sums_grow(entries@, i + 1);
                assert(entries@.take(i + 1).drop_last() =~= entries@.take(i as int));
            }
            let t = entries[i].timing;
            sum = GpuTiming {
                ctx_wait_us: sum.ctx_wait_us + t.ctx_wait_us,
                submit_us: sum.submit_us + t.submit_us,
                copy_us: sum.copy_us + t.copy_us,
                blt_dispatch_us: sum.blt_dispatch_us + t.blt_dispatch_us,
                encode_us: sum.encode_us + t.encode_us,
            };
            i += 1;
        }
        assert(entries@.take(i as int) =~= entries@);
        let n: u64 = entries.len() as u64;
        GpuTiming {
            ctx_wait_us: sum.ctx_wait_us / n,
            submit_us: sum.submit_us / n,
            copy_us: sum.copy_us / n,
            blt_dispatch_us: sum.blt_dispatch_us / n,
            encode_us: sum.encode_us / n,
        }
    }

    /// The last frames as JSON, at most `window`.
    pub fn export_json(&self, window: usize) -> (r: String)
        requires
            self.well_formed(),
        ensures
            r@ == "{\"frames\":["@ + frames_json(last_of(self.recorded(), window as int)) + "]}"@,
    {
        let entries = self.recent(window);
        let mut json = "{\"frames\":[".to_owned();
        let ghost head = json@;
        let mut i: usize = 0;
        assert(json@ =~= head + frames_json(entries@.take(0)));
        while i < entries.len()
            invariant
                i <= entries@.len(),
                json@ == head + frames_json(entries@.take(i as int)),
            decreases entries@.len() - i,
        {
            assert(entries@.take(i + 1).drop_last() =~= entries@.take(i as int));
            if i > 0 {
                json.push_str(",");
            }
            push_frame(&mut json, &entries[i]);
            i += 1;
            assert(json@ =~= head + frames_json(entries@.take(i as int)));
        }
        assert(entries@.take(i as int) =~= entries@);
        json.push_str("]}");
        json
    }

    /// The ticks per second of the time stamps.
    pub fn timestamp_freq(&self) -> (r: u64)
        ensures
            r == self.timestamp_freq,
    {
        self.timestamp_freq
    }
}

/// What is reported of a frame.
pub fn verbose_line(frame: u64, t: &GpuTimestamps) -> (r: String)
    ensures
        r@ == "[gpu_timeline] frame "@ + text::decimal(frame as nat) + ": capture="@
            + text::decimal(t.between(GpuStage::CaptureStart, GpuStage::CopyDone) as nat)
            + "us copy="@ + text::decimal(
            t.between(GpuStage::CopyDone, GpuStage::ConvertDone) as nat,
        ) + "us convert="@ + text::decimal(
            t.between(GpuStage::ConvertDone, GpuStage::EncodeSubmit) as nat,
        ) + "us encode="@ + text::decimal(
            t.between(GpuStage::EncodeSubmit, GpuStage::EncodeDone) as nat,
        ) + "us"@,
{
    let mut r = "[gpu_timeline] frame ".to_owned();
    text::push_decimal(&mut r, frame);
    r.push_str(": capture=");
    text::push_decimal(&mut r, t.stage_us(GpuStage::CaptureStart, GpuStage::CopyDone));
    r.push_str("us copy=");
    text::push_decimal(&mut r, t.stage_us(GpuStage::CopyDone, GpuStage::ConvertDone));
    r.push_str("us convert=");
    text::push_decimal(&mut r, t.stage_us(GpuStage::ConvertDone, GpuStage::EncodeSubmit));
    r.push_str("us encode=");
    text::push_decimal(&mut r, t.stage_us(GpuStage::EncodeSubmit, GpuStage::EncodeDone));
    r.push_str("us");
    r
}

/// The time stamp queries of a frame.
#[derive(Debug, Clone, Copy, PartialEq, Eq, Structural)]
pub struct D3d11TimestampQueries {
    /// There is a query for the frequency.
    pub has_disjoint: bool,
    /// How many stages have a query.
    pub stage_count: usize,
    pub frequency: u64,
}

impl D3d11TimestampQueries {
    /// The queries that could be created: `stages` says of each whether it could.
    pub fn new(has_disjoint: bool, stages: &Vec<bool>) -> (r: D3d11TimestampQueries)
        ensures
            r.has_disjoint == has_disjoint,
            r.stage_count == stages@.filter(|b: bool| b).len(),
            r.frequency == DEFAULT_FREQUENCY,
    {
        let mut n: usize = 0;
        let mut i: usize = 0;
        let ghost yes = |b: bool| b;
        assert(stages@.take(0).filter(yes) =~= Seq::<bool>::empty()) by {
            reveal(Seq::filter);
        }
        while i < stages.len()
            invariant
                i <= stages@.len(),
                n <= i,
                yes == (|b: bool| b),
                n == stages@.take(i as int).filter(yes).len(),
            decreases stages@.len() - i,
        {
            proof {
                reveal(Seq::filter);
                let t = stages@.take(i + 1);
                assert(t.drop_last() =~= stages@.take(i as int));
            }
            if stages[i] {
                n += 1;
            }
            i += 1;
        }
        assert(stages@.take(i as int) =~= stages@);
        D3d11TimestampQueries { has_disjoint, stage_count: n, frequency: DEFAULT_FREQUENCY }
    }

    /// Ends a frame, given what the query for the frequency said where there is
    /// one and it was ready: whether the time stamps are to be discarded, and the
    /// frequency. Whether the time stamps are valid.
    pub fn end(&mut self, data: Option<(bool, u64)>) -> (valid: bool)
        ensures
            match data {
                Some((discard, frequency)) => valid == (old(self).has_disjoint && !discard)
                    && final(self).frequency == if valid {
                    frequency
                } else {
                    old(self).frequency
                },
                None => !valid && final(self).frequency == old(self).frequency,
            },
            final(self).has_disjoint == old(self).has_disjoint,
            final(self).stage_count == old(self).stage_count,
    {
        if self.has_disjoint {
            if let Some((disjoint, frequency)) = data {
                if !disjoint {
                    self.frequency = frequency;
                    return true;
                }
            }
        }
        false
    }

    /// Whether a stage has a query to issue.
    pub fn timestamp(&self, stage_index: usize) -> (r: bool)
        ensures
            r == (stage_index < self.stage_count),
    {
        stage_index < self.stage_count
    }

    /// The raw time stamps, zero for those that are not ready.
    pub fn get_timestamps(&self, ready: &Vec<Option<u64>>) -> (r: Vec<u64>)
        requires
            ready@.len() == self.stage_count,
        ensures
            r@ == ready@.map_values(
                |t: Option<u64>|
                    match t {
                        Some(n) => n,
                        None => 0u64,
                    },
            ),
    {
        let mut r: Vec<u64> = Vec::new();
        let mut i: usize = 0;
        while i < ready.len()
            invariant
                i <= ready@.len(),
                r@.len() == i,
                forall|k: int|
                    0 <= k < i ==> r@[k] == match ready@[k] {
                        Some(n) => n,
                        None => 0u64,
                    },
            decreases ready@.len() - i,
        {
            r.push(
                match ready[i] {
                    Some(n) => n,
                    None => 0,
                },
            );
            i += 1;
        }
        assert(r@ =~= ready@.map_values(
            |t: Option<u64>|
                match t {
                    Some(n) => n,
                    None => 0u64,
                },
        ));
        r
    }

    /// A raw time stamp in nanoseconds; zero where the frequency is.
    pub fn timestamp_to_ns(&self, raw_ts: u64) -> (r: u64)
        requires
            self.frequency > 0 ==> (raw_ts * 1_000_000_000) / (self.frequency as int) <= u64::MAX,
        ensures
            r == if self.frequency > 0 {
                (raw_ts * 1_000_000_000) / (self.frequency as int)
            } else {
                0
            },
    {
        if self.frequency > 0 {
            let ns: u128 = (raw_ts as u128 * 1_000_000_000) / (self.frequency as u128);
            ns as u64
        } else {
            0
        }
    }

    /// The ticks per second.
    pub fn frequency(&self) -> (r: u64)
        ensures
            r == self.frequency,
    {
        self.frequency
    }
}

/// The ticks per second that are assumed of a device.
pub fn get_timestamp_frequency() -> (r: u64)
    ensures
        r == 1_000_000_000,
{
    DEFAULT_FREQUENCY
}

/// Why PIX could not be used.
#[derive(Debug, Clone, PartialEq, Eq)]
pub enum PixError {
    RuntimeNotAvailable(String),
    MarkerFailed(String),
}

impl PixError {
    /// The text of the error.
    pub fn message(&self) -> (r: String)
        ensures
            r@ == match *self {
                PixError::RuntimeNotAvailable(s) => "PIX runtime not available: "@ + s@,
                PixError::MarkerFailed(s) => "PIX marker creation failed: "@ + s@,
            },
    {
        let (mut r, s) = match self {
            PixError::RuntimeNotAvailable(s) => ("PIX runtime not available: ".to_owned(), s),
            PixError::MarkerFailed(s) => ("PIX marker creation failed: ".to_owned(), s),
        };
        r.push_str(s.as_str());
        r
    }
}

/// Why Nsight could not be used.
#[derive(Debug, Clone, PartialEq, Eq)]
pub enum NsightError {
    RuntimeNotAvailable(String),
    SessionFailed(String),
}

impl NsightError {
    /// The text of the error.
    pub fn message(&self) -> (r: String)
        ensures
            r@ == match *self {
                NsightError::RuntimeNotAvailable(s) => "Nsight runtime not available: "@ + s@,
                NsightError::SessionFailed(s) => "Nsight session creation failed: "@ + s@,
            },
    {
        let (mut r, s) = match self {
            NsightError::RuntimeNotAvailable(s) => ("Nsight runtime not available: ".to_owned(), s),
            NsightError::SessionFailed(s) => ("Nsight session creation failed: ".to_owned(), s),
        };
        r.push_str(s.as_str());
        r
    }
}

/// Why a query failed.
#[derive(Debug, Clone, PartialEq, Eq)]
pub enum GpuQueryError {
    CreateFailed(String),
    Timeout,
}

impl GpuQueryError {
    /// The text of the error.
    pub fn message(&self) -> (r: String)
        ensures
            r@ == match *self {
                GpuQueryError::CreateFailed(s) => "Failed to create D3D11 query: "@ + s@,
                GpuQueryError::Timeout => "Query data not available after timeout"@,
            },
    {
        match self {
            GpuQueryError::CreateFailed(s) => {
                let mut r = "Failed to create D3D11 query: ".to_owned();
                r.push_str(s.as_str());
                r
            },
            GpuQueryError::Timeout => "Query data not available after timeout".to_owned(),
        }
    }
}

} // verus!
