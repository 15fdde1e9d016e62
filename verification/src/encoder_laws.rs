//! What holds of every course that submitting, encoding and collecting can take.
use vstd::prelude::*;

use crate::mft_encoder::{
    answers, diag_recorded, encode_answers, encode_next, event_in_buffer, event_taken,
    events_after, output_timeout, submit_next, tagged, ActionView, Attempt,
    EncodeActionView, EncodeEvent, EncodeStage, EncodeView, EncodedFrame, EncoderView, FrameMeta,
    InputResult, MftErrorView, OutputResult, PolledEvents, SubmitDiagWindow, SubmitEvent,
    SubmitJob, SubmitStage,
};

verus! {

/// The encoding of a frame after the events, one after another.
pub open spec fn encoded(a: EncoderView, job: EncodeView, events: Seq<EncodeEvent>) -> (
    EncoderView,
    EncodeView,
)
    decreases events.len(),
{
    if events.len() == 0 {
        (a, job)
    } else {
        let (b, j, _) = encode_next(a, job, events[0]);
        encoded(b, j, events.drop_first())
    }
}

/// The events answer the actions of the encoding.
pub open spec fn all_answered(a: EncoderView, job: EncodeView, events: Seq<EncodeEvent>) -> bool
    decreases events.len(),
{
    events.len() > 0 ==> {
        let (b, j, _) = encode_next(a, job, events[0]);
        encode_answers(job.stage, events[0]) && all_answered(b, j, events.drop_first())
    }
}

/// The frames that came out in the events, in order.
pub open spec fn came_out(events: Seq<EncodeEvent>) -> Seq<EncodedFrame>
    decreases events.len(),
{
    if events.len() == 0 {
        Seq::empty()
    } else {
        let rest = came_out(events.drop_first());
        match events[0] {
            EncodeEvent::Output(OutputResult::Frame(frame)) => seq![frame] + rest,
            _ => rest,
        }
    }
}

proof fn frames_are_those_that_came_out(
    a: EncoderView,
    job: EncodeView,
    events: Seq<EncodeEvent>,
)
    requires
        all_answered(a, job, events),
    ensures
        encoded(a, job, events).1.frames == job.frames + came_out(events).map_values(
            |f: EncodedFrame| EncodedFrame { key_frame: job.key_frame, ..f },
        ),
        encoded(a, job, events).1.key_frame == job.key_frame,
    decreases events.len(),
{
    let mark = |f: EncodedFrame| EncodedFrame { key_frame: job.key_frame, ..f };
    if events.len() > 0 {
        let (b, j, _) = encode_next(a, job, events[0]);
        frames_are_those_that_came_out(b, j, events.drop_first());
        let rest = came_out(events.drop_first());
        match events[0] {
            EncodeEvent::Output(OutputResult::Frame(frame)) => {
                assert((seq![frame] + rest).map_values(mark) =~= seq![mark(frame)]
                    + rest.map_values(mark));
                assert(j.frames =~= job.frames.push(mark(frame)));
                assert(job.frames.push(mark(frame)) + rest.map_values(mark) =~= job.frames + (seq![
                    mark(frame),
                ] + rest.map_values(mark)));
            },
            _ => {
                assert(j.frames =~= job.frames);
            },
        }
    } else {
        assert(job.frames + came_out(events).map_values(mark) =~= job.frames);
    }
}

/// No output is lost while a frame is encoded, and none comes from elsewhere: the frames
/// of the encoding are those that it had, and after them every frame that came out, in
/// order, with its bytes and its time, marked as a key frame where one was asked for.
pub proof fn no_output_is_lost(a: EncoderView, job: EncodeView, events: Seq<EncodeEvent>)
    requires
        all_answered(a, job, events),
    ensures
        ({
            let (b, j) = encoded(a, job, events);
            let out = came_out(events);
            &&& j.frames.len() == job.frames.len() + out.len()
            &&& forall|i: int| #![trigger j.frames[i]]
                0 <= i < job.frames.len() ==> j.frames[i] == job.frames[i]
            &&& forall|i: int| #![trigger out[i]]
                0 <= i < out.len() ==> {
                    let f = j.frames[job.frames.len() + i];
                    &&& f.data == out[i].data
                    &&& f.timestamp_us == out[i].timestamp_us
                    &&& f.key_frame == job.key_frame
                }
            &&& j.key_frame == job.key_frame
        }),
{
    frames_are_those_that_came_out(a, job, events);
}

/// Each step of an encoding leaves the frames that it had in front, and adds one exactly
/// where a frame came out.
pub proof fn steps_add_what_came_out(a: EncoderView, job: EncodeView, ev: EncodeEvent)
    requires
        encode_answers(job.stage, ev),
    ensures
        ({
            let j = encode_next(a, job, ev).1;
            &&& job.frames.len() <= j.frames.len()
            &&& j.frames.take(job.frames.len() as int) == job.frames
            &&& (ev is Output && ev->Output_0 is Frame) ==> j.frames.len() == job.frames.len() + 1
            &&& !(ev is Output && ev->Output_0 is Frame) ==> j.frames == job.frames
        }),
{
    let j = encode_next(a, job, ev).1;
    assert(j.frames.take(job.frames.len() as int) =~= job.frames);
}

/// An encoding counts its frame once, when the input is accepted. It fails exactly where
/// handing over or taking failed, where the input was refused a second time, or where no
/// output came to make room for it; that no output comes after the input was accepted is
/// no failure.
pub proof fn encodings_end_well_or_fail(a: EncoderView, job: EncodeView, ev: EncodeEvent)
    requires
        encode_answers(job.stage, ev),
        a.frame_count < u64::MAX,
    ensures
        ({
            let (b, j, action) = encode_next(a, job, ev);
            let first = job.stage is Initial;
            let room = job.stage is AwaitRoom || job.stage is MakeRoom;
            &&& b.frame_count == a.frame_count + if ev is Input && ev->Input_0 is Accepted {
                1int
            } else {
                0int
            }
            &&& b.meta_queue == a.meta_queue && b.pending_outputs == a.pending_outputs
            &&& (j.stage is Over) == (action is Encoded || action is Failed)
            &&& action is Failed <==> match ev {
                EncodeEvent::Input(InputResult::Accepted) => false,
                EncodeEvent::Input(InputResult::NotAccepting) => !first,
                EncodeEvent::Input(InputResult::Failed(_)) => true,
                EncodeEvent::Polled(e) => !e.found && room,
                EncodeEvent::Output(OutputResult::Frame(_)) => false,
                EncodeEvent::Output(OutputResult::Nothing) => room,
                EncodeEvent::Output(OutputResult::Failed(_)) => true,
            }
            &&& action is Encoded ==> !room && !(ev is Input)
            &&& action is ProcessInput ==> job.stage is MakeRoom
            &&& action is Poll ==> action->target_type == 602 && action->timeout_ms
                == job.timeout_ms && a.have_output_buffered == 0
        }),
{
}

/// An output that was announced before is taken without waiting, and the announcement is
/// used up; none is used up otherwise.
pub proof fn announcements_are_used_once(a: EncoderView, job: EncodeView, ev: EncodeEvent)
    requires
        encode_answers(job.stage, ev),
        ev is Input,
    ensures
        ({
            let (b, j, action) = encode_next(a, job, ev);
            &&& b.need_input_buffered == a.need_input_buffered
            &&& action is ProcessOutput ==> a.have_output_buffered > 0 && b.have_output_buffered
                == a.have_output_buffered - 1
            &&& !(action is ProcessOutput) ==> b.have_output_buffered == a.have_output_buffered
            &&& action is Poll ==> a.have_output_buffered == 0
        }),
{
}

/// The wait for an output: long for the first three frames and for key frames, else as
/// long as two frames take, but from 8 to 40 milliseconds.
pub proof fn waits_follow_the_frame_rate(frame_count: u64, fps: u32, key_frame: bool)
    ensures
        ({
            let t = output_timeout(frame_count, fps, key_frame);
            &&& frame_count < 3 || key_frame ==> t == 120
            &&& !(frame_count < 3 || key_frame) ==> 8 <= t <= 40
            &&& !(frame_count < 3 || key_frame) && 50 <= fps <= 250 ==> t == 2000int / fps as int
            &&& !(frame_count < 3 || key_frame) && fps <= 50 ==> t == 40
            &&& !(frame_count < 3 || key_frame) && fps >= 250 ==> t == 8
        }),
{
    let f = fps as int;
    if f > 0 {
        if f <= 50 {
            assert(2000int / f >= 40) by (nonlinear_arith)
                requires
                    0 < f <= 50,
            ;
        }
        if f >= 250 {
            assert(2000int / f <= 8) by (nonlinear_arith)
                requires
                    f >= 250,
            ;
        }
        if 50 <= f <= 250 {
            assert(8 <= 2000int / f <= 40) by (nonlinear_arith)
                requires
                    50 <= f <= 250,
            ;
        }
    }
}

/// A submission ends with its frame in flight exactly when the input is accepted, at
/// whichever attempt. It is then the last in flight, with what it was submitted with and
/// the time of the acceptance, and one more frame is counted.
pub proof fn accepted_frames_are_in_flight(a: EncoderView, job: SubmitJob, ev: SubmitEvent)
    requires
        answers(job.stage, ev),
        a.frame_count < u64::MAX,
    ensures
        ({
            let (b, j, action) = submit_next(a, job, ev);
            let accepted = ev is Input && ev->result is Accepted;
            &&& action is Submitted <==> accepted
            &&& accepted ==> {
                &&& b.frame_count == a.frame_count + 1
                &&& b.meta_queue.len() == a.meta_queue.len() + 1
                &&& b.meta_queue.last().rtp_ts == job.rtp_ts
                &&& b.meta_queue.last().capture_us == job.capture_us
                &&& b.meta_queue.last().requested_key_frame == job.key_frame
                &&& b.meta_queue.last().submit_time == ev->Input_now_us
                &&& b.meta_queue.drop_last() == a.meta_queue
                &&& b.pending_outputs == a.pending_outputs
            }
            &&& !accepted ==> b.frame_count == a.frame_count && b.submit_diag == a.submit_diag
        }),
{
    let (b, j, action) = submit_next(a, job, ev);
    if action is Submitted {
        assert(b.meta_queue.drop_last() =~= a.meta_queue);
    }
}

/// What a submission does where the input is refused: first it waits to be asked for
/// input, then it takes an output to make room, and then it gives up. An event that was
/// put aside is used in place of a wait, once. That none asks for input in time only
/// leads on to taking an output; that none comes out ends the submission.
pub proof fn refused_submissions_go_on(a: EncoderView, job: SubmitJob, ev: SubmitEvent)
    requires
        answers(job.stage, ev),
    ensures
        ({
            let (b, j, action) = submit_next(a, job, ev);
            &&& ev is Input && ev->result is Failed ==> action is Failed
            &&& job.stage is Initial && ev->result is NotAccepting ==> if a.need_input_buffered
                > 0 {
                action is ProcessInput && b.need_input_buffered == a.need_input_buffered - 1
            } else {
                action == (ActionView::Poll { target_type: 601, timeout_ms: job.timeout_ms })
                    && b.need_input_buffered == 0
            }
            &&& job.stage is AwaitNeedInput && ev->events.found ==> action is ProcessInput
            &&& (job.stage is AfterNeedInput && ev->result is NotAccepting) ==> if
                a.have_output_buffered > 0 {
                action is ProcessOutput && b.have_output_buffered == a.have_output_buffered - 1
            } else {
                action == (ActionView::Poll { target_type: 602, timeout_ms: job.timeout_ms })
            }
            &&& job.stage is AwaitNeedInput && !ev->events.found ==> action is ProcessOutput || (
            action is Poll && action->target_type == 602)
            &&& job.stage is AwaitHaveOutput ==> (action is ProcessOutput <==> ev->events.found)
                && (action is Failed <==> !ev->events.found)
            &&& job.stage is Draining ==> (action is ProcessInput <==> ev->output is Frame) && (
            action is Failed <==> !(ev->output is Frame))
            &&& job.stage is AfterDrain && ev->result is NotAccepting ==> action is Failed
            &&& ev is Output && ev->output is Frame ==> {
                &&& b.pending_outputs.len() == a.pending_outputs.len() + 1
                &&& b.pending_outputs.drop_last() == a.pending_outputs
                &&& b.pending_outputs.last().frame.data == ev->output->Frame_0.data
            }
            &&& !(ev is Output && ev->output is Frame) ==> b.pending_outputs == a.pending_outputs
        }),
{
    let (b, j, action) = submit_next(a, job, ev);
    if b.pending_outputs.len() > a.pending_outputs.len() {
        assert(b.pending_outputs.drop_last() =~= a.pending_outputs);
    }
}

/// Events that were seen while another was awaited are put aside, each kind by itself.
pub proof fn seen_events_are_put_aside(a: EncoderView, job: SubmitJob, ev: SubmitEvent)
    requires
        answers(job.stage, ev),
        ev is Polled,
        ev->events.found,
        a.need_input_buffered + ev->events.need_input <= u32::MAX,
        a.have_output_buffered + ev->events.have_output <= u32::MAX,
    ensures
        ({
            let b = submit_next(a, job, ev).0;
            &&& b.need_input_buffered == a.need_input_buffered + ev->events.need_input
            &&& b.have_output_buffered == a.have_output_buffered + ev->events.have_output
            &&& b.meta_queue == a.meta_queue
        }),
{
}

/// An output is marked with what was noted of its input, and took the time since that was
/// submitted.
pub proof fn outputs_are_marked(frame: EncodedFrame, meta: FrameMeta, now: u64)
    ensures
        ({
            let out = tagged(frame, meta, now);
            &&& out.frame.data == frame.data
            &&& out.frame.timestamp_us == frame.timestamp_us
            &&& out.frame.key_frame == meta.requested_key_frame
            &&& out.rtp_ts == meta.rtp_ts
            &&& out.capture_us == meta.capture_us
            &&& now >= meta.submit_time ==> out.encode_us + meta.submit_time == now
            &&& now < meta.submit_time ==> out.encode_us == 0
        }),
{
}

/// The event that is awaited ends the polling and is not counted; each other one of the
/// two kinds is counted under its own.
pub proof fn polled_events_are_told_apart(e: PolledEvents, event_type: u32, target_type: u32)
    requires
        e.need_input < u32::MAX,
        e.have_output < u32::MAX,
    ensures
        ({
            let f = events_after(e, event_type, target_type);
            &&& f.found <==> e.found || event_type == target_type
            &&& f.need_input == e.need_input + if event_type == 601 && target_type != 601 {
                1int
            } else {
                0int
            }
            &&& f.have_output == e.have_output + if event_type == 602 && target_type != 602 {
                1int
            } else {
                0int
            }
        }),
{
}

/// What the counters of submissions always satisfy: no part was counted more often than
/// the whole that it is part of.
pub open spec fn counters_add_up(d: SubmitDiagWindow) -> bool {
    &&& d.initial_ok + d.initial_not_accepting + d.initial_err <= d.submits
    &&& d.need_wait_found <= d.need_wait_calls <= d.submits
    &&& d.need_wait_buffered <= d.need_wait_calls
    &&& d.after_need_ok + d.after_need_not_accepting <= d.need_wait_found
    &&& d.drain_queued_frame <= d.drain_calls <= d.need_wait_calls
    &&& d.drain_found_output <= d.drain_calls
    &&& d.retry_after_drain_ok <= d.drain_queued_frame
}

/// One more submission is counted once, under how its first attempt went; its times are
/// added; and the counters go on adding up.
pub proof fn submissions_are_counted(
    d: SubmitDiagWindow,
    job: SubmitJob,
    a: EncoderView,
    total_us: u64,
)
    requires
        counters_add_up(d),
        d.submits < u64::MAX,
        d.sample_us_total + job.sample_us <= u64::MAX,
        d.total_submit_us_total + total_us <= u64::MAX,
        d.initial_us_total + job.initial_us <= u64::MAX,
    ensures
        ({
            let e = diag_recorded(d, job, a, total_us);
            &&& counters_add_up(e)
            &&& e.submits == d.submits + 1
            &&& e.initial_ok == d.initial_ok + if job.initial is Accepted {
                1int
            } else {
                0int
            }
            &&& e.initial_not_accepting == d.initial_not_accepting + if job.initial is NotAccepting {
                1int
            } else {
                0int
            }
            &&& e.need_wait_calls == d.need_wait_calls + if job.need_wait_used {
                1int
            } else {
                0int
            }
            &&& e.sample_us_total == d.sample_us_total + job.sample_us
            &&& e.initial_us_total == d.initial_us_total + job.initial_us
            &&& e.total_submit_us_total == d.total_submit_us_total + total_us
            &&& !job.need_wait_used ==> e.drain_calls == d.drain_calls && e.need_wait_us_total
                == d.need_wait_us_total && e.retry_after_drain_ok == d.retry_after_drain_ok
            &&& job.need_wait_used && job.after_need is Accepted ==> e.drain_calls == d.drain_calls
            &&& job.need_wait_used && !(job.after_need is Accepted) ==> e.drain_calls
                == d.drain_calls + 1
        }),
{
}

} // verus!
