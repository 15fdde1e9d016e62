//! What holds of setting up encoders, of capturing, and of measuring, for every input.
use vstd::prelude::*;

use crate::d3d11::{gpu_texture, groups_over, staging_texture};
use crate::encoded_h264::{
    call_follows, config_after, falls_back, Call, CallEvent, EncodedBackendConfig,
    EncodedH264EncoderError, Operation,
};
use crate::gpu_timeline::{busy_us, last_of, timing_sums, GpuStage, GpuTimelineEntry, GpuTimestamps, GpuTiming};
use crate::mft_encoder::EncodedFrame;
use crate::mft_setup::{
    gop_seconds, packed, switched_off, type_next, StreamEnd, TypeEvent, TypeStage,
};
use crate::minimal_dxgi_process::{
    counted, empty_stats, monitor_asked, outputs_before, source_monitor, CaptureTick, WindowStats,
};
use crate::probe::{
    as_signed, at_least_one, byte_count, default_args, drain_limit, drained, encode_answers,
    encode_next, flag_named, key_frames, parsed_from, recorded, stats_of, total, with_value,
    ArgsView, EncodeAction, EncodeEvent, EncodeStage, EncodeSummary, Flag, FrameEncode, Metric,
    StopView,
};
use crate::start_laws;
use crate::text;

verus! {

/// An attribute of two numbers has the first in its upper half and the second in its lower.
pub proof fn attributes_hold_two_numbers(high: u32, low: u32)
    ensures
        packed(high, low) / 0x1_0000_0000 == high,
        packed(high, low) % 0x1_0000_0000 == low,
{
}

/// Group headers come at least every second, and every twelve seconds where nothing is
/// asked for or what is asked for is no number.
pub proof fn group_headers_come_in_time(n: u32, s: Seq<char>)
    ensures
        n >= 1 ==> gop_seconds(Some(text::decimal(n as nat))) == n,
        gop_seconds(Some(text::decimal(0))) == 1,
        gop_seconds(None) == 12,
        text::parsed_unsigned(s, u32::MAX as nat) is None ==> gop_seconds(Some(s)) == 12,
        gop_seconds(Some(s)) >= 1,
{
    text::decimal_reads_back(n as nat, u32::MAX as nat);
    text::decimal_reads_back(0, u32::MAX as nat);
}

/// Something is switched off by `0` and `false` in any case of the letters, and by nothing
/// else; it stays on where nothing is said.
pub proof fn switching_off(s: Seq<char>)
    ensures
        switched_off(Some("0"@)),
        switched_off(Some("false"@)),
        switched_off(Some("FALSE"@)),
        !switched_off(Some("1"@)),
        !switched_off(Some("true"@)),
        !switched_off(None),
        s.len() != 1 && s.len() != 5 ==> !switched_off(Some(s)),
{
    reveal_strlit("0");
    reveal_strlit("1");
    reveal_strlit("true");
    reveal_strlit("false");
    reveal_strlit("FALSE");
    assert("0"@[0] != "1"@[0]);
    assert(text::ascii_lowered("FALSE"@) =~= text::ascii_lowered("false"@));
    assert(text::ascii_lowered("false"@).len() == 5);
    assert(text::ascii_lowered(s).len() == s.len());
    assert(text::ascii_lowered("1"@).len() == 1 && text::ascii_lowered("true"@).len() == 4);
}

/// A type that was accepted is in force. One that does not fit is never set; of those that
/// fit, an output type is first set as it is offered, and an input type with the attributes
/// of the stream. A type of one's own is made once no more are offered, or thirty-two were
/// looked at; only where that is refused too, the negotiation fails.
pub proof fn types_are_tried_in_turn(end: StreamEnd, i: u32, why: String)
    requires
        i < 32,
    ensures
        type_next(end, TypeStage::Query(i), TypeEvent::Exhausted) == TypeStage::SetManual,
        type_next(StreamEnd::Output, TypeStage::Query(i), TypeEvent::Offered(true))
            == TypeStage::SetAsOffered(i),
        type_next(StreamEnd::Input, TypeStage::Query(i), TypeEvent::Offered(true))
            == TypeStage::SetWithAttributes(i),
        type_next(end, TypeStage::Query(i), TypeEvent::Offered(false)) == if i < 31 {
            TypeStage::Query((i + 1) as u32)
        } else {
            TypeStage::SetManual
        },
        type_next(end, TypeStage::SetAsOffered(i), TypeEvent::Accepted) == (TypeStage::Settled {
            attributes_pending: true,
        }),
        type_next(end, TypeStage::SetAsOffered(i), TypeEvent::Rejected(why))
            == TypeStage::SetWithAttributes(i),
        type_next(end, TypeStage::SetWithAttributes(i), TypeEvent::Accepted) == (
        TypeStage::Settled { attributes_pending: false }),
        type_next(end, TypeStage::SetWithAttributes(i), TypeEvent::Rejected(why)) == if i < 31 {
            TypeStage::Query((i + 1) as u32)
        } else {
            TypeStage::SetManual
        },
        type_next(end, TypeStage::SetManual, TypeEvent::Accepted) == (TypeStage::Settled {
            attributes_pending: false,
        }),
        type_next(end, TypeStage::SetManual, TypeEvent::Rejected(why)) is Refused,
{
}

/// A transform takes the place of NVENC only where NVENC failed, for a reason that allows
/// it, once during an operation, and where the encoder may change at all. A failure of a
/// transform is always that of the operation.
pub proof fn transforms_step_in(
    config: EncodedBackendConfig,
    call: Call,
    e: EncodedH264EncoderError,
)
    ensures
        falls_back(config, call, e) ==> e is Nvenc && e->Nvenc_0.fallback
            && config.allow_runtime_mft_fallback && !call.fallback_attempted,
        e is Nvenc && e->Nvenc_0.fallback && config.allow_runtime_mft_fallback
            && !call.fallback_attempted ==> falls_back(config, call, e),
        falls_back(config, call, e) ==> call_follows(
            config,
            call,
            CallEvent::Failed(e),
        ).fallback_attempted && call_follows(config, call, CallEvent::Failed(e)).stage
            is Rebuilding,
        !falls_back(config, call, e) ==> call_follows(
            config,
            call,
            CallEvent::Failed(e),
        ).stage is Over,
{
}

/// A bit rate that was set is the one in force; no other operation changes what the encoder
/// was built for.
pub proof fn bit_rates_come_into_force(config: EncodedBackendConfig, bitrate: u32)
    ensures
        config_after(config, Operation::SetBitrate(bitrate)).bitrate == bitrate,
        config_after(config, Operation::SetBitrate(bitrate)) == (EncodedBackendConfig {
            bitrate,
            ..config
        }),
        config_after(config, Operation::Encode) == config,
        config_after(config, Operation::Submit) == config,
        config_after(config, Operation::Collect) == config,
        config_after(config, Operation::CollectBlocking) == config,
{
}

/// The monitor to capture is the one of the setting of its own, where that is a number; else
/// the one of the shared source; else the first.
pub proof fn monitors_are_asked_for(
    n: usize,
    m: usize,
    source: Option<Seq<char>>,
    no_number: Seq<char>,
)
    ensures
        monitor_asked(Some(text::decimal(n as nat)), source) == n,
        monitor_asked(None, Some(text::decimal(m as nat))) == m,
        monitor_asked(None, Some("monitor"@ + seq![':'] + text::decimal(m as nat))) == m,
        text::parsed_unsigned(no_number, usize::MAX as nat) is None ==> monitor_asked(
            Some(no_number),
            Some(text::decimal(m as nat)),
        ) == m,
        monitor_asked(None, None) == 0,
        source_monitor(text::decimal(m as nat)) == Some(m as nat),
{
    text::decimal_reads_back(n as nat, usize::MAX as nat);
    text::decimal_reads_back(m as nat, usize::MAX as nat);
    start_laws::numbered_monitors(m);
}

/// Every attempt is counted under what came of it: a frame that was acquired, also where the
/// copy of it failed; a wait in vain; a change of the output; and failures, among which is
/// that the capture could not be set up anew. Nothing else is counted.
pub proof fn attempts_are_counted(s: WindowStats, t: CaptureTick)
    requires
        s.has_room(t),
    ensures
        ({
            let c = counted(s, t);
            &&& c.acquire_ok == s.acquire_ok + if t is Acquired || t is CopyFailed {
                1int
            } else {
                0int
            }
            &&& c.copy_fail_count == s.copy_fail_count + if t is CopyFailed {
                1int
            } else {
                0int
            }
            &&& c.wait_timeout_count == s.wait_timeout_count + if t is Timeout {
                1int
            } else {
                0int
            }
            &&& c.access_lost_count == s.access_lost_count + if t is AccessLost {
                1int
            } else {
                0int
            }
            &&& c.acquire_errors == s.acquire_errors + if t is Failed || (t is AccessLost
                && !t->reinitialized) {
                1int
            } else {
                0int
            }
            &&& c.window_start == s.window_start
        }),
        empty_stats(s.window_start).acquire_ok == 0 && empty_stats(s.window_start).acquire_errors
            == 0 && empty_stats(s.window_start).wait_timeout_count == 0 && empty_stats(
            s.window_start,
        ).access_lost_count == 0 && empty_stats(s.window_start).copy_fail_count == 0,
{
}

/// The outputs of adapters are numbered through: each adapter's begin where those of the one
/// before end.
pub proof fn outputs_are_numbered_through(counts: Seq<usize>, a: int)
    requires
        0 <= a < counts.len(),
    ensures
        outputs_before(counts, 0) == 0,
        outputs_before(counts, a + 1) == outputs_before(counts, a) + counts[a],
{
}

proof fn flag_names()
    ensures
        flag_named("--screen"@) == Some(Flag::Screen),
        flag_named("--width"@) == Some(Flag::Width),
        flag_named("--height"@) == Some(Flag::Height),
        flag_named("--fps"@) == Some(Flag::Fps),
        flag_named("--bitrate-mbps"@) == Some(Flag::BitrateMbps),
        flag_named("--frames"@) == Some(Flag::Frames),
        flag_named("--acquire-timeout-ms"@) == Some(Flag::AcquireTimeoutMs),
        flag_named("--ready-timeout-ms"@) == Some(Flag::ReadyTimeoutMs),
        flag_named("--collect-timeout-ms"@) == Some(Flag::CollectTimeoutMs),
        flag_named("--max-timeouts"@) == Some(Flag::MaxTimeouts),
        flag_named("--overlay-thickness"@) == Some(Flag::OverlayThickness),
        flag_named("--no-nvenc"@) is None,
        flag_named("--no-overlay"@) is None,
        flag_named("--help"@) is None,
        flag_named("-h"@) is None,
        "--no-nvenc"@ != "--no-overlay"@,
        "--help"@ != "--no-nvenc"@ && "--help"@ != "--no-overlay"@,
        "-h"@ != "--no-nvenc"@ && "-h"@ != "--no-overlay"@,
{
    reveal_strlit("--screen");
    reveal_strlit("--width");
    reveal_strlit("--height");
    reveal_strlit("--fps");
    reveal_strlit("--bitrate-mbps");
    reveal_strlit("--frames");
    reveal_strlit("--acquire-timeout-ms");
    reveal_strlit("--ready-timeout-ms");
    reveal_strlit("--collect-timeout-ms");
    reveal_strlit("--max-timeouts");
    reveal_strlit("--overlay-thickness");
    reveal_strlit("--no-nvenc");
    reveal_strlit("--no-overlay");
    reveal_strlit("--help");
    reveal_strlit("-h");
    assert("--screen"@.len() == 8);
    assert("--width"@.len() == 7);
    assert("--height"@.len() == 8);
    assert("--fps"@.len() == 5);
    assert("--bitrate-mbps"@.len() == 14);
    assert("--frames"@.len() == 8);
    assert("--acquire-timeout-ms"@.len() == 20);
    assert("--ready-timeout-ms"@.len() == 18);
    assert("--collect-timeout-ms"@.len() == 20);
    assert("--max-timeouts"@.len() == 14);
    assert("--overlay-thickness"@.len() == 19);
    assert("--no-nvenc"@.len() == 10);
    assert("--no-overlay"@.len() == 12);
    assert("--help"@.len() == 6);
    assert("-h"@.len() == 2);
    assert("--screen"@[2] != "--height"@[2]);
    assert("--screen"@[2] != "--frames"@[2]);
    assert("--height"@[2] != "--frames"@[2]);
    assert("--bitrate-mbps"@[2] != "--max-timeouts"@[2]);
    assert("--acquire-timeout-ms"@[2] != "--collect-timeout-ms"@[2]);
}

/// The command line is read word by word: an option and its number set what the option is
/// called, and nothing else; what the options before it set stays.
pub proof fn options_set_what_they_are_called(
    words: Seq<Seq<char>>,
    reals: Seq<bool>,
    i: int,
    a: ArgsView,
    n: u32,
    k: usize,
)
    requires
        0 <= i,
        i + 1 < words.len(),
        reals.len() == words.len(),
    ensures
        words[i] == "--width"@ && words[i + 1] == text::decimal(n as nat) ==> parsed_from(
            words,
            reals,
            i,
            a,
        ) == parsed_from(words, reals, i + 2, ArgsView { width: n, ..a }),
        words[i] == "--height"@ && words[i + 1] == text::decimal(n as nat) ==> parsed_from(
            words,
            reals,
            i,
            a,
        ) == parsed_from(words, reals, i + 2, ArgsView { height: n, ..a }),
        words[i] == "--fps"@ && words[i + 1] == text::decimal(n as nat) ==> parsed_from(
            words,
            reals,
            i,
            a,
        ) == parsed_from(words, reals, i + 2, ArgsView { fps: n, ..a }),
        words[i] == "--acquire-timeout-ms"@ && words[i + 1] == text::decimal(n as nat)
            ==> parsed_from(words, reals, i, a) == parsed_from(
            words,
            reals,
            i + 2,
            ArgsView { acquire_timeout_ms: n, ..a },
        ),
        words[i] == "--ready-timeout-ms"@ && words[i + 1] == text::decimal(n as nat)
            ==> parsed_from(words, reals, i, a) == parsed_from(
            words,
            reals,
            i + 2,
            ArgsView { ready_timeout_ms: n, ..a },
        ),
        words[i] == "--collect-timeout-ms"@ && words[i + 1] == text::decimal(n as nat)
            ==> parsed_from(words, reals, i, a) == parsed_from(
            words,
            reals,
            i + 2,
            ArgsView { collect_timeout_ms: n, ..a },
        ),
        words[i] == "--screen"@ && words[i + 1] == text::decimal(k as nat) ==> parsed_from(
            words,
            reals,
            i,
            a,
        ) == parsed_from(words, reals, i + 2, ArgsView { screen: k, ..a }),
        words[i] == "--frames"@ && words[i + 1] == text::decimal(k as nat) ==> parsed_from(
            words,
            reals,
            i,
            a,
        ) == parsed_from(words, reals, i + 2, ArgsView { frames: k, ..a }),
        words[i] == "--max-timeouts"@ && words[i + 1] == text::decimal(k as nat) ==> parsed_from(
            words,
            reals,
            i,
            a,
        ) == parsed_from(words, reals, i + 2, ArgsView { max_timeouts: k, ..a }),
        words[i] == "--bitrate-mbps"@ && reals[i + 1] ==> parsed_from(words, reals, i, a)
            == parsed_from(
            words,
            reals,
            i + 2,
            ArgsView { bitrate_mbps: Some(words[i + 1]), ..a },
        ),
        words[i] == "--bitrate-mbps"@ && !reals[i + 1] ==> parsed_from(words, reals, i, a) is Err,
        words[i] == "--no-nvenc"@ ==> parsed_from(words, reals, i, a) == parsed_from(
            words,
            reals,
            i + 1,
            ArgsView { nvenc: false, ..a },
        ),
        words[i] == "--no-overlay"@ ==> parsed_from(words, reals, i, a) == parsed_from(
            words,
            reals,
            i + 1,
            ArgsView { overlay: false, ..a },
        ),
        words[i] == "--help"@ || words[i] == "-h"@ ==> parsed_from(words, reals, i, a) == Err::<
            ArgsView,
            StopView,
        >(StopView::Help),
        parsed_from(words, reals, words.len() as int, a) == Ok::<ArgsView, StopView>(a),
{
    flag_names();
    text::decimal_reads_back(n as nat, u32::MAX as nat);
    text::decimal_reads_back(k as nat, usize::MAX as nat);
}

/// An option that is the last word lacks its value.
pub proof fn options_want_values(words: Seq<Seq<char>>, reals: Seq<bool>, a: ArgsView)
    requires
        words.len() > 0,
        words.last() == "--width"@ || words.last() == "--height"@ || words.last() == "--fps"@
            || words.last() == "--screen"@ || words.last() == "--frames"@ || words.last()
            == "--overlay-thickness"@ || words.last() == "--bitrate-mbps"@,
    ensures
        parsed_from(words, reals, words.len() - 1, a) == Err::<ArgsView, StopView>(
            StopView::Missing(words.last()),
        ),
{
    flag_names();
}

/// Where nothing is asked for, ten frames of the first screen are measured at 1920 by 1080
/// and a hundred and twenty frames a second, encoded, with the border shown.
pub proof fn standard_settings()
    ensures
        default_args().screen == 0 && default_args().frames == 10,
        default_args().width == 1920 && default_args().height == 1080 && default_args().fps == 120,
        default_args().nvenc && default_args().overlay && default_args().overlay_thickness == 6,
        default_args().acquire_timeout_ms == 250 && default_args().ready_timeout_ms == 250,
        default_args().collect_timeout_ms == 40 && default_args().max_timeouts == 40,
{
}

/// A measurement that is added is counted and summed up, and the least and the largest are
/// kept.
pub proof fn measurements_are_kept(m: Metric, v: u128)
    requires
        m.count < u64::MAX,
        m.total_us + v <= u128::MAX,
    ensures
        m.pushed(v).count == m.count + 1,
        m.pushed(v).total_us == m.total_us + v,
        m.count > 0 ==> m.pushed(v).min_us <= v && m.pushed(v).min_us <= m.min_us && (m.pushed(
            v,
        ).min_us == v || m.pushed(v).min_us == m.min_us),
        m.count > 0 ==> m.pushed(v).max_us >= v && m.pushed(v).max_us >= m.max_us && (m.pushed(
            v,
        ).max_us == v || m.pushed(v).max_us == m.max_us),
        m.count == 0 ==> m.pushed(v).min_us == v && m.pushed(v).max_us == v,
{
}

/// Frames are counted one by one, key frames and bytes among them.
pub proof fn frames_are_counted(s: Seq<EncodedFrame>, f: EncodedFrame, t: Seq<u128>, v: u128)
    ensures
        key_frames(s.push(f)) == key_frames(s) + if f.key_frame {
            1int
        } else {
            0int
        },
        byte_count(s.push(f)) == byte_count(s) + f.data@.len(),
        total(t.push(v)) == total(t) + v,
        key_frames(Seq::empty()) == 0 && byte_count(Seq::empty()) == 0 && total(Seq::empty()) == 0,
        s.len() <= usize::MAX ==> stats_of(s).frames == s.len(),
{
    assert(s.push(f).drop_last() =~= s);
    assert(t.push(v).drop_last() =~= t);
}

/// What was collected is added to what was encoded, and the wait for it is measured; that
/// nothing came is counted, and the wait for it is measured too, but at the end it is not.
pub proof fn collected_outputs_are_added(
    s: EncodeSummary,
    frames: Seq<EncodedFrame>,
    encode_us: u64,
    wait_us: u128,
)
    requires
        s.encoded.frames + frames.len() <= usize::MAX,
        s.encoded.bytes + byte_count(frames) <= usize::MAX,
        0 <= byte_count(frames),
        0 <= key_frames(frames) <= frames.len(),
        s.encoded.key_frames + frames.len() <= usize::MAX,
        s.collect_none < usize::MAX,
        s.collect_wait.count < u64::MAX,
    ensures
        ({
            let r = recorded(s, Some((frames, encode_us)), wait_us);
            &&& r.encoded.frames == s.encoded.frames + frames.len()
            &&& r.encoded.bytes == s.encoded.bytes + byte_count(frames)
            &&& r.encoded.key_frames == s.encoded.key_frames + key_frames(frames)
            &&& r.collect_none == s.collect_none
            &&& r.collect_wait == s.collect_wait.pushed(wait_us)
            &&& r.encode_reported == s.encode_reported.pushed(encode_us as u128)
            &&& r.queue_full == s.queue_full
            &&& r.submit_cpu == s.submit_cpu
        }),
        ({
            let r = recorded(s, None, wait_us);
            &&& r.encoded == s.encoded
            &&& r.collect_none == s.collect_none + 1
            &&& r.collect_wait.count == s.collect_wait.count + 1
            &&& r.encode_reported == s.encode_reported
        }),
        drained(s, None, wait_us).collect_none == s.collect_none + 1,
        drained(s, None, wait_us).collect_wait == s.collect_wait,
        drained(s, Some((frames, encode_us)), wait_us) == recorded(
            s,
            Some((frames, encode_us)),
            wait_us,
        ),
{
}

/// A frame that was submitted has its output collected. Where the queue is full, an output
/// is collected and the frame submitted again; where none comes, its own is asked for all
/// the same; after that the frame is done.
pub proof fn frames_are_submitted_and_collected(
    s: EncodeSummary,
    job: FrameEncode,
    ev: EncodeEvent,
)
    requires
        encode_answers(s, job, ev),
    ensures
        ({
            let (t, j, action) = encode_next(s, job, ev);
            &&& ev is Submitted ==> action is Collect && j.stage is Collecting && t.queue_full
                == s.queue_full && t.submit_cpu.count == s.submit_cpu.count + 1
            &&& ev is QueueFull ==> action is Collect && j.stage is MakingRoom && t.queue_full
                == s.queue_full + 1 && t.submit_cpu == s.submit_cpu
            &&& ev is Collected && job.stage is MakingRoom && ev->output is Some ==> action
                is Submit && j.stage is Submitting
            &&& ev is Collected && job.stage is MakingRoom && ev->output is None ==> action
                is Collect && j.stage is Collecting
            &&& ev is Collected && job.stage is Collecting ==> action is Done && j.stage is Over
            &&& ev is Collected ==> j.collect_wait_us == job.collect_wait_us + ev->wait_us
            &&& !(ev is Collected) ==> j.outputs == job.outputs && j.collect_wait_us
                == job.collect_wait_us
        }),
{
}

/// At the end two more outputs are collected than the ring has places.
pub proof fn draining_has_a_limit(ring_size: usize)
    ensures
        ring_size + 2 <= usize::MAX ==> drain_limit(ring_size) == ring_size + 2,
        drain_limit(ring_size) <= usize::MAX,
{
}

/// The bits of a number are read as signed: the same number up to the largest signed one,
/// and negative above it.
pub proof fn signed_numbers(t: int)
    requires
        0 <= t <= u64::MAX,
    ensures
        t < 0x8000_0000_0000_0000 ==> as_signed(t) == t,
        t >= 0x8000_0000_0000_0000 ==> as_signed(t) < 0 && as_signed(t) + 0x1_0000_0000_0000_0000
            == t,
{
}

/// Nothing of the border is thinner than one pixel, and what is thicker stays so.
pub proof fn borders_are_seen(n: i32)
    ensures
        at_least_one(n) >= 1,
        n >= 1 ==> at_least_one(n) == n,
        n < 1 ==> at_least_one(n) == 1,
{
}

/// The time between two stages is that of their time stamps, in whole microseconds; none
/// where the second is not later.
pub proof fn stages_take_their_time(t: GpuTimestamps)
    ensures
        t.copy_done >= t.capture_start ==> 1000 * t.between(
            GpuStage::CaptureStart,
            GpuStage::CopyDone,
        ) <= t.copy_done - t.capture_start < 1000 * t.between(
            GpuStage::CaptureStart,
            GpuStage::CopyDone,
        ) + 1000,
        t.convert_done >= t.copy_done ==> 1000 * t.between(
            GpuStage::CopyDone,
            GpuStage::ConvertDone,
        ) <= t.convert_done - t.copy_done < 1000 * t.between(
            GpuStage::CopyDone,
            GpuStage::ConvertDone,
        ) + 1000,
        t.encode_submit >= t.convert_done ==> 1000 * t.between(
            GpuStage::ConvertDone,
            GpuStage::EncodeSubmit,
        ) <= t.encode_submit - t.convert_done < 1000 * t.between(
            GpuStage::ConvertDone,
            GpuStage::EncodeSubmit,
        ) + 1000,
        t.encode_done >= t.encode_submit ==> 1000 * t.between(
            GpuStage::EncodeSubmit,
            GpuStage::EncodeDone,
        ) <= t.encode_done - t.encode_submit < 1000 * t.between(
            GpuStage::EncodeSubmit,
            GpuStage::EncodeDone,
        ) + 1000,
        t.encode_done < t.encode_submit ==> t.between(
            GpuStage::EncodeSubmit,
            GpuStage::EncodeDone,
        ) == 0,
        t.copy_done < t.capture_start ==> t.between(GpuStage::CaptureStart, GpuStage::CopyDone)
            == 0,
{
}

/// The encoder is busy for as long as encoding took, but for no more than a frame has at
/// sixty frames a second.
pub proof fn busy_within_the_frame(t: GpuTiming)
    ensures
        busy_us(t) <= 16_666,
        busy_us(t) <= t.encode_us,
        t.encode_us <= 16_666 ==> busy_us(t) == t.encode_us,
        t.encode_us >= 16_666 ==> busy_us(t) == 16_666,
{
}

/// The last of a list are its end, as many as are asked for or as there are.
pub proof fn the_last_are_the_end(s: Seq<GpuTimelineEntry>, n: int)
    requires
        n >= 0,
    ensures
        last_of(s, n).len() == if s.len() <= n {
            s.len() as int
        } else {
            n
        },
        forall|i: int| #![trigger last_of(s, n)[i]]
            0 <= i < last_of(s, n).len() ==> last_of(s, n)[i] == s[s.len() - last_of(s, n).len()
                + i],
{
}

/// The timings of frames are summed up, each part by itself.
pub proof fn timings_are_summed(s: Seq<GpuTimelineEntry>, e: GpuTimelineEntry)
    ensures
        timing_sums(s.push(e)).0 == timing_sums(s).0 + e.timing.ctx_wait_us,
        timing_sums(s.push(e)).1 == timing_sums(s).1 + e.timing.submit_us,
        timing_sums(s.push(e)).2 == timing_sums(s).2 + e.timing.copy_us,
        timing_sums(s.push(e)).3 == timing_sums(s).3 + e.timing.blt_dispatch_us,
        timing_sums(s.push(e)).4 == timing_sums(s).4 + e.timing.encode_us,
        timing_sums(Seq::empty()) == (0int, 0int, 0int, 0int, 0int),
{
    assert(s.push(e).drop_last() =~= s);
}

/// A texture of the GPU is neither read nor written by the CPU; one for the CPU is bound to
/// nothing. Both have the size and the format that are asked for.
pub proof fn textures_are_as_asked(width: u32, height: u32, format: u32, flags: u32)
    ensures
        ({
            let t = gpu_texture(width, height, format, flags);
            &&& t.width == width && t.height == height && t.format == format
            &&& t.bind_flags == flags && t.cpu_access == 0 && t.usage == 0 && t.misc_flags == 0
        }),
        ({
            let t = staging_texture(width, height, format, flags);
            &&& t.width == width && t.height == height && t.format == format
            &&& t.cpu_access == flags && t.bind_flags == 0 && t.usage == 3 && t.misc_flags == 0
        }),
        groups_over(0, 16) == 0,
{
}

} // verus!
