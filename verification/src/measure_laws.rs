//! What holds of copied planes, measured times and reports, for every input.
use vstd::prelude::*;

use crate::bottom_panel::count_text;
use crate::d3d11::{plane_fits, rows_copied};
use crate::d3d11_i420::{
    aligned, begun, copied_to, span, D3d11RgbaToI420Scaled, PlaneBytes,
};
use crate::d3d11_nv12::{
    frame_timing, nv12_error_text, scale_input_problem, D3d11Nv12Error, InputTexture, RunOutcome,
    ScaleCsSpans,
};
use crate::d3d11_rgba::small_params;
use crate::denoise::{kept_answer, takes_effect, Change, SelectionView};
use crate::dxgi_duplication::{missing_text, MonitorInfo};
use crate::gpu_device::{described_name, gpu_error_text, last_index, GpuDeviceError};
use crate::gpu_timeline::{frame_json, frames_json, GpuTimelineEntry};
use crate::mft_encoder;
use crate::probe::{merged, parsed_i32, EncodedOutputStats};
use crate::state::lists_user;
use crate::text;

verus! {

/// Byte `k` of row `r` of what is copied comes to stand at its place in row `r` of the
/// target, and what lies behind the rows, in front of them or between them stays.
pub proof fn rows_keep_their_places(
    before: Seq<u8>,
    after: Seq<u8>,
    offset: int,
    pitch: int,
    src: Seq<u8>,
    src_pitch: int,
    rows: int,
    row_len: int,
    r: int,
    k: int,
)
    requires
        rows_copied(before, after, offset, pitch, src, src_pitch, rows, row_len),
        0 <= offset,
        0 <= row_len <= pitch,
        0 <= r < rows,
        0 <= k < row_len,
    ensures
        after.len() == before.len(),
        after[offset + r * pitch + k] == src[r * src_pitch + k],
        forall|i: int| 0 <= i < offset && i < before.len() ==> #[trigger] after[i] == before[i],
        forall|i: int|
            offset + rows * pitch <= i < before.len() ==> #[trigger] after[i] == before[i],
{
    assert(crate::d3d11::at(after, offset, pitch, r, k) == crate::d3d11::at(
        src,
        0,
        src_pitch,
        r,
        k,
    ));
    assert forall|i: int| 0 <= i < offset && i < before.len() implies #[trigger] after[i]
        == before[i] by {
        assert forall|q: int, c: int|
            0 <= q < rows && 0 <= c < row_len implies i != #[trigger] (offset + q * pitch + c) by {
            assert(q * pitch >= 0) by (nonlinear_arith)
                requires
                    q >= 0,
                    pitch >= 0,
            ;
        }
    }
    assert forall|i: int| offset + rows * pitch <= i < before.len() implies #[trigger] after[i]
        == before[i] by {
        assert(rows * pitch >= 0) by (nonlinear_arith)
            requires
                rows >= 0,
                pitch >= 0,
        ;
        assert forall|q: int, c: int|
            0 <= q < rows && 0 <= c < row_len implies i != #[trigger] (offset + q * pitch + c) by {
            assert(q * pitch + pitch <= rows * pitch) by (nonlinear_arith)
                requires
                    q + 1 <= rows,
                    pitch >= 0,
            ;
        }
    }
}

/// A plane fits where every byte of every row lies within the buffer.
pub proof fn fitting_planes_lie_within(
    len: int,
    offset: int,
    pitch: int,
    rows: int,
    row_len: int,
    r: int,
    k: int,
)
    requires
        plane_fits(len, offset, pitch, rows, row_len),
        0 <= offset,
        0 <= pitch,
        0 <= r < rows,
        0 <= k < row_len,
    ensures
        0 <= offset + r * pitch + k < len,
{
    assert(0 <= r * pitch <= (rows - 1) * pitch) by (nonlinear_arith)
        requires
            0 <= r <= rows - 1,
            0 <= pitch,
    ;
}

/// A size is rounded up, by less than the unit, to a multiple of it.
pub proof fn sizes_are_rounded_up(n: int, unit: int)
    requires
        n >= 0,
        unit > 0,
    ensures
        n <= aligned(n, unit) < n + unit,
        aligned(n, unit) % unit == 0,
{
    let q = (n + unit - 1) / unit;
    vstd::arithmetic::div_mod::lemma_fundamental_div_mod(n + unit - 1, unit);
    assert(unit * q == q * unit) by (nonlinear_arith);
    vstd::arithmetic::div_mod::lemma_mod_multiples_basic(q, unit);
}

/// A set takes over what another holds as a whole, or not at all, where one of the planes
/// is of another size.
pub proof fn sets_are_copied_as_a_whole(target: PlaneBytes, source: PlaneBytes)
    ensures
        copied_to(target, source) == source || copied_to(target, source) == target,
        target.y.len() != source.y.len() ==> copied_to(target, source) == target,
        target.u.len() != source.u.len() ==> copied_to(target, source) == target,
        target.v.len() != source.v.len() ==> copied_to(target, source) == target,
        target.y.len() == source.y.len() && target.u.len() == source.u.len() && target.v.len()
            == source.v.len() ==> copied_to(target, source) == source,
{
}

/// The shader that scales learns of both sizes, then of the phase, in eight words.
pub proof fn runs_know_their_sizes(c: D3d11RgbaToI420Scaled, phase: u32)
    ensures
        ({
            let p = c.run_params(phase);
            &&& p.len() == 8
            &&& p[0] == c.src_width && p[1] == c.src_height
            &&& p[2] == c.dst_width && p[3] == c.dst_height
            &&& p[4] == phase
            &&& p[5] == 0 && p[6] == 0 && p[7] == 0
        }),
{
}

/// Times that went by add up, are never negative, and are nothing at the start.
pub proof fn times_go_by(a: u64, b: u64, c: u64)
    requires
        a <= b <= c,
    ensures
        span(b, a) == b - a,
        span(a, b) == 0,
        span(c, a) == span(c, b) + span(b, a),
        mft_encoder::span(b, a) == b - a,
        mft_encoder::span(a, b) == 0,
        begun(a).start_ns == a && begun(a).mark_ns == a,
        begun(a).timing.total_ns == 0 && begun(a).timing.copy_ns == 0,
        begun(a).timing.map_ns == 0 && begun(a).timing.dispatch_ns == 0,
{
}

/// Binding takes what its parts take together, the state's binding what the shader, the
/// parameters and the sampler take; nothing is said of a blit, since there is none.
pub proof fn binding_takes_what_its_parts_take(wait: u64, submit: u64, s: ScaleCsSpans)
    requires
        s.bind_shader_us + s.bind_cb_us + s.bind_sampler_us + s.bind_srv_us + s.bind_uav_us
            <= u64::MAX,
    ensures
        ({
            let t = frame_timing(wait, submit, RunOutcome::ShadedScale(s));
            &&& t.ctx_wait_us == wait && t.submit_us == submit
            &&& t.bind_us == s.bind_shader_us + s.bind_cb_us + s.bind_sampler_us + s.bind_srv_us
                + s.bind_uav_us
            &&& t.bind_state_us == s.bind_shader_us + s.bind_cb_us + s.bind_sampler_us
            &&& t.bind_shader_us == s.bind_shader_us && t.bind_cb_us == s.bind_cb_us
            &&& t.bind_sampler_us == s.bind_sampler_us && t.bind_srv_us == s.bind_srv_us
            &&& t.bind_uav_us == s.bind_uav_us && t.srv_us == s.srv_us
            &&& t.dispatch_us == s.dispatch_us && t.unbind_us == s.unbind_us
            &&& t.query_us == s.query_us
            &&& t.copy_us == 0 && t.blt_us == 0 && t.cb_us == 0
        }),
{
}

/// The shader that scales takes exactly the inputs in BGRA that have the size it was made
/// for.
pub proof fn inputs_that_are_scaled(input: InputTexture, width: u32, height: u32)
    ensures
        scale_input_problem(input, width, height) is None <==> input.format == 87 && input.width
            == width && input.height == height,
{
}

/// Parameters take sixteen bytes, which the processor writes anew for each run.
pub proof fn parameters_are_rewritten()
    ensures
        small_params().byte_width == 16,
        small_params().usage == 2,
        small_params().bind_flags == 4,
        small_params().cpu_access == 0x1_0000,
        small_params().misc_flags == 0,
{
}

/// An error's text says what went wrong, with the numbers and words that came with it.
pub proof fn errors_say_what_came(s: String, n: u32, code: u32)
    ensures
        nv12_error_text(D3d11Nv12Error::Windows(code, s)) == "Windows API error: "@ + s@,
        nv12_error_text(D3d11Nv12Error::OutputReadyTimeout(n))
            == "Timed out waiting for NV12 output readiness after "@ + text::decimal(n as nat)
            + " ms"@,
        gpu_error_text(GpuDeviceError::DeviceCreation(s)) == "D3D11 device creation failed: "@ + s@,
{
}

/// A setting takes effect exactly where it is not yet the one in force.
pub proof fn settings_take_effect(v: SelectionView)
    ensures
        v.model_id == "off"@ ==> !takes_effect(v, Change::Model("off"@)),
        v.model_id != "off"@ ==> takes_effect(v, Change::Model("off"@)),
        v.reduce_mask is Mean ==> !takes_effect(v, Change::Mask("mean"@)),
        !(v.reduce_mask is Mean) ==> takes_effect(v, Change::Mask("mean"@)),
{
    crate::denoise::offered_models_can_be_selected(0, "off"@);
    crate::denoise::offered_masks_can_be_selected(1, "mean"@);
    assert(crate::denoise::models()[0].0 == "off"@);
    assert(crate::denoise::masks()[1].0 == "mean"@);
}

/// An answer that was given stays, whatever the text says afterwards; without a text the
/// microphone is denoised.
pub proof fn answers_are_kept(b: bool, value: Option<Seq<char>>)
    ensures
        kept_answer(Some(b), value) == b,
        kept_answer(None, None),
{
}

/// A description without a zero gives no name, one that begins with a zero an empty name.
pub proof fn names_end_at_a_zero(units: Seq<u16>, i: int)
    ensures
        !units.contains(0) ==> described_name(units).len() == 0,
        units.contains(0) ==> described_name(units) == text::utf16_chars(text::until_nul(units)),
        i > 0 ==> last_index(i) + 1 == i,
        last_index(0) == 0,
{
}

/// What is said of a monitor that was not found: its name, its size and its place.
pub proof fn monitors_that_were_not_found(m: MonitorInfo)
    ensures
        missing_text(m) == m.name@ + " "@ + text::decimal(m.width as nat) + "x"@ + text::decimal(
            m.height as nat,
        ) + " at "@ + text::decimal_int(m.x as int) + ","@ + text::decimal_int(m.y as int),
{
}

/// Frames stand in the export in order, with one comma between two neighbours.
pub proof fn exports_join_frames(
    s: Seq<GpuTimelineEntry>,
    e: GpuTimelineEntry,
    t: Seq<GpuTimelineEntry>,
)
    ensures
        frames_json(Seq::empty()).len() == 0,
        frames_json(seq![e]) == frame_json(e),
        s.len() > 0 ==> frames_json(s.push(e)) == frames_json(s) + ","@ + frame_json(e),
        s.len() > 0 && t.len() > 0 ==> frames_json(s + t) == frames_json(s) + ","@ + frames_json(t),
    decreases t.len(),
{
    assert(s.push(e).drop_last() =~= s);
    if s.len() > 0 && t.len() > 0 {
        let u = t.drop_last();
        assert((s + t).drop_last() =~= s + u);
        assert((s + t).last() == t.last());
        if t.len() == 1 {
            assert(s + u =~= s);
        } else {
            exports_join_frames(s, e, u);
            assert(frames_json(s) + ","@ + frames_json(u) + ","@ + frame_json(t.last())
                =~= frames_json(s) + ","@ + (frames_json(u) + ","@ + frame_json(t.last())));
        }
    }
}

/// A frame whose stages come one after the other is exported with the microseconds
/// between each and the next.
pub proof fn exports_name_the_stages(e: GpuTimelineEntry)
    requires
        ({
            let t = e.timestamps;
            t.capture_start <= t.copy_done <= t.convert_done <= t.encode_submit <= t.encode_done
        }),
    ensures
        ({
            let t = e.timestamps;
            frame_json(e) == "{\"frame\":"@ + text::decimal(e.frame as nat) + ",\"stages\":["@ + (
            "{\"name\":\""@ + "capture"@ + "\",\"gpu_us\":"@ + text::decimal(
                ((t.copy_done - t.capture_start) / 1000) as nat,
            ) + "}"@) + ","@ + ("{\"name\":\""@ + "copy"@ + "\",\"gpu_us\":"@ + text::decimal(
                ((t.convert_done - t.copy_done) / 1000) as nat,
            ) + "}"@) + ","@ + ("{\"name\":\""@ + "convert"@ + "\",\"gpu_us\":"@ + text::decimal(
                ((t.encode_submit - t.convert_done) / 1000) as nat,
            ) + "}"@) + ","@ + ("{\"name\":\""@ + "encode"@ + "\",\"gpu_us\":"@ + text::decimal(
                ((t.encode_done - t.encode_submit) / 1000) as nat,
            ) + "}"@) + "]}"@
        }),
{
}

/// Outputs are added up number by number, in any order.
pub proof fn outputs_add_up(a: EncodedOutputStats, b: EncodedOutputStats)
    requires
        a.frames + b.frames <= usize::MAX,
        a.key_frames + b.key_frames <= usize::MAX,
        a.bytes + b.bytes <= usize::MAX,
    ensures
        merged(a, b).frames == a.frames + b.frames,
        merged(a, b).key_frames == a.key_frames + b.key_frames,
        merged(a, b).bytes == a.bytes + b.bytes,
        merged(a, b) == merged(b, a),
{
}

/// A number counts as one of 32 bits exactly where it is in their range.
pub proof fn numbers_of_32_bits(n: int, s: Seq<char>)
    requires
        text::parsed_i64(s) == Some(n),
    ensures
        -0x8000_0000 <= n <= 0x7fff_ffff ==> parsed_i32(s) == Some(n),
        n < -0x8000_0000 || n > 0x7fff_ffff ==> parsed_i32(s) is None,
{
}

/// Counters stop at the largest number instead of starting anew.
pub proof fn counters_stop_at_the_largest(a: u64, b: u64, c: u32, d: u32)
    ensures
        mft_encoder::sat(a, b) >= a,
        mft_encoder::sat(a, b) >= b,
        a + b <= u64::MAX ==> mft_encoder::sat(a, b) == a + b,
        a + b > u64::MAX ==> mft_encoder::sat(a, b) == u64::MAX,
        mft_encoder::sat_if(a, b, false) == a,
        mft_encoder::sat_if(a, b, true) == mft_encoder::sat(a, b),
        c + d <= u32::MAX ==> mft_encoder::sat32(c, d) == c + d,
        c + d > u32::MAX ==> mft_encoder::sat32(c, d) == u32::MAX,
{
}

/// Counts are shown as numerals, missing ones as a dash.
pub proof fn counts_are_shown(n: u32)
    ensures
        count_text(Some(n)) == text::decimal(n as nat),
        count_text(None) == "-"@,
{
}

/// A user is listed exactly where the user's number stands in the list, wherever that is.
pub proof fn users_are_listed_by_number(list: Seq<String>, s: String, user_id: i64)
    ensures
        !lists_user(Seq::empty(), user_id),
        s@ == text::decimal_int(user_id as int) ==> lists_user(list.push(s), user_id),
        lists_user(list, user_id) ==> lists_user(list.push(s), user_id),
        s@ != text::decimal_int(user_id as int) ==> lists_user(list.push(s), user_id)
            == lists_user(list, user_id),
{
    let more = list.push(s);
    if s@ == text::decimal_int(user_id as int) {
        assert(more[list.len() as int]@ == text::decimal_int(user_id as int));
    }
    if lists_user(list, user_id) {
        let i = choose|i: int|
            0 <= i < list.len() && (#[trigger] list[i])@ == text::decimal_int(user_id as int);
        assert(more[i]@ == text::decimal_int(user_id as int));
    }
    if s@ != text::decimal_int(user_id as int) && lists_user(more, user_id) {
        let i = choose|i: int|
            0 <= i < more.len() && (#[trigger] more[i])@ == text::decimal_int(user_id as int);
        assert(list[i]@ == text::decimal_int(user_id as int));
    }
}

} // verus!
