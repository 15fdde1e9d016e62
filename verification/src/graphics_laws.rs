//! What holds of textures, conversions, filters and payloads, for every input.
use vstd::prelude::*;

use crate::d3d11::{self, OutputRing, TextureDesc};
use crate::d3d11_gl_interop::{
    lists_objects, removed_objects, times_registered, without_keys, InteropEntry,
};
use crate::d3d11_i420::{
    chroma_len, luma_len, readback_answers, readback_next, resized, row_groups, ReadbackAction,
    ReadbackEvent, ReadbackJob, StagingPair,
};
use crate::d3d11_nv12::{
    asked_or, color_space_of, convert_next, convert_step, converts_otherwise, frame_timing,
    invalid_argument, needs_intermediate, ring_size, vp_input, ConvertJob, ConvertPath,
    ConvertStep, Converter, D3d11Nv12Error, InputTexture, Intermediate, RunOutcome, Target,
    VpInput,
};
use crate::d3d11_rgba::{
    color_config, defines, nv12_resources, rgba_answers, rgba_next, stage_asked, switched_on,
    RgbaAction, RgbaEvent, RgbaFailure, RgbaStage,
};
use crate::denoise::{
    first_model_entry, first_true, is_model_entry, models, rebuild_step, source_label, DirEntry,
    RuntimeDenoiseConfig, Source,
};
use crate::net::{fields_of, object_fields, present, PayloadFields};
use crate::pictures::{
    decoded_picture, fetched_picture, jpeg_signature, picture_of, Picture,
};
use crate::text;

verus! {

/// The numbers by which the system and the server know things, and the limits that hold.
pub proof fn numbers_of_the_system()
    ensures
        d3d11::FORMAT_R32_TYPELESS == 39 && d3d11::FORMAT_R32_UINT == 42,
        d3d11::FORMAT_R8G8B8A8_UNORM == 28 && d3d11::FORMAT_R8G8B8A8_UNORM_SRGB == 29,
        d3d11::FORMAT_R8G8_UNORM == 49 && d3d11::FORMAT_R8_UNORM == 61,
        d3d11::FORMAT_B8G8R8A8_UNORM == 87 && d3d11::FORMAT_B8G8R8A8_UNORM_SRGB == 91,
        d3d11::FORMAT_NV12 == 103,
        d3d11::USAGE_DEFAULT == 0 && d3d11::USAGE_IMMUTABLE == 1 && d3d11::USAGE_DYNAMIC == 2,
        d3d11::USAGE_STAGING == 3,
        d3d11::BIND_CONSTANT_BUFFER == 0x4 && d3d11::BIND_SHADER_RESOURCE == 0x8,
        d3d11::BIND_RENDER_TARGET == 0x20 && d3d11::BIND_UNORDERED_ACCESS == 0x80,
        d3d11::CPU_ACCESS_WRITE == 0x1_0000 && d3d11::CPU_ACCESS_READ == 0x2_0000,
        d3d11::MISC_SHARED == 0x2 && d3d11::MISC_BUFFER_ALLOW_RAW_VIEWS == 0x20,
        d3d11::MISC_SHARED_NTHANDLE == 0x800 && d3d11::E_INVALIDARG == 0x8007_0057,
        crate::gpu_device::DISCRETE_VRAM_THRESHOLD == 512 * 1024 * 1024,
        crate::gpu_device::ADAPTER_FLAG_SOFTWARE == 2,
        crate::gpu_device::FEATURE_LEVEL_11_0 == 0xb000,
        crate::gpu_device::CREATE_DEVICE_FLAGS == 0x820,
        crate::dxgi_duplication::ERROR_WAIT_TIMEOUT == 0x887a_0027,
        crate::dxgi_duplication::ERROR_ACCESS_LOST == 0x887a_0026,
        crate::dxgi_duplication::RECT_SIZE == 16,
        crate::dxgi_duplication::MOVE_RECT_SIZE == 24,
        crate::mft_device::MISC_SHARED_KEYEDMUTEX == 0x100,
        crate::mft_encoder::ME_TRANSFORM_NEED_INPUT == 601,
        crate::mft_encoder::ME_TRANSFORM_HAVE_OUTPUT == 602,
        crate::mft_encoder::ASYNC_HAVE_OUTPUT_WAIT_MS == 8,
        crate::mft_encoder::DIAG_WINDOW_US == 1_000_000,
        crate::mft_encoder::POLL_SLEEP_US == 1000,
        crate::mft_setup::MAX_MEDIA_TYPES == 32,
        crate::mft_setup::DEFAULT_GOP_SECS == 12,
        crate::minimal_dxgi_process::WINDOW_US == 1_000_000,
        crate::d3d11_i420::READBACK_TIMEOUT_NS == 200_000_000,
        crate::d3d11_rgba::QUERY_TIMEOUT_US == 2_000_000,
        crate::gpu_timeline::FRAME_BUDGET_US == 16_666,
        crate::gpu_timeline::DEFAULT_FREQUENCY == 1_000_000_000,
        crate::app::TYPING_SHOWN_NS == 3_000_000_000,
        crate::app::TYPING_RESEND_NS == 1_000_000_000,
        crate::console_panel::MAX_CONSOLE_LINES == 1000,
        crate::crypto::KEY_LEN == 32 && crate::crypto::NONCE_LEN == 12,
        crate::crypto::TAG_LEN == 16 && crate::crypto::TOO_LONG == 64 * 0xffff_ffff,
        crate::state::FULL_VOLUME == 0x3f80_0000,
{
}

/// A number that is asked for is taken; where none is asked for, or what is asked for is
/// none, the standard is. A ring has from one to sixteen surfaces: as many as are asked for
/// within that, else sixteen from ninety frames a second on and four below.
pub proof fn rings_have_a_size(n: u32, fps: u32, other: Seq<char>, default: int)
    ensures
        asked_or(Some(text::decimal(n as nat)), default) == n,
        asked_or(None, default) == default,
        text::parsed_unsigned(other, u32::MAX as nat) is None ==> asked_or(Some(other), default)
            == default,
        1 <= n <= 16 ==> ring_size(Some(text::decimal(n as nat)), fps) == n,
        n == 0 ==> ring_size(Some(text::decimal(n as nat)), fps) == 1,
        n > 16 ==> ring_size(Some(text::decimal(n as nat)), fps) == 16,
        fps >= 90 ==> ring_size(None, fps) == 16,
        fps < 90 ==> ring_size(None, fps) == 4,
{
    text::decimal_reads_back(n as nat, u32::MAX as nat);
}

/// Only a call's complaint with its own code is one about an invalid argument.
pub proof fn invalid_arguments(code: u32, why: String, e: D3d11Nv12Error)
    ensures
        invalid_argument(D3d11Nv12Error::Windows(code, why)) <==> code == 0x8007_0057,
        !(e is Windows) ==> !invalid_argument(e),
        color_space_of(Target::Nv12) == 0x14,
        color_space_of(Target::Bgra) == 0,
{
}

/// The video processor works on an input itself exactly where it is a render target in BGRA,
/// or, for scaling, in RGBA. Any other goes through a copy of its size and format, which is
/// made where the last was of another, and can be rendered to and read by shaders.
pub proof fn unsuitable_inputs_are_copied(c: Converter, input: InputTexture)
    ensures
        ({
            let fits = input.bind_flags & 0x20 != 0 && (input.format == 87 || (c.target is Bgra
                && input.format == 28));
            &&& vp_input(c, input) is Direct <==> fits
            &&& needs_intermediate(c.target, input) == !fits
            &&& !fits && c.intermediate == Some(
                Intermediate { width: input.width, height: input.height, format: input.format },
            ) ==> vp_input(c, input) == VpInput::Copy(None)
            &&& !fits && c.intermediate != Some(
                Intermediate { width: input.width, height: input.height, format: input.format },
            ) ==> vp_input(c, input) == VpInput::Copy(
                Some(
                    TextureDesc {
                        width: input.width,
                        height: input.height,
                        format: input.format,
                        usage: 0,
                        bind_flags: 0x28,
                        cpu_access: 0,
                        misc_flags: 0,
                    },
                ),
            )
        }),
{
    assert(0x20u32 | 0x8u32 == 0x28u32) by (bit_vector);
}

/// A frame takes the other way after a failure only from the video processor to the shader,
/// on the way to NV12 and for an invalid argument, and from the shader to the video
/// processor where frames are scaled. Any other failure is the frame's. A frame that was
/// written is done, with the times of the way that it took.
pub proof fn frames_take_the_other_way(
    target: Target,
    job: ConvertJob,
    e: D3d11Nv12Error,
    wait: u64,
    submit: u64,
    copy_us: u64,
    query_us: u64,
    blt_us: u64,
)
    ensures
        ({
            let other = (target is Nv12 && job.path is VideoProcessor && e is Windows
                && e->Windows_0 == 0x8007_0057) || (target is Bgra && job.path is ComputeShader);
            &&& converts_otherwise(target, job.path, e) == other
            &&& other && job.path is VideoProcessor ==> convert_step(
                target,
                job,
                RunOutcome::Failed(e),
                wait,
                submit,
            ) == ConvertStep::Run(ConvertPath::ComputeShader)
            &&& other && job.path is ComputeShader ==> convert_step(
                target,
                job,
                RunOutcome::Failed(e),
                wait,
                submit,
            ) == ConvertStep::Run(ConvertPath::VideoProcessor)
            &&& !other ==> convert_step(target, job, RunOutcome::Failed(e), wait, submit)
                == ConvertStep::Fail(e)
            &&& convert_next(target, job, RunOutcome::Failed(e)).over == !other
        }),
        ({
            let t = frame_timing(
                wait,
                submit,
                RunOutcome::Processed { copy_us, query_us, blt_us },
            );
            &&& t.ctx_wait_us == wait && t.submit_us == submit
            &&& t.copy_us == copy_us && t.query_us == query_us && t.blt_us == blt_us
            &&& t.bind_us == 0 && t.dispatch_us == 0
        }),
        convert_step(
            target,
            job,
            RunOutcome::ShadedNv12 { blt_us },
            wait,
            submit,
        ) is Done,
        convert_next(target, job, RunOutcome::ShadedNv12 { blt_us }).over,
{
}

/// Something is switched on by `1` and by `true` in any case of the letters, and by nothing
/// else.
pub proof fn switching_on(s: Seq<char>)
    ensures
        switched_on("1"@) && switched_on("true"@) && switched_on("True"@),
        !switched_on("0"@) && !switched_on("false"@),
        s.len() != 1 && s.len() != 4 ==> !switched_on(s),
{
    reveal_strlit("1");
    reveal_strlit("0");
    reveal_strlit("true");
    reveal_strlit("True");
    reveal_strlit("false");
    assert("0"@[0] != "1"@[0]);
    assert(text::ascii_lowered("True"@) =~= text::ascii_lowered("true"@));
    assert(text::ascii_lowered("true"@).len() == 4);
    assert(text::ascii_lowered(s).len() == s.len());
    assert(text::ascii_lowered("0"@).len() == 1 && text::ascii_lowered("false"@).len() == 5);
}

/// The first and the third stage of colour give sRGB, the fourth has a gamma of its own, and
/// the others leave the gamma to be set; without a stage it is what is asked for.
pub proof fn colours_follow_the_stage(n: nat, output: Option<Seq<char>>, gamma: bool)
    requires
        n <= 255,
    ensures
        stage_asked(Some(text::decimal(n))) == Some(n),
        stage_asked(None) is None,
        color_config(Some(n), output, gamma).output_srgb <==> n == 1 || n == 3,
        color_config(Some(n), output, gamma).decoder_gamma is Stage <==> n == 4,
        color_config(Some(n), output, gamma).use_runtime_gamma <==> n == 0 || n > 4,
        color_config(None, output, gamma).output_srgb <==> output == Some("1"@) || output == Some(
            "true"@,
        ),
        color_config(None, output, true).decoder_gamma is Asked,
        color_config(None, output, false).decoder_gamma is Off,
        color_config(None, output, gamma).use_runtime_gamma == !gamma,
{
    text::decimal_reads_back(n, 255);
}

/// Each definition stands in front of the shader exactly where it is asked for, on a line of
/// its own.
pub proof fn definitions_are_as_asked(g: Seq<char>)
    ensures
        defines(false, false, None, false, false).len() == 0,
        defines(true, false, None, false, false) == "#define OUTPUT_SRGB 1\n"@,
        defines(false, true, None, false, false) == "#define FULL_RANGE 1\n"@,
        defines(false, false, None, true, false) == "#define GAMMA_RUNTIME 1\n"@,
        defines(false, false, None, false, true) == "#define UV_BILINEAR 1\n"@,
        defines(false, false, Some(g), false, false) == "#define GAMMA_DECODER_ENABLED 1\n"@
            + "#define GAMMA_DECODER "@ + g + "\n"@,
{
    let none = Seq::<char>::empty();
    assert(defines(true, false, None, false, false) =~= "#define OUTPUT_SRGB 1\n"@);
    assert(defines(false, true, None, false, false) =~= "#define FULL_RANGE 1\n"@);
    assert(defines(false, false, None, true, false) =~= "#define GAMMA_RUNTIME 1\n"@);
    assert(defines(false, false, None, false, true) =~= "#define UV_BILINEAR 1\n"@);
    assert(defines(false, false, Some(g), false, false) =~= "#define GAMMA_DECODER_ENABLED 1\n"@
        + "#define GAMMA_DECODER "@ + g + "\n"@);
}

/// The texture that is shared is never written by the shader, and the one that the shader
/// writes is never shared; all have the size of the frame.
pub proof fn shared_textures_are_not_written(width: u32, height: u32)
    ensures
        ({
            let r = nv12_resources(width, height);
            &&& r.output.misc_flags == 0 && r.output.bind_flags == 0x88 && r.output.format == 28
            &&& r.display.misc_flags == 2 && r.display.bind_flags == 0x8 && r.display.format == 28
            &&& r.staging.format == 103 && r.staging.bind_flags == 0x8
            &&& r.output.width == width && r.display.width == width && r.staging.width == width
            &&& r.output.height == height && r.display.height == height && r.staging.height
                == height
        }),
{
    assert(0x80u32 | 0x8u32 == 0x88u32) by (bit_vector);
}

/// Frames go through the shader step by step: after each of handing them over, running the
/// shader and copying the result it is asked whether the device is lost, and where it is the
/// conversion fails. The copy is waited for two seconds at most.
pub proof fn lost_devices_end_conversions(stage: RgbaStage, ev: RgbaEvent)
    requires
        rgba_answers(stage, ev),
    ensures
        ({
            let (next, action) = rgba_next(stage, ev);
            &&& stage is Uploading ==> action is CheckDevice
            &&& stage is Dispatching ==> action is CheckDevice
            &&& stage is Waiting && ev->ready ==> action is CheckDevice
            &&& ev is Checked && ev->Checked_0 is Some ==> action == RgbaAction::Fail(
                RgbaFailure::Lost(ev->Checked_0->0),
            )
            &&& ev is Checked && ev->Checked_0 is None ==> !(action is Fail)
            &&& ev is Failed ==> action == RgbaAction::Fail(RgbaFailure::Call(ev->Failed_0))
            &&& stage is CheckingUpload && ev->Checked_0 is None ==> action is WriteParams
            &&& stage is WritingParams && ev is Finished ==> action is Dispatch
            &&& stage is CheckingRun && ev->Checked_0 is None ==> action is Copy
            &&& stage is Copying ==> action is Ask
            &&& stage is CheckingCopy && ev->Checked_0 is None ==> action is Read
            &&& stage is Reading && ev is Finished ==> action is Done
            &&& stage is Waiting && !ev->ready && ev->removed is Some ==> action
                == RgbaAction::Fail(RgbaFailure::Lost(ev->removed->0))
            &&& stage is Waiting && !ev->ready && ev->removed is None && ev->elapsed_us
                > 2_000_000 ==> action == RgbaAction::Fail(RgbaFailure::TimedOut(ev->last_error))
            &&& stage is Waiting && !ev->ready && ev->removed is None && ev->elapsed_us
                <= 2_000_000 ==> action is Ask
        }),
{
}

/// The luma plane has a byte for each pixel and each chroma plane one for each four, in half
/// the rows and columns; a plane that grows is filled with zeros behind what it had.
pub proof fn planes_have_their_sizes(w: u32, h: u32, s: Seq<u8>, n: int)
    requires
        n >= 0,
    ensures
        luma_len(w, h) == w * h,
        chroma_len(w, h) == (w as int / 2) * (h as int / 2),
        resized(s, n).len() == n,
        forall|i: int| 0 <= i < n && i < s.len() ==> #[trigger] resized(s, n)[i] == s[i],
        forall|i: int| s.len() <= i < n ==> #[trigger] resized(s, n)[i] == 0,
        row_groups(0) == 0,
        row_groups(64) == 1,
        row_groups(1920) == 30,
{
}

/// Planes are read from the set that was written last, once they are there, and are waited
/// for two hundred milliseconds at most; the frame is then copied to the other set. What
/// fails leaves the sets as they were.
pub proof fn planes_are_waited_for(pair: StagingPair, job: ReadbackJob, ev: ReadbackEvent)
    requires
        pair.well_formed(),
        readback_answers(job.stage, ev),
    ensures
        ({
            let (after, j, action) = readback_next(pair, job, ev);
            &&& ev is Failed ==> action is Fail && after == pair
            &&& job.stage is Running && ev is Finished ==> action == (ReadbackAction::Ask {
                set: pair.last_write_idx,
            }) && after == pair
            &&& job.stage is Waiting && ev->ready ==> action == (ReadbackAction::Read {
                set: pair.last_write_idx,
            })
            &&& job.stage is Waiting && !ev->ready && ev->Asked_now_ns > job.mark_ns
                + 200_000_000 ==> action is Fail
            &&& job.stage is Waiting && !ev->ready && ev->Asked_now_ns <= job.mark_ns
                + 200_000_000 ==> action == (ReadbackAction::Ask { set: pair.last_write_idx })
            &&& job.stage is Reading && ev is Finished ==> action == (ReadbackAction::Copy {
                set: (1 - pair.last_write_idx) as usize,
            })
            &&& job.stage is Copying ==> action is Done && after.last_write_idx == 1
                - pair.last_write_idx
            &&& !(job.stage is Copying) ==> after == pair
        }),
{
}

/// The objects to unregister are those of the keys, each once: of one key it is the object
/// of that key's texture, where there is one.
pub proof fn removed_objects_are_of_the_keys(
    entries: Map<i64, InteropEntry>,
    key: i64,
    keys: Seq<i64>,
)
    ensures
        entries.contains_key(key) ==> removed_objects(entries, seq![key]) == seq![
            entries[key].registered,
        ],
        !entries.contains_key(key) ==> removed_objects(entries, seq![key]).len() == 0,
        removed_objects(entries, keys).len() <= keys.len(),
        without_keys(entries, seq![key]) == entries.remove(key),
        without_keys(entries, Seq::empty()) == entries,
    decreases keys.len(),
{
    let one = seq![key];
    assert(one.drop_last() =~= Seq::empty());
    assert(removed_objects(entries, one.drop_last()) =~= Seq::empty());
    assert(without_keys(entries, one.drop_last()) == entries);
    if entries.contains_key(key) {
        assert(removed_objects(entries, one) =~= seq![entries[key].registered]);
    }
    if keys.len() > 0 {
        removed_objects_are_of_the_keys(entries, key, keys.drop_last());
    }
}

/// A list of objects has one for each texture; of a single texture it is that texture's.
pub proof fn objects_of_one_texture(key: i64, e: InteropEntry, list: Seq<usize>)
    requires
        lists_objects(Map::empty().insert(key, e), list),
    ensures
        list.len() == 1,
        list[0] == e.registered,
{
    let m = Map::<i64, InteropEntry>::empty().insert(key, e);
    assert(m.dom() =~= Set::empty().insert(key));
    let o = list[0];
    assert(list.to_multiset().count(o) > 0) by {
        list.to_multiset_ensures();
        assert(list.contains(o));
    }
    if o != e.registered {
        assert(m.dom().filter(|k: i64| m[k].registered == o) =~= Set::empty());
        assert(times_registered(m, o) == 0);
    }
}

/// A filter is built for every model but the one that stands for none, for which it is let
/// go of. Denoisers are told apart by what they are for.
pub proof fn filters_follow_the_model(c: RuntimeDenoiseConfig, user: i64)
    ensures
        rebuild_step(c) is Drop <==> c.model_id@ == "off"@,
        rebuild_step(c) is Build <==> c.model_id@ != "off"@,
        source_label(Source::Microphone) == "sender-microphone"@,
        source_label(Source::Voice(user)) == "receiver-user-"@ + text::decimal_int(user as int),
{
}

/// The first that is there is the one that is found.
pub proof fn the_first_file_is_found(s: Seq<bool>, i: int)
    ensures
        0 <= first_true(s) <= s.len(),
        first_true(s) < s.len() ==> s[first_true(s)],
        0 <= i < first_true(s) ==> !s[i],
    decreases s.len(),
{
    if s.len() > 0 && !s[0] {
        the_first_file_is_found(s.drop_first(), i - 1);
        if 0 < i < first_true(s) {
            assert(s[i] == s.drop_first()[i - 1]);
        }
    }
}

/// The entry that is found is the first that is a file with the name of a model, whatever
/// the case of its letters.
pub proof fn the_first_model_is_found(s: Seq<DirEntry>, i: int)
    ensures
        0 <= first_model_entry(s) <= s.len(),
        first_model_entry(s) < s.len() ==> {
            let e = s[first_model_entry(s)];
            e.is_file && exists|k: int|
                0 <= k < models().len() && text::ascii_lowered((#[trigger] models()[k]).0)
                    == text::ascii_lowered(e.name@)
        },
        0 <= i < first_model_entry(s) && s[i].is_file ==> forall|k: int|
            0 <= k < models().len() ==> text::ascii_lowered((#[trigger] models()[k]).0)
                != text::ascii_lowered(s[i].name@),
    decreases s.len(),
{
    if s.len() > 0 {
        if is_model_entry(s[0]) {
            let e = s[0];
            if text::ascii_lowered(e.name@) == text::ascii_lowered(models()[0].0) {
            } else if text::ascii_lowered(e.name@) == text::ascii_lowered(models()[1].0) {
            } else {
                assert(text::ascii_lowered(e.name@) == text::ascii_lowered(models()[2].0));
            }
        } else {
            let rest = s.drop_first();
            the_first_model_is_found(rest, i - 1);
            if 0 <= i < first_model_entry(s) && s[i].is_file {
                assert forall|k: int| 0 <= k < models().len() implies text::ascii_lowered(
                    (#[trigger] models()[k]).0,
                ) != text::ascii_lowered(s[i].name@) by {
                    if i > 0 {
                        assert(s[i] == rest[i - 1]);
                    } else {
                        assert(k == 0 || k == 1 || k == 2);
                    }
                }
            }
        }
    }
}

/// What is read of a payload stands under its own name in the object. Where two names are
/// possible, the first counts, and the second only where there is no field of the first
/// name.
pub proof fn fields_stand_under_their_names(json: serde_json::Value, r: PayloadFields)
    requires
        fields_of(json, r),
    ensures
        ({
            let f = object_fields(json);
            &&& f.contains_key("user_id"@) ==> r.user_id == f["user_id"@].0
            &&& !f.contains_key("user_id"@) ==> r.user_id is None
            &&& f.contains_key("channel_id"@) ==> r.channel_id == f["channel_id"@].0
            &&& f.contains_key("server_id"@) ==> r.server_id == f["server_id"@].0
            &&& f.contains_key("owner_id"@) ==> r.owner_id == f["owner_id"@].0
            &&& f.contains_key("reader_id"@) ==> r.reader_id == f["reader_id"@].0
            &&& f.contains_key("online"@) ==> r.online == f["online"@].1
            &&& f.contains_key("mic_muted"@) ==> r.mic_muted == f["mic_muted"@].1
            &&& f.contains_key("cam_enabled"@) ==> r.cam_enabled == f["cam_enabled"@].1
            &&& f.contains_key("streaming"@) ==> r.streaming == f["streaming"@].1
            &&& f.contains_key("avatar_changed"@) ==> r.avatar_changed == f["avatar_changed"@].1
            &&& !f.contains_key("avatar_changed"@) ==> r.avatar_changed is None
            &&& !f.contains_key("streaming"@) ==> r.streaming is None
            &&& !f.contains_key("online"@) ==> r.online is None
            &&& !f.contains_key("channel_id"@) ==> r.channel_id is None
            &&& f.contains_key("id"@) ==> r.message_ref == f["id"@].0 && r.channel_ref
                == f["id"@].0
            &&& !f.contains_key("id"@) && f.contains_key("message_id"@) ==> r.message_ref
                == f["message_id"@].0
            &&& !f.contains_key("id"@) && f.contains_key("channel_id"@) ==> r.channel_ref
                == f["channel_id"@].0
            &&& f.contains_key("server_id"@) ==> r.server_ref == f["server_id"@].0
            &&& !f.contains_key("server_id"@) && f.contains_key("id"@) ==> r.server_ref
                == f["id"@].0
            &&& f.contains_key("user_id"@) ==> r.user_ref == f["user_id"@].0
            &&& !f.contains_key("user_id"@) && f.contains_key("id"@) ==> r.user_ref == f["id"@].0
            &&& f.contains_key("username"@) && f["username"@].2 is Some ==> r.username is Some
                && r.username->0@ == f["username"@].2->0
            &&& f.contains_key("name"@) && f["name"@].2 is Some ==> r.name is Some && r.name->0@
                == f["name"@].2->0
            &&& f.contains_key("display_name"@) && f["display_name"@].2 is Some ==> r.display_name
                is Some && r.display_name->0@ == f["display_name"@].2->0
        }),
{
}

/// Of an array those items are taken that are integers, in order.
pub proof fn integers_are_taken(items: Seq<Option<i64>>, n: i64)
    ensures
        present(items.push(Some(n))) == present(items).push(n),
        present(items.push(None)) == present(items),
        present(Seq::empty()).len() == 0,
{
    assert(items.push(Some(n)).drop_last() =~= items);
    assert(items.push(None).drop_last() =~= items);
}

/// A picture in a download is what its bytes decode to. A file that starts with the three
/// bytes of a JPEG file is what was made of it; nothing and no bytes are no picture.
pub proof fn pictures_in_downloads(bytes: Vec<u8>, jpeg: Option<Picture>)
    ensures
        fetched_picture(None, jpeg) is None,
        bytes@.len() == 0 ==> fetched_picture(Some(&bytes), jpeg) is None,
        jpeg_signature(bytes@) <==> bytes@.len() >= 3 && bytes@[0] == 0xff && bytes@[1] == 0xd8
            && bytes@[2] == 0xff,
        bytes@.len() > 0 && bytes@[0] != 0xff ==> fetched_picture(Some(&bytes), jpeg)
            == decoded_picture(bytes@),
        bytes@.len() >= 3 && bytes@[0] == 0xff && bytes@[1] == 0xd8 && bytes@[2] == 0xff
            && jpeg is Some ==> fetched_picture(Some(&bytes), jpeg) == Some(
            (jpeg->0.width, jpeg->0.height, jpeg->0.rgba@),
        ),
        bytes@.len() >= 3 && bytes@[0] == 0xff && bytes@[1] == 0xd8 && bytes@[2] == 0xff
            && jpeg is None ==> picture_of(bytes@, jpeg) is None,
{
}

/// A ring without surfaces counts as one place, any other as many as it has.
pub proof fn places_of_a_ring(r: OutputRing)
    ensures
        r.places() >= 1,
        r.len > 0 ==> r.places() == r.len,
{
}

} // verus!
