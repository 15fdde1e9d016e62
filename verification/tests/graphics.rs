use std::collections::HashSet;

use astrix_client::d3d11::{
    copy_plane, create_cb_params, groups16, groups8, rect_of_size, OutputRing, Rect, ViewCache,
    BIND_CONSTANT_BUFFER, BIND_RENDER_TARGET, BIND_SHADER_RESOURCE, BIND_UNORDERED_ACCESS,
    CPU_ACCESS_READ, CPU_ACCESS_WRITE, E_INVALIDARG, FORMAT_B8G8R8A8_UNORM,
    FORMAT_B8G8R8A8_UNORM_SRGB, FORMAT_NV12, FORMAT_R8G8B8A8_UNORM, FORMAT_R8G8_UNORM,
    FORMAT_R8_UNORM, MISC_SHARED, USAGE_DYNAMIC, USAGE_STAGING,
};
use astrix_client::d3d11_gl_interop::{D3d11GlInterop, InteropInit, UpdateStep};
use astrix_client::d3d11_i420::{
    create_buffers_and_uavs, view_format, D3d11I420Error, D3d11RgbaToI420, D3d11RgbaToI420Scaled,
    GpuConvertTiming, I420Planes, ReadbackAction, ReadbackEvent, ReadbackFailure, ReadbackJob,
    ReadbackStage, StagingPair,
};
use astrix_client::d3d11_nv12::{
    assemble_nv12, check_capabilities, check_scale_input, check_scale_ring, check_single_view,
    create_cs_textures_and_uavs, nv12_run, nv12_timing, output_ring_size, output_texture_desc,
    prefers_compute_scale, scale_cs_timing, scale_params_index, scale_run, startup_flush_frames,
    video_usage_for_fps, wait_output_ready, ConvertPath, ConvertStep, Converter, D3d11BgraToNv12,
    D3d11Nv12Error, InputTexture, Intermediate, Nv12Phase, ReadyStep, RunOutcome, ScaleCsSpans,
    Target, VpInput,
};
use astrix_client::d3d11_rgba::{
    check_device_lost, choose_colors, choose_shader, create_resources, create_small_params,
    flag_or, nv12_plane_view, rgba_readback, shader_defines, ColorConfig, CompiledGamma,
    D3d11I420ToRgba, D3d11Nv12ToRgba, D3d11RgbaError, DecodePath, RgbaAction, RgbaEvent,
    RgbaFailure, RgbaStage, ShaderVariant,
};
use astrix_client::gpu_device::{
    adapter_info, check_feature_level, select_best, select_place, selection_line, AdapterInfo, GpuDeviceError,
};
use astrix_client::gpu_timeline::{
    get_timestamp_frequency, verbose_line, D3d11TimestampQueries, GpuQueryError, GpuStage,
    GpuTimeline, GpuTimestamps, GpuTiming, NsightError, PixError,
};

#[test]
fn groups_cover_every_item() {
    assert_eq!(groups16(0), 0);
    assert_eq!(groups16(1), 1);
    assert_eq!(groups16(16), 1);
    assert_eq!(groups16(17), 2);
    assert_eq!(groups8(1080), 135);
    assert_eq!(groups8(1081), 136);
}

#[test]
fn ring_hands_out_its_surfaces_in_turn() {
    let mut r = OutputRing::new(3);
    let order: Vec<usize> = (0..5).map(|_| r.next_output_index()).collect();
    assert_eq!(order, vec![0, 1, 2, 0, 1]);
    r.note_written(2);
    assert_eq!(r.last_output_index(), 2);
    let mut none = OutputRing::new(0);
    assert_eq!(none.next_output_index(), 0);
    assert_eq!(none.next_output_index(), 0);
    let mut end = OutputRing { len: 3, cursor: u32::MAX, last: 9 };
    assert_eq!(end.next_output_index(), 0);
    assert_eq!(end.cursor, 0);
    assert_eq!(end.last_output_index(), 2);
}

#[test]
fn views_are_made_once() {
    let mut c = ViewCache::new();
    assert!(!c.contains(5));
    c.note_created(5);
    assert!(c.contains(5));
    c.clear();
    assert!(!c.contains(5));
}

#[test]
fn planes_are_copied_row_by_row() {
    let mut dst = vec![9u8; 8];
    copy_plane(&mut dst, 1, 3, &[1, 2, 0, 3, 4], 3, 2, 2);
    assert_eq!(dst, vec![9, 1, 2, 9, 3, 4, 9, 9]);
    assert_eq!(rect_of_size(4, 5), Rect { left: 0, top: 0, right: 4, bottom: 5 });
    let b = create_cb_params();
    assert_eq!((b.byte_width, b.usage, b.bind_flags), (32, USAGE_DYNAMIC, BIND_CONSTANT_BUFFER));
    assert_eq!(b.cpu_access, CPU_ACCESS_WRITE);
}

#[test]
fn textures_are_registered_per_stream() {
    let mut g = D3d11GlInterop::try_new();
    assert!(!g.lock_all());
    assert_eq!(g.update_texture(1, 0x10, 4, 4), UpdateStep::Register { unregister: None });
    assert_eq!(g.texture_registered(1, 0x10, 7, 4, 4, 70, "0"), Ok(()));
    assert_eq!(g.get_gl_tex(1), Some((7, 4, 4)));
    assert_eq!(g.update_texture(1, 0x10, 8, 6), UpdateStep::Registered);
    assert_eq!(g.get_gl_tex(1), Some((7, 8, 6)));
    assert_eq!(g.update_texture(1, 0x20, 8, 6), UpdateStep::Register { unregister: Some(70) });
    assert_eq!(g.get_gl_tex(1), None);
    assert_eq!(
        g.texture_registered(1, 0xab, 7, 4, 4, 0, "5"),
        Err("wglDXRegisterObjectNV FAILED key=1 gl_tex=7 ptr=0xab GetLastError=5".to_string())
    );
}

#[test]
fn objects_are_locked_and_removed() {
    let mut g = D3d11GlInterop::try_new();
    for k in vec![1i64, 2, 3] {
        g.texture_registered(k, k as usize, k as u32, 1, 1, k as usize * 10, "").unwrap();
    }
    assert!(g.lock_all());
    let locked: HashSet<usize> = g.locked_objects.iter().copied().collect();
    assert_eq!(locked, vec![10, 20, 30].into_iter().collect());
    assert_eq!(g.unlock_all().len(), 3);
    assert!(g.unlock_all().is_empty());
    assert_eq!(g.remove_keys(&vec![3, 9, 1, 3]), vec![30, 10]);
    assert_eq!(g.get_gl_tex(1), None);
    assert_eq!(g.get_gl_tex(2), Some((2, 1, 1)));
    assert_eq!(g.clear(), vec![20]);
    assert!(g.entries.is_empty());
}

#[test]
fn shared_objects_are_listed_as_often_as_they_are_registered() {
    let mut g = D3d11GlInterop::try_new();
    for (k, object) in vec![(1i64, 10usize), (2, 10), (3, 30)] {
        g.texture_registered(k, k as usize, k as u32, 1, 1, object, "").unwrap();
    }
    assert!(g.lock_all());
    g.locked_objects.sort();
    assert_eq!(g.unlock_all(), vec![10, 10, 30]);
    let mut all = g.clear();
    all.sort();
    assert_eq!(all, vec![10, 10, 30]);
}

#[test]
fn sharing_is_set_up_once() {
    let mut i = InteropInit { tried: false };
    assert!(!i.due(false, true));
    assert!(!i.due(true, false));
    assert!(i.due(true, true));
    assert!(!i.due(true, true));
}

#[test]
fn planes_have_the_sizes_of_the_frame() {
    let mut p = I420Planes::new_empty();
    p.ensure_size(5, 3);
    assert_eq!((p.y.len(), p.u.len(), p.v.len()), (15, 2, 2));
    p.read_back(2, 2, &[1, 2, 3, 4, 5], &[6, 7], &[8]);
    assert_eq!(p.y, vec![1, 2, 3, 4]);
    assert_eq!((p.u.clone(), p.v.clone()), (vec![6], vec![8]));
    assert_eq!((p.width, p.height), (2, 2));
}

#[test]
fn staging_sets_are_used_in_turn() {
    let mut s = StagingPair::new();
    assert_eq!((s.map_idx(), s.write_idx()), (1, 0));
    s.note_written();
    assert_eq!((s.map_idx(), s.write_idx()), (0, 1));
    s.note_written();
    assert_eq!(s, StagingPair::new());
}

#[test]
fn i420_runs_cover_the_planes() {
    let r = D3d11RgbaToI420::new(1920, 1080).convert();
    assert_eq!(r.luma.params, vec![1920, 1080, 0, 0]);
    assert_eq!((r.luma.groups_x, r.luma.groups_y), (30, 68));
    assert_eq!(r.chroma.params, vec![1920, 1080, 1, 0]);
    assert_eq!((r.chroma.groups_x, r.chroma.groups_y), (15, 34));
    let s = D3d11RgbaToI420Scaled::new(3840, 2160, 1920, 1080).convert();
    assert_eq!(s.chroma.params, vec![3840, 2160, 1920, 1080, 1, 0, 0, 0]);
    assert_eq!(s.luma.groups_x, 30);
    let c = D3d11RgbaToI420::new(64, 32);
    assert_eq!((c.width(), c.height()), (64, 32));
}

#[test]
fn frames_read_the_one_before() {
    let mut pair = StagingPair::new();
    let mut job = ReadbackJob::begin(100);
    let done = |now_ns| ReadbackEvent::Finished { now_ns };
    assert_eq!(pair.convert_step(&mut job, done(110)), ReadbackAction::Ask { set: 1 });
    let asked = |ready, now_ns| ReadbackEvent::Asked { ready, now_ns };
    assert_eq!(pair.convert_step(&mut job, asked(false, 120)), ReadbackAction::Ask { set: 1 });
    assert_eq!(pair.convert_step(&mut job, asked(true, 130)), ReadbackAction::Read { set: 1 });
    assert_eq!(pair.convert_step(&mut job, done(135)), ReadbackAction::Copy { set: 0 });
    assert_eq!(
        pair.convert_step(&mut job, done(150)),
        ReadbackAction::Done(GpuConvertTiming {
            dispatch_ns: 10,
            copy_ns: 20,
            map_ns: 5,
            total_ns: 50,
        })
    );
    assert_eq!(job.stage, ReadbackStage::Over);
    let mut next = ReadbackJob::begin(200);
    assert_eq!(pair.convert_step(&mut next, done(210)), ReadbackAction::Ask { set: 0 });
}

#[test]
fn planes_come_one_call_late() {
    let mut pair = StagingPair::new();
    let mut sets: Vec<Vec<u8>> = vec![vec![0; 16], vec![0; 16]];
    let mut seen = Vec::new();
    for n in 1..6u8 {
        let fails = n == 3;
        let mut job = ReadbackJob::begin(0);
        let mut planes = I420Planes::new_empty();
        let mut ev = ReadbackEvent::Finished { now_ns: 1 };
        loop {
            ev = match pair.convert_step(&mut job, ev) {
                ReadbackAction::Ask { .. } => ReadbackEvent::Asked { ready: true, now_ns: 2 },
                ReadbackAction::Read { .. } if fails => ReadbackEvent::Failed("x".to_string()),
                ReadbackAction::Read { set } => {
                    let s = &sets[set];
                    planes.read_back(4, 2, s, s, s);
                    ReadbackEvent::Finished { now_ns: 3 }
                }
                ReadbackAction::Copy { set } => {
                    sets[set] = vec![n; 16];
                    ReadbackEvent::Finished { now_ns: 4 }
                }
                ReadbackAction::Done(_) => {
                    assert_eq!((planes.y.len(), planes.u.len(), planes.v.len()), (8, 2, 2));
                    seen.push(planes.y[0]);
                    break;
                }
                ReadbackAction::Fail(_) => break,
            };
        }
    }
    assert_eq!(seen, vec![0, 1, 2, 4]);
}

#[test]
fn readback_times_out() {
    let mut pair = StagingPair::new();
    let mut job = ReadbackJob::begin(0);
    pair.convert_step(&mut job, ReadbackEvent::Finished { now_ns: 0 });
    let late = |now_ns| ReadbackEvent::Asked { ready: false, now_ns };
    assert_eq!(pair.convert_step(&mut job, late(200_000_000)), ReadbackAction::Ask { set: 1 });
    assert_eq!(
        pair.convert_step(&mut job, late(200_000_001)),
        ReadbackAction::Fail(ReadbackFailure::TimedOut)
    );
    assert_eq!(
        ReadbackFailure::TimedOut.error(),
        D3d11I420Error::MapFailed("GetData timeout (>200ms)".to_string())
    );
    let mut job = ReadbackJob::begin(0);
    let failure = ReadbackFailure::Call("x".to_string());
    assert_eq!(
        pair.convert_step(&mut job, ReadbackEvent::Failed("x".to_string())),
        ReadbackAction::Fail(failure.clone())
    );
    assert_eq!(failure.error(), D3d11I420Error::MapFailed("x".to_string()));
    assert_eq!(pair, StagingPair::new());
    assert_eq!(view_format(FORMAT_B8G8R8A8_UNORM_SRGB), FORMAT_B8G8R8A8_UNORM);
    assert_eq!(view_format(FORMAT_NV12), FORMAT_R8G8B8A8_UNORM);
}

#[test]
fn frames_take_the_other_way_once() {
    let mut c = to_nv12();
    let mut job = c.begin_convert();
    assert_eq!(job.path, ConvertPath::VideoProcessor);
    let bad = D3d11Nv12Error::Windows(E_INVALIDARG, "x".to_string());
    assert_eq!(
        c.convert_timed(&mut job, RunOutcome::Failed(bad.clone()), 1, 2),
        ConvertStep::Run(ConvertPath::ComputeShader)
    );
    assert!(c.use_cs && job.fell_back);
    assert_eq!(
        c.convert_timed(&mut job, RunOutcome::ShadedNv12 { blt_us: 7 }, 1, 8),
        ConvertStep::Done(nv12_timing(1, 8, 0, 7))
    );
    let mut job = c.begin_convert();
    assert_eq!(job.path, ConvertPath::ComputeShader);
    assert_eq!(
        c.convert_timed(&mut job, RunOutcome::Failed(bad.clone()), 1, 2),
        ConvertStep::Fail(bad.clone())
    );
    assert!(job.over);

    let mut s = Converter::new(Target::Bgra, 8, 8, 4, 4, 2, 1, true);
    let mut job = s.begin_convert();
    assert_eq!(
        s.convert_timed(&mut job, RunOutcome::Failed(bad.clone()), 1, 2),
        ConvertStep::Run(ConvertPath::VideoProcessor)
    );
    let done = RunOutcome::Processed { copy_us: 3, query_us: 4, blt_us: 5 };
    match s.convert_timed(&mut job, done, 1, 2) {
        ConvertStep::Done(t) => {
            assert_eq!((t.copy_us, t.query_us, t.blt_us, t.submit_us), (3, 4, 5, 2));
        }
        other => panic!("{:?}", other),
    }
    let mut job = s.begin_convert();
    assert_eq!(
        s.convert_timed(&mut job, RunOutcome::Failed(bad.clone()), 1, 2),
        ConvertStep::Fail(bad)
    );
}

#[test]
fn buffers_of_a_plane_have_one_size() {
    let b = create_buffers_and_uavs(4, 2);
    assert_eq!((b.y.gpu.byte_width, b.y.staging.byte_width, b.y.view_words), (16, 16, 2));
    assert_eq!((b.uv.gpu.byte_width, b.uv.staging.byte_width, b.uv.view_words), (16, 16, 1));
    let b = create_buffers_and_uavs(64, 32);
    assert_eq!((b.y.gpu.byte_width, b.y.staging.byte_width, b.y.view_words), (2048, 2048, 512));
    assert_eq!((b.uv.gpu.byte_width, b.uv.staging.byte_width), (512, 512));
}

#[test]
fn buffers_hold_whole_words() {
    let b = create_buffers_and_uavs(5, 3);
    assert_eq!(b.y.gpu.byte_width, 16);
    assert_eq!(b.y.staging.byte_width, 16);
    assert_eq!(b.y.view_words, 4);
    assert_eq!(b.uv.gpu.byte_width, 16);
    assert_eq!(b.uv.view_words, 1);
    assert_eq!(b.uv.staging.byte_width, 16);
    assert_eq!(b.uv.staging.cpu_access, CPU_ACCESS_READ);
    assert_eq!(b.params.byte_width, 32);
}

#[test]
fn ring_and_flush_sizes_follow_what_is_asked() {
    assert_eq!(startup_flush_frames(None), 3);
    assert_eq!(startup_flush_frames(Some("7")), 7);
    assert_eq!(startup_flush_frames(Some("many")), 3);
    assert_eq!(output_ring_size(None, 60), 4);
    assert_eq!(output_ring_size(None, 90), 16);
    assert_eq!(output_ring_size(Some("0"), 60), 1);
    assert_eq!(output_ring_size(Some("99"), 60), 16);
    assert!(prefers_compute_scale(None));
    assert!(!prefers_compute_scale(Some("False")));
}

#[test]
fn processor_prefers_speed_at_high_rates() {
    let u = video_usage_for_fps(None, 60);
    assert_eq!((u.prefer_speed, u.label.as_str(), u.asked.as_str()), (false, "optimal-quality", "<default:off>"));
    let u = video_usage_for_fps(None, 90);
    assert_eq!((u.prefer_speed, u.label.as_str(), u.asked.as_str()), (true, "optimal-speed", "<default:on>"));
    let u = video_usage_for_fps(Some("0"), 120);
    assert_eq!((u.prefer_speed, u.asked.as_str()), (false, "0"));
    assert!(video_usage_for_fps(Some("yes"), 30).prefer_speed);
}

#[test]
fn processor_capabilities_are_checked_in_order() {
    assert_eq!(check_capabilities(Some(1), Some(1), 1), Ok(()));
    assert_eq!(
        check_capabilities(Some(0), Some(0), 0),
        Err(D3d11Nv12Error::BgraInputNotSupported)
    );
    assert_eq!(
        check_capabilities(None, Some(0), 0),
        Err(D3d11Nv12Error::Nv12OutputNotSupported)
    );
    assert_eq!(check_capabilities(None, None, 0), Err(D3d11Nv12Error::NoRateConversionCaps));
}

fn to_nv12() -> D3d11BgraToNv12 {
    Converter::new(Target::Nv12, 64, 32, 64, 32, 2, 1, false)
}

fn input(format: u32, bind_flags: u32) -> InputTexture {
    InputTexture { width: 64, height: 32, format, bind_flags }
}

#[test]
fn suitable_input_is_converted_directly() {
    let mut c = to_nv12();
    assert_eq!(c.convert_path(), ConvertPath::VideoProcessor);
    let plan = c.convert_vp(input(FORMAT_B8G8R8A8_UNORM, BIND_RENDER_TARGET)).unwrap();
    assert_eq!(plan.input, VpInput::Direct);
    assert_eq!(plan.output_index, 0);
    assert!(plan.first_frame);
    assert_eq!(plan.color_space, 0x14);
    assert_eq!(plan.dest, rect_of_size(64, 32));
    assert!(c.take_state_init());
    assert!(!c.take_state_init());
    c.vp_done(plan.output_index);
    let next = c.convert_vp(input(FORMAT_B8G8R8A8_UNORM, BIND_RENDER_TARGET)).unwrap();
    assert_eq!(next.output_index, 1);
    assert!(!next.first_frame);
    assert_eq!((c.output_width(), c.output_height()), (64, 32));
}

#[test]
fn unsuitable_input_goes_through_a_copy() {
    let mut c = to_nv12();
    let plan = c.convert_vp(input(FORMAT_B8G8R8A8_UNORM, BIND_SHADER_RESOURCE)).unwrap();
    match plan.input {
        VpInput::Copy(Some(d)) => {
            assert_eq!((d.width, d.height, d.format), (64, 32, FORMAT_B8G8R8A8_UNORM));
            assert_eq!(d.bind_flags, BIND_RENDER_TARGET | BIND_SHADER_RESOURCE);
        }
        other => panic!("{:?}", other),
    }
    c.intermediate_created(Intermediate { width: 64, height: 32, format: FORMAT_B8G8R8A8_UNORM });
    let plan = c.convert_vp(input(FORMAT_B8G8R8A8_UNORM, 0)).unwrap();
    assert_eq!(plan.input, VpInput::Copy(None));
    let mut s = Converter::new(Target::Bgra, 64, 32, 32, 16, 2, 1, false);
    let plan = s.convert_vp(input(FORMAT_R8G8B8A8_UNORM, BIND_RENDER_TARGET)).unwrap();
    assert_eq!(plan.input, VpInput::Direct);
    assert_eq!(plan.color_space, 0);
}

#[test]
fn invalid_arguments_lead_to_the_compute_shader() {
    let mut c = to_nv12();
    let e = c.convert_vp(input(FORMAT_B8G8R8A8_UNORM_SRGB, BIND_RENDER_TARGET)).unwrap_err();
    assert_eq!(c.ring.cursor, 1);
    assert_eq!(c.vp_failed(e), Ok(ConvertPath::ComputeShader));
    assert_eq!(c.convert_path(), ConvertPath::ComputeShader);
    assert_eq!(c.convert_cs(), 1);
    c.resize(8, 8, 8, 8, 3, 2);
    assert!(c.use_cs);
    assert_eq!(c.ring, OutputRing::new(3));
    let mut d = to_nv12();
    let other = D3d11Nv12Error::Windows(1, "x".to_string());
    assert_eq!(d.vp_failed(other.clone()), Err(other));
    assert!(!d.use_cs);
    let mut s = Converter::new(Target::Bgra, 8, 8, 4, 4, 2, 1, true);
    let e = D3d11Nv12Error::Windows(E_INVALIDARG, "x".to_string());
    assert_eq!(s.vp_failed(e.clone()), Err(e));
    assert_eq!(s.cs_scale_failed(), ConvertPath::VideoProcessor);
    assert!(!s.use_cs);
}

#[test]
fn only_the_first_flushes_are_carried_out() {
    let mut c = to_nv12();
    assert_eq!(c.flush_timed(), None);
    assert!(c.flush_timed().unwrap().skipped);
    assert_eq!(c.flush_frames_remaining, 0);
}

#[test]
fn outputs_are_waited_for() {
    assert_eq!(wait_output_ready(true, 5, 9, 1), ReadyStep::Ready(4));
    assert_eq!(wait_output_ready(false, 5, 1_004, 1), ReadyStep::Again);
    assert_eq!(
        wait_output_ready(false, 5, 1_005, 1),
        ReadyStep::TimedOut(D3d11Nv12Error::OutputReadyTimeout(1))
    );
}

#[test]
fn timings_are_summed_without_overflow() {
    let t = nv12_timing(1, 2, 3, 4);
    assert_eq!((t.ctx_wait_us, t.submit_us, t.copy_us, t.blt_us, t.bind_us), (1, 2, 3, 4, 0));
    let mut s = ScaleCsSpans {
        srv_us: 1,
        bind_shader_us: 2,
        bind_cb_us: 3,
        bind_sampler_us: 4,
        bind_srv_us: 5,
        bind_uav_us: 6,
        dispatch_us: 7,
        unbind_us: 8,
        query_us: 9,
    };
    let t = scale_cs_timing(1, 2, s);
    assert_eq!((t.bind_state_us, t.bind_us, t.dispatch_us), (9, 20, 7));
    s.bind_srv_us = u64::MAX;
    assert_eq!(scale_cs_timing(1, 2, s).bind_us, u64::MAX);
}

#[test]
fn scaler_says_what_it_does_not_take() {
    let text = |r: Result<(), D3d11Nv12Error>| r.unwrap_err().message();
    assert_eq!(check_scale_input(input(FORMAT_B8G8R8A8_UNORM, 0), 64, 32), Ok(()));
    assert_eq!(
        text(check_scale_input(input(28, 0), 64, 32)),
        "Compute shader fallback failed: RGB compute scaler supports only BGRA input, got DXGI_FORMAT(28)"
    );
    assert_eq!(
        text(check_scale_input(input(FORMAT_B8G8R8A8_UNORM, 0), 60, 30)),
        "Compute shader fallback failed: RGB compute scaler input size mismatch: got 64x32, expected 60x30"
    );
    assert_eq!(check_scale_ring(Some(FORMAT_B8G8R8A8_UNORM)), Ok(()));
    assert_eq!(
        text(check_scale_ring(None)),
        "Compute shader fallback failed: RGB scaler output ring is empty"
    );
    assert_eq!(
        text(check_scale_ring(Some(103))),
        "Compute shader fallback failed: RGB compute scaler requires BGRA output textures, got DXGI_FORMAT(103)"
    );
    assert_eq!(check_single_view(28), Ok(()));
    assert!(check_single_view(FORMAT_NV12).is_err());
}

#[test]
fn conversion_errors_have_texts() {
    assert_eq!(
        D3d11Nv12Error::OutputReadyTimeout(50).message(),
        "Timed out waiting for NV12 output readiness after 50 ms"
    );
    assert_eq!(D3d11Nv12Error::Windows(1, "x".to_string()).message(), "Windows API error: x");
    assert_eq!(D3d11Nv12Error::NoVideoContext.message(), "ID3D11VideoContext not available");
    assert_eq!(
        D3d11Nv12Error::NoVideoDevice.message(),
        "ID3D11VideoDevice not available (device created without D3D11_CREATE_DEVICE_VIDEO_SUPPORT)"
    );
}

#[test]
fn shader_runs_cover_both_planes() {
    let y = nv12_run(Nv12Phase::Luma, 1920, 1080, 3840, 2160, true);
    assert_eq!(y.params, vec![1920, 1080, 0, 1, 3840, 2160, 0, 0]);
    assert_eq!((y.groups_x, y.groups_y), (120, 68));
    let uv = nv12_run(Nv12Phase::Chroma, 1920, 1080, 3840, 2160, false);
    assert_eq!(uv.params, vec![1920, 1080, 1, 0, 3840, 2160, 0, 0]);
    assert_eq!((uv.groups_x, uv.groups_y), (60, 34));
    let s = scale_run(3840, 2160, 1920, 1080);
    assert_eq!(s.params, vec![1920, 1080, 3840, 2160, 0, 0, 0, 0]);
    assert_eq!((s.groups_x, s.groups_y), (120, 68));
    assert_eq!(scale_params_index(5, 4), 1);
}

#[test]
fn shader_textures_have_both_planes() {
    let t = create_cs_textures_and_uavs(64, 32);
    assert_eq!((t.tex_y.width, t.tex_y.format), (64, FORMAT_R8_UNORM));
    assert_eq!((t.tex_uv.width, t.tex_uv.height, t.tex_uv.format), (32, 16, FORMAT_R8G8_UNORM));
    assert_eq!(t.staging_nv12.cpu_access, CPU_ACCESS_WRITE);
    assert_eq!(t.staging_y.usage, USAGE_STAGING);
    let d = output_texture_desc(Target::Bgra, 8, 4, true);
    assert_eq!(
        d.bind_flags,
        BIND_RENDER_TARGET | BIND_SHADER_RESOURCE | BIND_UNORDERED_ACCESS
    );
    assert_eq!(output_texture_desc(Target::Nv12, 8, 4, true).format, FORMAT_NV12);
}

#[test]
fn nv12_is_put_together() {
    let mut out = vec![0u8; 4 * 3];
    assemble_nv12(&mut out, 4, &[1, 2, 9, 3, 4, 9], 3, &[5, 6, 9], 3, 2, 2);
    assert_eq!(out, vec![1, 2, 0, 0, 3, 4, 0, 0, 5, 6, 0, 0]);
}

#[test]
fn decode_failure_is_remembered() {
    let mut p = DecodePath::new();
    assert!(!p.decode_gpu_failed());
    p.mark_decode_gpu_failed();
    assert!(p.decode_gpu_failed());
}

#[test]
fn colours_follow_the_stage() {
    assert!(flag_or(Some("TRUE"), false));
    assert!(!flag_or(Some("yes"), true));
    assert!(flag_or(None, true));
    let c = choose_colors(Some("3"), None, true);
    assert_eq!(
        c,
        ColorConfig {
            output_srgb: true,
            decoder_gamma: CompiledGamma::Off,
            use_runtime_gamma: false,
        }
    );
    assert_eq!(choose_colors(Some("4"), None, false).decoder_gamma, CompiledGamma::Stage);
    assert!(choose_colors(Some("9"), None, false).use_runtime_gamma);
    let c = choose_colors(None, Some("true"), true);
    assert!(c.output_srgb && !c.use_runtime_gamma);
    assert_eq!(c.decoder_gamma, CompiledGamma::Asked);
    assert!(!choose_colors(Some("300"), Some("TRUE"), false).output_srgb);
}

#[test]
fn shaders_are_chosen_and_defined() {
    assert_eq!(choose_shader(Some("1"), Some("1")), ShaderVariant::SolidRed);
    assert_eq!(choose_shader(None, Some("true")), ShaderVariant::GrayY);
    assert_eq!(choose_shader(Some("0"), None), ShaderVariant::Full);
    assert_eq!(shader_defines(false, false, None, false, false), "");
    assert_eq!(
        shader_defines(true, true, Some("2.2"), true, true),
        "#define OUTPUT_SRGB 1\n#define FULL_RANGE 1\n#define GAMMA_DECODER_ENABLED 1\n\
         #define GAMMA_DECODER 2.2\n#define GAMMA_RUNTIME 1\n#define UV_BILINEAR 1\n"
    );
    assert_eq!(create_small_params().byte_width, 16);
}

#[test]
fn i420_frames_are_planned() {
    let r = create_resources(64, 32);
    assert_eq!((r.tex_uv.width, r.tex_uv.height), (32, 16));
    assert_eq!(r.staging_rgba.cpu_access, CPU_ACCESS_READ);
    let c = D3d11I420ToRgba::new(64, 32);
    let p = c.convert(2048, 512, 512).unwrap();
    assert_eq!((p.luma_pitch, p.chroma_pitch, p.groups_x, p.groups_y), (64, 32, 4, 2));
    assert_eq!(p.rgba_len, 8192);
    assert_eq!(
        c.convert(2048, 511, 512),
        Err(D3d11RgbaError::MapFailed("I420 plane size mismatch".to_string()))
    );
    assert_eq!((c.width(), c.height()), (64, 32));
}

#[test]
fn lost_devices_are_reported() {
    assert_eq!(check_device_lost(None), Ok(()));
    assert_eq!(
        check_device_lost(Some("hung")),
        Err(D3d11RgbaError::DeviceLost("D3D11 device lost: hung".to_string()))
    );
    let asked = |ready, elapsed_us, removed: Option<&str>| RgbaEvent::Asked {
        ready,
        elapsed_us,
        removed: removed.map(|s| s.to_string()),
        last_error: "busy".to_string(),
    };
    let mut stage = RgbaStage::Waiting;
    assert_eq!(stage.convert_step(asked(false, 2_000_000, None)), RgbaAction::Ask);
    assert_eq!(stage, RgbaStage::Waiting);
    let late = stage.convert_step(asked(false, 2_000_001, None));
    assert_eq!(late, RgbaAction::Fail(RgbaFailure::TimedOut("busy".to_string())));
    assert_eq!(
        RgbaFailure::TimedOut("busy".to_string()).error(),
        D3d11RgbaError::DeviceLost("GPU query timeout (2s), last err: busy".to_string())
    );
    let mut stage = RgbaStage::Waiting;
    let lost = stage.convert_step(asked(false, 0, Some("hung")));
    assert_eq!(lost, RgbaAction::Fail(RgbaFailure::Lost("hung".to_string())));
    let mut stage = RgbaStage::Waiting;
    let ready = stage.convert_step(asked(true, 9_000_000, Some("hung")));
    assert_eq!(ready, RgbaAction::CheckDevice);
    assert_eq!(
        RgbaFailure::Call("x".to_string()).error(),
        D3d11RgbaError::MapFailed("x".to_string())
    );
}

#[test]
fn i420_frames_go_step_by_step() {
    let mut stage = RgbaStage::Uploading;
    assert_eq!(stage.convert_step(RgbaEvent::Finished), RgbaAction::CheckDevice);
    assert_eq!(stage.convert_step(RgbaEvent::Checked(None)), RgbaAction::WriteParams);
    assert_eq!(stage.convert_step(RgbaEvent::Finished), RgbaAction::Dispatch);
    assert_eq!(stage.convert_step(RgbaEvent::Finished), RgbaAction::CheckDevice);
    assert_eq!(stage.convert_step(RgbaEvent::Checked(None)), RgbaAction::Copy);
    assert_eq!(stage.convert_step(RgbaEvent::Finished), RgbaAction::Ask);
    let ready = RgbaEvent::Asked {
        ready: true,
        elapsed_us: 1,
        removed: None,
        last_error: String::new(),
    };
    assert_eq!(stage.convert_step(ready), RgbaAction::CheckDevice);
    assert_eq!(stage.convert_step(RgbaEvent::Checked(None)), RgbaAction::Read);
    assert_eq!(stage.convert_step(RgbaEvent::Finished), RgbaAction::Done);
    assert_eq!(stage, RgbaStage::Over);
    let mut lost = RgbaStage::CheckingRun;
    assert_eq!(
        lost.convert_step(RgbaEvent::Checked(Some("hung".to_string()))),
        RgbaAction::Fail(RgbaFailure::Lost("hung".to_string()))
    );
}

#[test]
fn nv12_frames_create_textures_once() {
    let colors = choose_colors(None, None, false);
    let mut c = D3d11Nv12ToRgba::new(None, true, colors, Some("1"));
    assert!(c.full_range());
    let p = c.convert(64, 32);
    let made = p.create.unwrap();
    assert_eq!(made.display.misc_flags, MISC_SHARED);
    assert_eq!(made.output.misc_flags, 0);
    assert_eq!(made.staging.format, FORMAT_NV12);
    assert_eq!(p.params_bound, 2);
    assert_eq!((p.groups_x, p.groups_y), (8, 4));
    c.resources_created(64, 32, 5);
    assert_eq!(c.get_shared_handle(), Some(5));
    assert!(c.convert(64, 32).create.is_none());
    assert!(c.convert(32, 32).create.is_some());
    c.resources_created(32, 32, 0);
    assert_eq!(c.get_shared_handle(), None);
    assert_eq!(nv12_plane_view(true), (FORMAT_R8_UNORM, 0));
    assert_eq!(nv12_plane_view(false), (FORMAT_R8G8_UNORM, 1));
    assert_eq!(rgba_readback(64, 32).1, 8192);
}

fn adapter(name: &str, memory: u64, software: bool) -> AdapterInfo {
    let units: Vec<u16> = name.encode_utf16().chain(vec![0u16, 65]).collect();
    adapter_info(&units, if software { 2 } else { 0 }, memory, 0, Some(3))
}

#[test]
fn adapters_are_described() {
    let a = adapter("GPU", 536_870_913, false);
    assert_eq!(a.name, "GPU");
    assert_eq!(a.adapter_idx, 3);
    assert!(a.is_discrete && !a.software);
    assert_eq!(adapter("", 0, true).name, "Adapter 3");
    assert!(!adapter("x", 536_870_912, true).is_discrete);
    assert_eq!(adapter_info(&vec![65, 66], 0, 0, 0, None).name, "Unknown adapter");
    assert_eq!(selection_line(&a), "[gpu_device] Selected GPU: GPU (discrete; 512 MB VRAM)");
}

#[test]
fn best_adapter_is_chosen() {
    let list = vec![
        adapter("soft", u64::MAX, true),
        adapter("small", 600_000_000, false),
        adapter("big", 900_000_000, false),
        adapter("twin", 900_000_000, false),
    ];
    assert_eq!(select_place(&list, None), Ok(3));
    assert_eq!(select_place(&list, Some("0")), Ok(0));
    assert_eq!(select_best(&list, Some("0")), Ok(3));
    assert_eq!(select_best(&list, Some("4")), Err(GpuDeviceError::InvalidAdapterIndex(4, 3)));
    assert_eq!(select_best(&list, Some("x")), Err(GpuDeviceError::InvalidAdapterIndex(0, 3)));
    assert_eq!(select_best(&Vec::new(), None), Err(GpuDeviceError::NoAdapter));
    assert_eq!(select_best(&list[..1].to_vec(), None), Err(GpuDeviceError::NoAdapter));
    assert_eq!(check_feature_level(0xb100), Ok(()));
    assert_eq!(check_feature_level(0xa100), Err(GpuDeviceError::FeatureLevelNotSatisfied));
    assert_eq!(
        GpuDeviceError::InvalidAdapterIndex(4, 3).message(),
        "Adapter index 4 out of range (max 3)"
    );
    assert_eq!(
        GpuDeviceError::NoAdapter.message(),
        "No suitable GPU adapter found (all SOFTWARE or empty)"
    );
    assert_eq!(
        GpuDeviceError::DeviceCreation("x".to_string()).message(),
        "D3D11 device creation failed: x"
    );
}

fn stamps() -> GpuTimestamps {
    GpuTimestamps {
        capture_start: 1_000,
        copy_done: 3_999,
        convert_done: 3_000,
        encode_submit: 10_000,
        encode_done: 30_000,
    }
}

fn timing(encode_us: u64) -> GpuTiming {
    GpuTiming { ctx_wait_us: 1, submit_us: 2, copy_us: 3, blt_dispatch_us: 4, encode_us }
}

#[test]
fn stages_are_measured_in_microseconds() {
    let t = stamps();
    assert_eq!(t.stage_us(GpuStage::CaptureStart, GpuStage::CopyDone), 2);
    assert_eq!(t.stage_us(GpuStage::CopyDone, GpuStage::ConvertDone), 0);
    assert_eq!(
        verbose_line(4, &t),
        "[gpu_timeline] frame 4: capture=2us copy=0us convert=7us encode=20us"
    );
    assert_eq!(GpuStage::EncodeSubmit.name(), "encode_submit");
    assert_eq!(GpuStage::CopyDone.pix_color(), 0xffff80ff);
    assert_eq!(timing(5).total_latency_us(), 3);
}

#[test]
fn device_is_opened_under_the_number_of_the_chosen_adapter() {
    let units: Vec<u16> = "GPU".encode_utf16().collect();
    let at = |number| adapter_info(&units, 0, 900_000_000, 0, Some(number));
    assert_eq!(select_place(&vec![at(1)], None), Ok(0));
    assert_eq!(select_best(&vec![at(1)], None), Ok(1));
    assert_eq!(select_best(&vec![at(0), at(1)], None), Ok(1));
    assert_eq!(select_best(&vec![at(0), at(2)], Some("1")), Ok(2));
    assert_eq!(
        select_best(&vec![at(1)], Some("1")),
        Err(GpuDeviceError::InvalidAdapterIndex(1, 0))
    );
}

#[test]
fn empty_timeline_can_be_read() {
    let mut tl = GpuTimeline::new(0);
    assert!(tl.recent(3).is_empty());
    assert_eq!(tl.average_timing(5), GpuTiming::zero());
    assert_eq!(tl.export_json(4), "{\"frames\":[]}");
    tl.init_pix();
    tl.set_timestamp_freq(7);
    assert_eq!((tl.capacity, tl.cursor, tl.timestamp_freq()), (0, 0, 7));
}

#[test]
fn timeline_keeps_the_newest_frames() {
    let mut tl = GpuTimeline::new(3);
    assert_eq!(tl.average_timing(5), GpuTiming::zero());
    for f in 0..5u64 {
        assert_eq!(tl.record(f, 0, stamps(), timing(f * 10_000)), None);
    }
    let frames: Vec<u64> = tl.recent(10).iter().map(|e| e.frame).collect();
    assert_eq!(frames, vec![2, 3, 4]);
    let last: Vec<u64> = tl.recent(2).iter().map(|e| e.frame).collect();
    assert_eq!(last, vec![3, 4]);
    assert_eq!(tl.recent(1)[0].gpu_busy_us, 16_666);
    assert_eq!(tl.average_timing(2).encode_us, 35_000);
    assert_eq!(
        tl.export_json(1),
        "{\"frames\":[{\"frame\":4,\"stages\":[{\"name\":\"capture\",\"gpu_us\":2},\
         {\"name\":\"copy\",\"gpu_us\":0},{\"name\":\"convert\",\"gpu_us\":7},\
         {\"name\":\"encode\",\"gpu_us\":20}]}]}"
    );
    assert_eq!(GpuTimeline::new(1).export_json(4), "{\"frames\":[]}");
    tl.init_pix();
    assert_eq!(tl.record(9, 0, stamps(), timing(1)), Some("frame_9".to_string()));
    tl.init_nsight();
    assert!(tl.nsight_active);
    tl.set_timestamp_freq(5);
    assert_eq!(tl.timestamp_freq(), 5);
}

#[test]
fn time_stamps_are_scaled_by_the_frequency() {
    let mut q = D3d11TimestampQueries::new(true, &vec![true, false, true]);
    assert_eq!(q.stage_count, 2);
    assert!(q.timestamp(1) && !q.timestamp(2));
    assert_eq!(q.frequency(), get_timestamp_frequency());
    assert!(!q.end(Some((true, 10))));
    assert!(!q.end(None));
    assert_eq!(q.frequency(), 1_000_000_000);
    assert!(q.end(Some((false, 10))));
    assert_eq!(q.timestamp_to_ns(3), 300_000_000);
    assert!(q.end(Some((false, 1_000_000_000))));
    assert_eq!(q.timestamp_to_ns(u64::MAX), u64::MAX);
    assert!(q.end(Some((false, 3_000_000_000))));
    assert_eq!(q.timestamp_to_ns(100_000_000_000), 33_333_333_333);
    assert!(q.end(Some((false, 0))));
    assert_eq!(q.timestamp_to_ns(3), 0);
    assert_eq!(q.get_timestamps(&vec![Some(4), None]), vec![4, 0]);
}

#[test]
fn timeline_errors_have_texts() {
    let s = || "x".to_string();
    assert_eq!(PixError::RuntimeNotAvailable(s()).message(), "PIX runtime not available: x");
    assert_eq!(PixError::MarkerFailed(s()).message(), "PIX marker creation failed: x");
    assert_eq!(NsightError::RuntimeNotAvailable(s()).message(), "Nsight runtime not available: x");
    assert_eq!(NsightError::SessionFailed(s()).message(), "Nsight session creation failed: x");
    assert_eq!(GpuQueryError::CreateFailed(s()).message(), "Failed to create D3D11 query: x");
    assert_eq!(GpuQueryError::Timeout.message(), "Query data not available after timeout");
}
