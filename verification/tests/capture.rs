use astrix_client::d3d11::{
    Rect, TextureDesc, BIND_RENDER_TARGET, BIND_SHADER_RESOURCE, FORMAT_B8G8R8A8_UNORM,
    FORMAT_B8G8R8A8_UNORM_SRGB,
};
use astrix_client::denoise::{
    check_frame_buffers, deepfilternet_dll_path, deepfilternet_model_path, default_model_id,
    default_reduce_mask_id, denoise_models_dir, dll_candidates, env_bool, find_dll_in_vendor,
    find_model_in_vendor, is_denoise_disabled_model, is_known_model, is_known_reduce_mask,
    is_model_downloaded, known_models, known_reduce_masks, microphone_denoise_enabled, MicrophoneSetting,
    model_label, normalize_model_id, normalize_reduce_mask_id, reduce_mask_label, AudioDenoiser,
    DirEntry, FilterStep, FrameQueue, ModelPlace, NamedPath, ReduceMaskKind, SelectedDenoiseState,
};
use astrix_client::dxgi_duplication::{
    acquire_next_frame, metadata_capacity, metadata_counts, select_monitor, select_output,
    wide_to_string, AcquireResult, AcquiredDesktopFrame, DxgiDuplicationError, MonitorInfo,
    OutputCandidate, ERROR_ACCESS_LOST, ERROR_WAIT_TIMEOUT,
};
use astrix_client::gpu_device::GpuDeviceError;
use astrix_client::mft_encoder::EncodedFrame;
use astrix_client::minimal_dxgi_process::{
    parse_monitor_index, parse_screen_source_monitor, run_from_env_if_requested,
    select_dxgi_output, CaptureTick, Config, CopyStage, WindowStats,
};
use astrix_client::probe::{
    count_timeout, create_probe_input_texture, drain_goes_on, frame_timestamp_us, overlay_windows,
    record_drained_output,
    parse_args, record_encoded_output, Args, ArgsStop, BorderWindow, EncodeAction, EncodeEvent,
    EncodeStage, EncodeSummary, EncodedOutputStats, FrameEncode, Metric,
};
use astrix_client::rows::{contains, contains_id, find, remove_key};
use astrix_client::state::TypingUser;
use astrix_client::text;

fn monitor(x: i32, width: u32) -> MonitorInfo {
    MonitorInfo { name: "M".to_string(), x, y: 0, width, height: 1080 }
}

fn output(idx: u32, attached: bool, left: i32, right: i32) -> OutputCandidate {
    OutputCandidate {
        adapter_idx: 0,
        adapter_name: "A".to_string(),
        output_idx: idx,
        device_name: " D1 \0junk".encode_utf16().collect(),
        attached,
        desktop: Rect { left, top: 0, right, bottom: 1080 },
    }
}

#[test]
fn monitors_are_selected_by_number() {
    assert_eq!(select_monitor(0, None), Err(DxgiDuplicationError::NoMonitors));
    assert_eq!(select_monitor(2, None), Ok(0));
    assert_eq!(select_monitor(2, Some(1)), Ok(1));
    assert_eq!(
        select_monitor(2, Some(5)),
        Err(DxgiDuplicationError::InvalidMonitorIndex(5, 1))
    );
}

#[test]
fn outputs_are_matched_by_place_and_then_by_number() {
    let outputs = vec![
        output(0, true, 0, 1920),
        output(1, false, 1920, 3840),
        output(2, true, 1920, 3840),
    ];
    assert_eq!(select_output(&outputs, &monitor(1920, 1920), 0), Ok(2));
    assert_eq!(select_output(&outputs, &monitor(50, 1920), 1), Ok(2));
    assert_eq!(
        select_output(&outputs, &monitor(-50, 1920), 2),
        Err(DxgiDuplicationError::OutputNotFound(2, "M 1920x1080 at -50,0".to_string()))
    );
    let s = output(3, true, 5, 3).into_selected(4, "M".to_string());
    assert_eq!((s.width, s.height, s.desktop_x), (0, 1080, 5));
    assert_eq!(s.output_name, "D1");
    let wide = vec![output(0, true, i32::MIN, i32::MAX), output(1, true, 7, 8)];
    assert_eq!(select_output(&wide, &monitor(7, 1), 0), Ok(1));
    assert_eq!(select_output(&wide, &monitor(i32::MIN, u32::MAX), 1), Ok(0));
    assert_eq!(s.monitor_idx, 4);
    let wide: Vec<u16> = "\tname \0".encode_utf16().collect();
    assert_eq!(wide_to_string(&wide), "name");
}

#[test]
fn capture_results_are_told_apart() {
    let failed = |code| acquire_next_frame(AcquireResult::Failed(code, "x".to_string()));
    assert_eq!(acquire_next_frame(AcquireResult::Acquired), Ok(true));
    assert_eq!(failed(ERROR_WAIT_TIMEOUT), Ok(false));
    assert_eq!(failed(ERROR_ACCESS_LOST), Err(DxgiDuplicationError::AccessLost));
    assert_eq!(failed(5), Err(DxgiDuplicationError::Win("x".to_string())));
}

#[test]
fn duplication_errors_have_texts() {
    assert_eq!(DxgiDuplicationError::NoMonitors.message(), "No monitors found");
    assert_eq!(
        DxgiDuplicationError::InvalidMonitorIndex(5, 1).message(),
        "Monitor index 5 out of range (max 1)"
    );
    assert_eq!(
        DxgiDuplicationError::OutputNotFound(2, "M".to_string()).message(),
        "DXGI output not found for monitor 2 (M)"
    );
    assert_eq!(DxgiDuplicationError::AccessLost.message(), "DXGI duplication access lost");
    assert_eq!(
        DxgiDuplicationError::Monitor("x".to_string()).message(),
        "Monitor enumeration failed: x"
    );
    assert_eq!(
        DxgiDuplicationError::GpuDevice(GpuDeviceError::FeatureLevelNotSatisfied).message(),
        "GPU device error: Feature level 11.0 not satisfied"
    );
    assert_eq!(DxgiDuplicationError::Win("x".to_string()).message(), "Windows API error: x");
}

#[test]
fn metadata_counts_fit_their_room() {
    assert_eq!(metadata_capacity(100), (4, 6));
    assert_eq!(metadata_counts(48, 48), (2, 3));
}

#[test]
fn frames_are_released_once() {
    let mut f = AcquiredDesktopFrame::new(true);
    assert!(f.texture() && f.release_due());
    f.release(false);
    assert!(f.release_due());
    f.release(true);
    assert!(!f.release_due() && !f.texture());
}

#[test]
fn capture_process_is_configured_by_the_environment() {
    assert!(run_from_env_if_requested(Some("on")));
    assert!(!run_from_env_if_requested(None));
    assert_eq!(
        Config::from_env(None, None, None, None, None),
        Config { monitor: 0, timeout_ms: 2, ring_size: 4, wait_copy_ready: false }
    );
    assert_eq!(
        Config::from_env(Some("x"), Some("monitor:3"), Some("16"), Some("0"), Some("1")),
        Config { monitor: 3, timeout_ms: 16, ring_size: 1, wait_copy_ready: true }
    );
    assert_eq!(parse_monitor_index(Some("2"), Some("monitor:3")), 2);
    assert_eq!(parse_screen_source_monitor("7"), Some(7));
    assert_eq!(parse_screen_source_monitor("window:1:2"), None);
    assert_eq!(parse_screen_source_monitor("monitor:x"), None);
}

#[test]
fn capture_attempts_are_counted() {
    let mut s = WindowStats::new(10);
    assert_eq!(s.count(CaptureTick::Acquired), 0);
    assert_eq!(s.count(CaptureTick::Timeout), 0);
    assert_eq!(s.count(CaptureTick::CopyFailed), 0);
    assert_eq!(s.count(CaptureTick::AccessLost { reinitialized: true }), 0);
    assert_eq!(s.count(CaptureTick::AccessLost { reinitialized: false }), 100);
    assert_eq!(s.count(CaptureTick::Failed), 10);
    assert_eq!(
        s.report("59.9"),
        "minimal=1 capture_fps=59.9 acquire_ok=2 wait_timeout_count=1 access_lost_count=2 \
         acquire_errors=2 copy_fail_count=1"
    );
    assert_eq!(s.emit_and_reset(1_000_009), None);
    assert_eq!(s.emit_and_reset(1_000_010).unwrap().acquire_ok, 2);
    assert_eq!(s, WindowStats::new(1_000_010));
}

#[test]
fn outputs_are_numbered_over_all_adapters() {
    let counts = vec![2, 0, 3];
    assert_eq!(select_dxgi_output(&counts, 0), Ok((0, 0)));
    assert_eq!(select_dxgi_output(&counts, 1), Ok((0, 1)));
    assert_eq!(select_dxgi_output(&counts, 2), Ok((2, 0)));
    assert_eq!(select_dxgi_output(&counts, 4), Ok((2, 2)));
    assert_eq!(
        select_dxgi_output(&counts, 5),
        Err("monitor 5 not found via DXGI".to_string())
    );
}

fn desc(format: u32) -> TextureDesc {
    TextureDesc {
        width: 8,
        height: 4,
        format,
        usage: 3,
        bind_flags: 1,
        cpu_access: 2,
        misc_flags: 3,
    }
}

#[test]
fn copies_go_round_their_ring() {
    let mut c = CopyStage::new(2, true);
    let d = c.ensure_ring(desc(FORMAT_B8G8R8A8_UNORM)).unwrap();
    assert_eq!((d.bind_flags, d.cpu_access, d.misc_flags, d.usage), (0, 0, 0, 3));
    c.ring_created(2);
    assert_eq!(c.ensure_ring(desc(FORMAT_B8G8R8A8_UNORM)), None);
    assert_eq!((c.copy(), c.copy(), c.copy()), (0, 1, 0));
}

#[test]
fn copies_go_round_a_partial_ring() {
    let mut c = CopyStage::new(4, false);
    c.ring_created(0);
    assert!(c.ensure_ring(desc(FORMAT_B8G8R8A8_UNORM)).is_some());
    c.ring_created(3);
    assert_eq!(c.ensure_ring(desc(FORMAT_B8G8R8A8_UNORM)), None);
    assert_eq!((c.copy(), c.copy(), c.copy(), c.copy()), (0, 1, 2, 0));
}

#[test]
fn counters_are_counted_while_they_have_room() {
    let mut stats = WindowStats::new(5);
    assert!(stats.can_count(CaptureTick::Failed));
    stats.acquire_errors = u64::MAX;
    assert!(!stats.can_count(CaptureTick::Failed));
    assert!(!stats.can_count(CaptureTick::AccessLost { reinitialized: false }));
    assert!(stats.can_count(CaptureTick::AccessLost { reinitialized: true }));
    stats.acquire_ok = u64::MAX;
    assert!(!stats.can_count(CaptureTick::Acquired) && stats.can_count(CaptureTick::Timeout));
}

fn args(words: Vec<&str>) -> Result<Args, ArgsStop> {
    let words: Vec<String> = words.into_iter().map(|s| s.to_string()).collect();
    let reals: Vec<bool> = words.iter().map(|w| w.parse::<f64>().is_ok()).collect();
    parse_args(&words, &reals)
}

#[test]
fn probe_options_are_read() {
    assert_eq!(args(vec![]), Ok(Args::standard()));
    let a = args(vec![
        "--screen", "1", "--width", "640", "--height", "480", "--fps", "30", "--bitrate-mbps",
        "4.5", "--frames", "7", "--acquire-timeout-ms", "1", "--ready-timeout-ms", "2",
        "--collect-timeout-ms", "3", "--max-timeouts", "4", "--overlay-thickness", "-2",
    ])
    .unwrap();
    assert_eq!((a.screen, a.width, a.height, a.fps, a.frames), (1, 640, 480, 30, 7));
    assert_eq!(a.bitrate_mbps, Some("4.5".to_string()));
    assert_eq!((a.acquire_timeout_ms, a.ready_timeout_ms, a.collect_timeout_ms), (1, 2, 3));
    assert_eq!((a.max_timeouts, a.overlay_thickness), (4, -2));
    assert!(a.nvenc && a.overlay);
}

#[test]
fn probe_refuses_bad_options() {
    assert_eq!(args(vec!["--help"]), Err(ArgsStop::Help));
    assert_eq!(args(vec!["--fps"]), Err(ArgsStop::Missing("--fps".to_string())));
    assert_eq!(args(vec!["--speed", "1"]), Err(ArgsStop::Unknown("--speed".to_string())));
    assert!(matches!(args(vec!["--fps", "x"]), Err(ArgsStop::Invalid(_))));
    assert!(matches!(args(vec!["--bitrate-mbps", "x"]), Err(ArgsStop::Invalid(_))));
    assert!(matches!(
        args(vec!["--overlay-thickness", "2147483648"]),
        Err(ArgsStop::Invalid(_))
    ));
    assert_eq!(
        ArgsStop::Missing("--fps".to_string()).message(),
        Some("missing value for --fps".to_string())
    );
    assert_eq!(
        ArgsStop::Unknown("-x".to_string()).message(),
        Some("unknown argument: -x".to_string())
    );
    assert_eq!(ArgsStop::Help.message(), None);
}

#[test]
fn metrics_keep_least_largest_and_sum() {
    let mut m = Metric::new();
    for v in vec![5u128, 3, 9] {
        m.push(v);
    }
    assert_eq!(m, Metric { count: 3, total_us: 17, min_us: 3, max_us: 9 });
}

#[test]
fn encoded_output_is_recorded() {
    let mut s = EncodeSummary::new();
    let frames = vec![
        EncodedFrame { data: vec![1, 2, 3], timestamp_us: 0, key_frame: true },
        EncodedFrame { data: vec![4], timestamp_us: 0, key_frame: false },
    ];
    let r = record_encoded_output(&mut s, Some((&frames, 50)), 7);
    assert_eq!(r, EncodedOutputStats { frames: 2, key_frames: 1, bytes: 4 });
    let r = record_encoded_output(&mut s, None, 8);
    assert_eq!(r, EncodedOutputStats::none());
    assert_eq!(s.collect_none, 1);
    assert_eq!(s.collect_wait.total_us, 15);
    assert_eq!(s.encode_reported.count, 1);
    s.encoded.merge(EncodedOutputStats { frames: 1, key_frames: 1, bytes: 10 });
    assert_eq!(s.encoded, EncodedOutputStats { frames: 3, key_frames: 2, bytes: 14 });
}

#[test]
fn full_queue_is_drained_until_the_frame_fits() {
    let mut s = EncodeSummary::new();
    let mut job = FrameEncode::begin();
    let frame = EncodedFrame { data: vec![1, 2], timestamp_us: 0, key_frame: true };
    let came = |wait_us| EncodeEvent::Collected {
        output: Some((vec![frame.clone()], 9)),
        wait_us,
    };
    assert_eq!(job.step(&mut s, EncodeEvent::QueueFull), EncodeAction::Collect);
    assert_eq!(job.step(&mut s, came(3)), EncodeAction::Submit);
    let submitted = EncodeEvent::Submitted { cpu_us: 1, gpu_total_us: 2, map_us: 3, pic_us: 4 };
    assert_eq!(job.step(&mut s, submitted), EncodeAction::Collect);
    assert_eq!(job.step(&mut s, came(4)), EncodeAction::Done);
    assert_eq!(job.stage, EncodeStage::Over);
    assert_eq!(job.collect_wait_us, 7);
    assert_eq!(job.outputs, EncodedOutputStats { frames: 2, key_frames: 2, bytes: 4 });
    assert_eq!((s.queue_full, s.pic.total_us, s.encode_reported.total_us), (1, 4, 18));

    let mut job = FrameEncode::begin();
    let nothing = || EncodeEvent::Collected { output: None, wait_us: 1 };
    job.step(&mut s, EncodeEvent::QueueFull);
    assert_eq!(job.step(&mut s, nothing()), EncodeAction::Collect);
    assert_eq!(job.step(&mut s, nothing()), EncodeAction::Done);
    assert_eq!(s.collect_none, 2);
    assert!(drain_goes_on(5, 4, true));
    assert!(!drain_goes_on(6, 4, true));
    assert!(!drain_goes_on(0, 4, false));
}

#[test]
fn closing_collect_is_counted_without_a_wait() {
    let mut s = EncodeSummary::new();
    let frames = vec![EncodedFrame { data: vec![1, 2], timestamp_us: 0, key_frame: false }];
    let came = EncodedOutputStats { frames: 1, key_frames: 0, bytes: 2 };
    assert_eq!(record_drained_output(&mut s, Some((&frames, 9)), 3, 0, 0), (came, true));
    assert_eq!(record_drained_output(&mut s, Some((&frames, 9)), 4, 1, 0), (came, false));
    let none = EncodedOutputStats::none();
    assert_eq!(record_drained_output(&mut s, None, 40, 0, 0), (none, false));
    assert_eq!(s.collect_none, 1);
    assert_eq!((s.collect_wait.count, s.collect_wait.total_us), (2, 7));
    assert_eq!(s.encode_reported.total_us, 18);
    record_drained_output(&mut s, None, 40, usize::MAX - 1, usize::MAX);
    assert_eq!((s.collect_none, s.collect_wait.count), (2, 2));
}

#[test]
fn probe_gives_up_after_too_many_timeouts() {
    assert_eq!(count_timeout(0, 2), Ok(1));
    assert_eq!(
        count_timeout(1, 2),
        Err("DXGI timed out waiting for a changed frame 2 times in a row; keep the target \
             monitor animated"
            .to_string())
    );
    assert_eq!(frame_timestamp_us(3, 120), 25_000);
    assert_eq!(frame_timestamp_us(3, 0), 3_000_000);
    assert_eq!(frame_timestamp_us(9_223_372_036_854, 1), 9_223_372_036_854_000_000);
    assert_eq!(frame_timestamp_us(18_446_744_073_709, 1), -551_616);
    assert_eq!(frame_timestamp_us(18_446_744_073_709, 2), 9_223_372_036_854_500_000);
}

#[test]
fn probe_draws_a_border() {
    let d = create_probe_input_texture(desc(FORMAT_B8G8R8A8_UNORM_SRGB));
    assert_eq!(d.format, FORMAT_B8G8R8A8_UNORM);
    assert_eq!(d.bind_flags, BIND_SHADER_RESOURCE | BIND_RENDER_TARGET);
    assert_eq!(
        overlay_windows(10, 20, 100, 50, 6),
        vec![
            BorderWindow { x: 10, y: 20, width: 100, height: 6 },
            BorderWindow { x: 10, y: 64, width: 100, height: 6 },
            BorderWindow { x: 10, y: 20, width: 6, height: 50 },
            BorderWindow { x: 104, y: 20, width: 6, height: 50 },
        ]
    );
    assert_eq!(overlay_windows(0, 0, 0, 0, 0)[0].width, 1);
    let far = overlay_windows(i32::MAX - 94, 0, 100, 50, 6);
    assert_eq!((far[3].x, far[3].width), (i32::MAX, 6));
    let thick = overlay_windows(0, 0, 4, 4, 10);
    assert_eq!((thick[1].y, thick[3].x), (-6, -6));
}

fn selected() -> SelectedDenoiseState {
    SelectedDenoiseState::new(1, 2, 3, 4, 5)
}

#[test]
fn models_and_masks_are_known() {
    let ids: Vec<&str> = known_models().iter().map(|m| m.id).collect();
    assert_eq!(
        ids,
        vec!["off", "DeepFilterNet3_ll_onnx.tar.gz", "DeepFilterNet3_onnx.tar.gz"]
    );
    let masks: Vec<&str> = known_reduce_masks().iter().map(|m| m.id).collect();
    assert_eq!(masks, vec!["none", "mean", "max"]);
    assert!(is_known_model(default_model_id()));
    assert!(is_known_reduce_mask(default_reduce_mask_id()));
    assert!(!is_known_model("OFF"));
    assert_eq!(model_label("off"), "Без шумодава");
    assert_eq!(model_label("x"), "DeepFilterNet model");
    assert_eq!(reduce_mask_label("mean"), "Mean");
    assert_eq!(reduce_mask_label("x"), "Max");
    assert_eq!(normalize_model_id("off"), "off");
    assert_eq!(normalize_model_id("x"), "DeepFilterNet3_onnx.tar.gz");
    assert_eq!(normalize_model_id(&normalize_model_id("x")), normalize_model_id("x"));
    assert_eq!(normalize_reduce_mask_id("x"), "max");
    assert!(is_denoise_disabled_model("off"));
    assert!(is_model_downloaded("off", false));
    assert!(!is_model_downloaded("x", false));
    assert_eq!(denoise_models_dir(), vec!["vendor", "deepfilternet", "models"]);
}

#[test]
fn masks_are_read_back_from_their_ids() {
    for (m, n) in vec![
        (ReduceMaskKind::NoMask, 0),
        (ReduceMaskKind::Max, 1),
        (ReduceMaskKind::Mean, 2),
    ] {
        assert_eq!(ReduceMaskKind::from_id(m.as_id()), m);
        assert_eq!(m.as_c_int(), n);
    }
}

#[test]
fn selecting_counts_changes() {
    let mut s = selected();
    assert_eq!(s.selected_model_id(), "DeepFilterNet3_onnx.tar.gz");
    s.set_selected_model("unknown");
    assert_eq!(s.selected_model_generation(), 0);
    s.set_selected_model("off");
    assert_eq!(s.selected_model_generation(), 1);
    s.set_denoise_reduce_mask("max");
    s.set_denoise_reduce_mask("mean");
    assert_eq!(s.selected_model_generation(), 2);
    s.set_denoise_atten_lim_db(9, false);
    assert_eq!(s.config.atten_lim_db, 1);
    s.set_denoise_atten_lim_db(9, true);
    s.set_denoise_post_filter_beta(8, true);
    s.set_denoise_thresholds(7, 6, 5, true);
    assert_eq!(s.selected_model_generation(), 5);
    let c = s.current_runtime_config();
    assert_eq!((c.atten_lim_db, c.post_filter_beta, c.min_db_thresh), (9, 8, 7));
    assert_eq!(c.reduce_mask, ReduceMaskKind::Mean);
}

#[test]
fn switches_are_read() {
    assert_eq!(env_bool(Some("True")), Some(true));
    assert_eq!(env_bool(Some("0")), Some(false));
    assert_eq!(env_bool(Some("maybe")), None);
    assert_eq!(env_bool(None), None);
    assert!(microphone_denoise_enabled(None));
    assert!(microphone_denoise_enabled(Some("maybe")));
    assert!(!microphone_denoise_enabled(Some("FALSE")));
}

#[test]
fn microphone_keeps_its_first_answer() {
    let mut off = MicrophoneSetting::new();
    assert_eq!((off.enabled(Some("0")), off.enabled(Some("1")), off.enabled(None)), (false, false, false));
    let mut on = MicrophoneSetting::new();
    assert_eq!((on.enabled(None), on.enabled(Some("false"))), (true, true));
    assert_eq!(on.answer, Some(true));
}

#[test]
fn generation_counts_what_took_effect() {
    let mut s = selected();
    s.generation = u64::MAX;
    s.set_selected_model("off");
    s.set_selected_model("off");
    s.set_denoise_reduce_mask("unknown");
    s.set_denoise_post_filter_beta(7, false);
    s.set_denoise_thresholds(1, 2, 3, true);
    assert_eq!(s.selected_model_generation(), 1);
    assert_eq!(s.config.max_db_df_thresh, 3);
}

#[test]
fn filters_are_rebuilt_where_needed() {
    let mut s = selected();
    let (mut d, step) = AudioDenoiser::new_receiver_voice(-3, &s);
    assert_eq!(step, FilterStep::Build);
    assert_eq!(d.label, "receiver-user--3");
    d.filter_result(true);
    assert_eq!(d.ensure_config_is_current(&s, true), FilterStep::Keep);
    s.set_denoise_atten_lim_db(9, true);
    assert_eq!(d.ensure_config_is_current(&s, true), FilterStep::Apply);
    d.filter_result(false);
    s.set_denoise_atten_lim_db(10, true);
    assert_eq!(d.ensure_config_is_current(&s, true), FilterStep::Build);
    d.filter_result(true);
    s.set_denoise_reduce_mask("mean");
    assert_eq!(d.ensure_config_is_current(&s, false), FilterStep::Build);
    s.set_selected_model("off");
    assert_eq!(d.ensure_config_is_current(&s, false), FilterStep::Drop);
    assert!(!d.active);
    s.set_denoise_atten_lim_db(11, true);
    assert_eq!(d.ensure_config_is_current(&s, true), FilterStep::Keep);
    assert_eq!(d.rebuild_backend(), FilterStep::Drop);
    let (m, step) = AudioDenoiser::new_sender_microphone(&s);
    assert_eq!(m.label, "sender-microphone");
    assert_eq!(step, FilterStep::Drop);
}

#[test]
fn samples_keep_their_order_through_frames() {
    assert!(matches!(FrameQueue::new(0), Err(s) if s == "DeepFilterNet reported frame length 0"));
    let mut q = FrameQueue::new(3).unwrap();
    q.push_samples(&vec![1, 2]);
    assert_eq!(q.next_frame(), None);
    q.push_samples(&vec![3, 4, 5]);
    assert_eq!(q.next_frame(), Some(vec![1, 2, 3]));
    assert_eq!(q.next_frame(), None);
    q.push_filtered(&vec![10, 20, 30]);
    let mut out = vec![7, 7];
    q.replace_samples(&mut out);
    assert_eq!(out, vec![10, 20]);
    let mut out = vec![7, 7];
    q.replace_samples(&mut out);
    assert_eq!(out, vec![30, 7]);
    assert_eq!(check_frame_buffers(3, 3), Ok(()));
    assert_eq!(
        check_frame_buffers(3, 4),
        Err("DeepFilterNet frame buffer size mismatch: in=3 out=4".to_string())
    );
}

#[test]
fn filter_library_is_looked_for() {
    assert_eq!(dll_candidates()[4], vec!["libdf", "libdf.dll"]);
    assert_eq!(find_dll_in_vendor(&vec![false, true, true]), Some(1));
    assert_eq!(find_dll_in_vendor(&vec![false]), None);
    let named = |exists| Some(NamedPath { path: "p", exists });
    assert_eq!(deepfilternet_dll_path(named(true), None, "v"), Ok("p".to_string()));
    assert_eq!(
        deepfilternet_dll_path(named(false), Some("f"), "v"),
        Err("ASTRIX_DF_DLL_PATH points to a missing DLL: p".to_string())
    );
    assert_eq!(deepfilternet_dll_path(None, Some("f"), "v"), Ok("f".to_string()));
    assert_eq!(
        deepfilternet_dll_path(None, None, "v"),
        Err("DeepFilterNet DLL not found. Set ASTRIX_DF_DLL_PATH or place libdf.dll/df.dll in v"
            .to_string())
    );
}

#[test]
fn models_are_looked_for() {
    let own = |exists| NamedPath { path: "own", exists };
    let named = Some(NamedPath { path: "p", exists: false });
    assert_eq!(
        deepfilternet_model_path(named, own(true), None, "m", "d"),
        Err("ASTRIX_DF_MODEL_PATH points to a missing model: p".to_string())
    );
    assert_eq!(
        deepfilternet_model_path(None, own(true), Some("f"), "m", "d"),
        Ok("own".to_string())
    );
    assert_eq!(
        deepfilternet_model_path(None, own(false), Some("f"), "m", "d"),
        Ok("f".to_string())
    );
    assert_eq!(
        deepfilternet_model_path(None, own(false), None, "m", "d"),
        Err("DeepFilterNet model 'm' not found in d. Download models or set ASTRIX_DF_MODEL_PATH."
            .to_string())
    );
    let no = vec![false, false, false];
    let yes = vec![false, true, false];
    let file = DirEntry { name: "DEEPFILTERNET3_ONNX.TAR.GZ".to_string(), is_file: true };
    let dir = DirEntry { name: "DeepFilterNet3_onnx.tar.gz".to_string(), is_file: false };
    assert_eq!(find_model_in_vendor(&yes, &yes, None, None), Some(ModelPlace::InModels(1)));
    assert_eq!(find_model_in_vendor(&no, &yes, None, None), Some(ModelPlace::InVendor(1)));
    let both = vec![dir.clone(), file.clone()];
    assert_eq!(
        find_model_in_vendor(&no, &no, Some(&both), None),
        Some(ModelPlace::VendorEntry(1))
    );
    assert_eq!(find_model_in_vendor(&no, &no, None, Some(&both)), None);
    assert_eq!(
        find_model_in_vendor(&no, &no, Some(&vec![dir]), Some(&vec![file])),
        Some(ModelPlace::ModelsEntry(0))
    );
}

#[test]
fn rows_are_found_and_removed_by_id() {
    let row = |id| TypingUser { user_id: id, name: String::new(), since: 0 };
    let mut rows = vec![row(1), row(2), row(1), row(3)];
    assert_eq!(find(&rows, 2), Some(1));
    assert_eq!(find(&rows, 9), None);
    assert!(contains(&rows, 3));
    remove_key(&mut rows, 1);
    assert_eq!(rows, vec![row(2), row(3)]);
    assert!(contains_id(&vec![4, 5], 5));
    assert!(!contains_id(&vec![4, 5], 6));
}

#[test]
fn numbers_are_written_and_read_back() {
    for n in vec![0u64, 7, 10, 99, 12_345, u64::MAX] {
        let s = text::decimal_text(n);
        assert_eq!(s, format!("{}", n));
        assert_eq!(text::parse_unsigned(&s, u64::MAX), Some(n));
    }
    for n in vec![0i64, -1, i64::MIN, i64::MAX] {
        let s = text::decimal_int_text(n);
        assert_eq!(s, format!("{}", n));
        assert_eq!(text::parse_i64(&s), Some(n));
    }
    for s in vec!["", "+", "-", "1x", " 1", "-1", "18446744073709551616"] {
        assert_eq!(text::parse_unsigned(s, u64::MAX), s.parse::<u64>().ok());
    }
    assert_eq!(text::parse_unsigned("+7", 7), Some(7));
    assert_eq!(text::parse_unsigned("8", 7), None);
    for s in vec!["", "+", "-", "--1", "-9223372036854775809", "+3"] {
        assert_eq!(text::parse_i64(s), s.parse::<i64>().ok());
    }
}

#[test]
fn texts_are_cut_and_joined() {
    for s in vec!["", "a", ":", "a:b", ":a::b:"] {
        let parts: Vec<String> = s.split(':').map(|p| p.to_string()).collect();
        assert_eq!(text::split(s, ':'), parts);
        assert_eq!(text::join(&parts, ":"), s);
    }
    for s in vec!["", "  ", "\u{2003}x y\u{85}", "\u{200b}z"] {
        assert_eq!(text::trim(s), s.trim());
    }
    assert_eq!(text::trim_matches("\"a\"b\"\"", '"'), "a\"b");
    assert_eq!(text::trim_end_matches("xaxx", 'x'), "xa");
    assert_eq!(text::trim_start_matches("ababac", "ab"), "ac");
    assert_eq!(text::trim_start_matches("abc", ""), "abc".trim_start_matches(""));
    assert!(text::starts_with("image/png", "image/"));
    assert!(!text::starts_with("im", "image/"));
    assert!(text::eq_ignore_ascii_case("TrUe", "tRuE"));
    assert!(!text::eq_ignore_ascii_case("É", "é"));
    assert_eq!(text::to_ascii_lowercase("AZÉ"), "azÉ");
    assert!(text::same("a", "a") && !text::same("a", "ab"));
}

#[test]
fn wide_texts_are_decoded() {
    let units: Vec<u16> = "aЖ🔊".encode_utf16().collect();
    assert_eq!(text::wide_text(&units), "aЖ🔊");
    let broken = vec![0x61u16, 0xd800, 0x62, 0xdc00];
    assert_eq!(text::wide_text(&broken), String::from_utf16_lossy(&broken));
    let mut hex = String::new();
    text::push_hexadecimal(&mut hex, 0xdead_beef);
    assert_eq!(hex, "deadbeef");
    assert_eq!(text::byte_range("aЖb", 1, 3), "Ж");
}
