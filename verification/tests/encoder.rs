use astrix_client::d3d11::TextureDesc;
use astrix_client::encoded_h264::{
    AutoStep, Backend, Call, CallAction, CallEvent, CallStage, EncodedBackendKind,
    EncodedH264Encoder, EncodedH264EncoderError, NvencD3d11Error, NvencSession, Operation,
    RatesAction, RatesEvent, RatesPlan,
};
use astrix_client::h264::contains_idr_nal;
use astrix_client::mft_device::{
    check_shared_texture, shared_texture_desc, D3d11SharedTextureError, InitStep, SharedDevice,
    SharedTrial, MISC_SHARED_KEYEDMUTEX,
};
use astrix_client::mft_encoder::{
    avg_us, drain_output, poll_step, Attempt, CollectStep, EncodeAction, EncodeEvent, EncodeStage,
    EncodedFrame, InputResult, MftEncoderError, MftH264Encoder, OutputResult, PolledEvents,
    SubmitAction, SubmitDiagWindow, SubmitEvent, SubmitStage, ME_TRANSFORM_HAVE_OUTPUT,
    ME_TRANSFORM_NEED_INPUT,
};
use astrix_client::mft_setup::{
    codec_settings, create_input_media_type, create_mft, create_output_media_type,
    extract_h264_from_sample, frame_rate_attribute, frame_size_attribute, get_friendly_name,
    is_key_frame_sample, is_switched_off, negotiate_type, sample_times, EncoderChoice,
    HardwareTrial, StreamEnd, TypeEvent, TypeStage, MAX_MEDIA_TYPES,
};

fn encoder() -> MftH264Encoder {
    MftH264Encoder::new(1920, 1080, 60, 6_000_000, "Test MFT".to_string(), true, true, 0)
}

fn frame(n: u8) -> EncodedFrame {
    EncodedFrame { data: vec![n], timestamp_us: n as i64, key_frame: false }
}

fn input(result: InputResult, now_us: u64) -> SubmitEvent {
    SubmitEvent::Input { result, us: 3, now_us }
}

fn polled(found: bool, need_input: u32, have_output: u32) -> SubmitEvent {
    SubmitEvent::Polled {
        events: PolledEvents { found, need_input, have_output },
        poll_loops: 2,
        wait_us: 7,
    }
}

fn submit_at_once(enc: &mut MftH264Encoder, rtp_ts: u32, key_frame: bool, now: u64) {
    let mut job = enc.submit(key_frame, rtp_ts, 5, 10, now, 1).unwrap();
    let action = enc.submit_step(&mut job, input(InputResult::Accepted, now));
    assert_eq!(action, SubmitAction::Submitted);
    assert_eq!(job.stage, SubmitStage::Over);
}

#[test]
fn accepted_frame_is_in_flight() {
    let mut enc = encoder();
    submit_at_once(&mut enc, 900, true, 100);
    assert_eq!(enc.frame_count, 1);
    assert_eq!(enc.meta_queue.len(), 1);
    assert_eq!(enc.meta_queue[0].rtp_ts, 900);
    assert_eq!(enc.meta_queue[0].submit_time, 100);
    assert!(enc.meta_queue[0].requested_key_frame);
    assert_eq!(enc.submit_diag.submits, 1);
    assert_eq!(enc.submit_diag.initial_ok, 1);
    assert_eq!(enc.submit_diag.initial_us_total, 3);
    assert_eq!(enc.submit_diag.meta_queue_max, 1);
}

#[test]
fn frames_come_back_in_order() {
    let mut enc = encoder();
    submit_at_once(&mut enc, 1, true, 100);
    submit_at_once(&mut enc, 2, false, 200);
    for (rtp, key, us) in vec![(1u32, true, 900u64), (2, false, 800)] {
        assert_eq!(
            enc.collect(),
            Ok(CollectStep::Poll { target_type: ME_TRANSFORM_HAVE_OUTPUT, timeout_ms: None })
        );
        assert!(enc.collect_polled(PolledEvents { found: true, need_input: 1, have_output: 0 }));
        let out = enc.collect_inner(OutputResult::Frame(frame(9)), 1_000).unwrap().unwrap();
        let (frames, rtp_ts, capture_us, encode_us) = out;
        assert_eq!(frames.len(), 1);
        assert_eq!((frames[0].key_frame, frames[0].data.clone()), (key, vec![9]));
        assert_eq!((rtp_ts, capture_us, encode_us), (rtp, 5, us));
    }
    assert_eq!(enc.need_input_buffered, 2);
    assert!(enc.meta_queue.is_empty());
    let stray = enc.collect_inner(OutputResult::Frame(frame(9)), 1_000).unwrap().unwrap();
    assert_eq!((stray.1, stray.3), (0, 0));
}

#[test]
fn refused_frame_waits_drains_and_is_retried() {
    let mut enc = encoder();
    submit_at_once(&mut enc, 1, false, 0);
    let mut job = enc.submit(false, 2, 5, 10, 50, 1).unwrap();
    assert_eq!(
        enc.submit_step(&mut job, input(InputResult::NotAccepting, 51)),
        SubmitAction::Poll { target_type: ME_TRANSFORM_NEED_INPUT, timeout_ms: 10 }
    );
    assert_eq!(
        enc.submit_step(&mut job, polled(false, 0, 1)),
        SubmitAction::ProcessOutput
    );
    assert_eq!(enc.have_output_buffered, 0);
    let ev = SubmitEvent::Output {
        output: OutputResult::Frame(frame(1)),
        drain_us: 4,
        now_us: 60,
    };
    assert_eq!(enc.submit_step(&mut job, ev), SubmitAction::ProcessInput);
    assert_eq!(enc.pending_outputs.len(), 1);
    assert_eq!(enc.pending_outputs[0].rtp_ts, 1);
    assert_eq!(
        enc.submit_step(&mut job, input(InputResult::Accepted, 70)),
        SubmitAction::Submitted
    );
    assert_eq!(job.after_need, Attempt::TimedOut);
    assert_eq!(enc.submit_diag.drain_queued_frame, 1);
    assert_eq!(enc.submit_diag.retry_after_drain_ok, 1);
    assert_eq!(enc.submit_diag.need_wait_seen_have_total, 1);
    assert_eq!(enc.submit_diag.total_submit_us_total, 20);
    match enc.collect_blocking(5) {
        Ok(CollectStep::Ready(out)) => assert_eq!((out.0.len(), out.1), (1, 1)),
        other => panic!("{:?}", other),
    }
    assert_eq!(
        enc.collect_blocking(5),
        Ok(CollectStep::Poll { target_type: ME_TRANSFORM_HAVE_OUTPUT, timeout_ms: Some(5) })
    );
}

#[test]
fn event_put_aside_is_used_before_polling() {
    let mut enc = encoder();
    enc.buffer_async_events(PolledEvents { found: false, need_input: 1, have_output: 1 });
    let mut job = enc.submit(false, 2, 5, 10, 0, 1).unwrap();
    assert_eq!(
        enc.submit_step(&mut job, input(InputResult::NotAccepting, 1)),
        SubmitAction::ProcessInput
    );
    assert!(job.need_wait.buffered);
    assert_eq!(enc.need_input_buffered, 0);
    assert_eq!(
        enc.submit_step(&mut job, input(InputResult::NotAccepting, 1)),
        SubmitAction::ProcessOutput
    );
    assert!(!enc.take_buffered_event(ME_TRANSFORM_HAVE_OUTPUT));
    assert!(!enc.take_buffered_event(12));
}

#[test]
fn each_failure_of_a_submission_is_named() {
    let mut enc = encoder();
    let failed = |action: SubmitAction| match action {
        SubmitAction::Failed(e) => e.message(),
        other => panic!("{:?}", other),
    };

    let mut job = enc.submit(false, 1, 0, 10, 0, 0).unwrap();
    let a = enc.submit_step(&mut job, input(InputResult::Failed("x".to_string()), 0));
    assert_eq!(failed(a), "Encode failed: async ProcessInput: x");

    let mut job = enc.submit(false, 1, 0, 10, 0, 0).unwrap();
    enc.submit_step(&mut job, input(InputResult::NotAccepting, 0));
    enc.submit_step(&mut job, polled(true, 0, 0));
    let a = enc.submit_step(&mut job, input(InputResult::Failed("x".to_string()), 0));
    assert_eq!(failed(a), "Encode failed: async ProcessInput after NeedInput: x");

    let mut job = enc.submit(false, 1, 0, 10, 0, 0).unwrap();
    enc.submit_step(&mut job, input(InputResult::NotAccepting, 0));
    enc.submit_step(&mut job, polled(false, 0, 0));
    let a = enc.submit_step(&mut job, polled(false, 0, 0));
    assert_eq!(failed(a), "Encode failed: async MFT: timeout waiting for METransformHaveOutput");

    for (output, text) in vec![
        (
            OutputResult::Nothing,
            "Encode failed: async MFT: timeout waiting for METransformHaveOutput",
        ),
        (OutputResult::Failed("y".to_string()), "Encode failed: ProcessOutput failed: y"),
    ] {
        let mut job = enc.submit(false, 1, 0, 10, 0, 0).unwrap();
        enc.submit_step(&mut job, input(InputResult::NotAccepting, 0));
        enc.submit_step(&mut job, polled(false, 0, 0));
        enc.submit_step(&mut job, polled(true, 0, 0));
        let a = enc.submit_step(&mut job, SubmitEvent::Output { output, drain_us: 0, now_us: 0 });
        assert_eq!(failed(a), text);
    }

    for (result, text) in vec![
        (
            InputResult::NotAccepting,
            "Encode failed: async MFT: still not accepting after draining output",
        ),
        (
            InputResult::Failed("z".to_string()),
            "Encode failed: async ProcessInput after drain: z",
        ),
    ] {
        let mut job = enc.submit(false, 1, 0, 10, 0, 0).unwrap();
        enc.submit_step(&mut job, input(InputResult::NotAccepting, 0));
        enc.submit_step(&mut job, polled(false, 0, 0));
        enc.submit_step(&mut job, polled(true, 0, 0));
        let out = OutputResult::Frame(frame(1));
        enc.submit_step(&mut job, SubmitEvent::Output { output: out, drain_us: 0, now_us: 0 });
        let a = enc.submit_step(&mut job, input(result, 0));
        assert_eq!(failed(a), text);
    }
    assert_eq!(enc.frame_count, 0);
    assert!(enc.meta_queue.is_empty());
}

#[test]
fn synchronous_transform_is_not_submitted_to() {
    let mut enc = MftH264Encoder::new(64, 64, 30, 1, "s".to_string(), false, false, 0);
    let text = "Encode failed: submit/collect only for async MFT; use encode() for sync";
    assert_eq!(enc.submit(false, 0, 0, 0, 0, 0).unwrap_err().message(), text);
    assert_eq!(enc.collect().unwrap_err().message(), text);
    let frames = enc.encode(vec![frame(1), frame(2)], true);
    assert!(frames.iter().all(|f| f.key_frame));
    assert_eq!(frames.len(), 2);
    assert_eq!(enc.frame_count, 1);
    assert!(!enc.is_async());
    assert!(!enc.is_hardware());
    assert_eq!(enc.encoder_name(), "s");
    assert_eq!((enc.width(), enc.height()), (64, 64));
}

#[test]
fn outputs_of_a_synchronous_transform_are_drained() {
    let mut frames = Vec::new();
    assert_eq!(drain_output(&mut frames, OutputResult::Frame(frame(1))), Ok(true));
    assert_eq!(drain_output(&mut frames, OutputResult::Nothing), Ok(false));
    assert_eq!(frames, vec![frame(1)]);
    assert_eq!(
        drain_output(&mut frames, OutputResult::Failed("e".to_string())),
        Err(MftEncoderError::Encode("ProcessOutput failed: e".to_string()))
    );
}

#[test]
fn encoding_one_frame_gives_its_output() {
    let mut enc = encoder();
    let mut job = enc.encode_async(true);
    assert_eq!(job.timeout_ms, 120);
    assert_eq!(
        enc.encode_step(&mut job, EncodeEvent::Input(InputResult::Accepted)),
        EncodeAction::Poll { target_type: ME_TRANSFORM_HAVE_OUTPUT, timeout_ms: 120 }
    );
    let found = PolledEvents { found: true, need_input: 0, have_output: 0 };
    assert_eq!(
        enc.encode_step(&mut job, EncodeEvent::Polled(found)),
        EncodeAction::ProcessOutput
    );
    assert_eq!(
        enc.encode_step(&mut job, EncodeEvent::Output(OutputResult::Frame(frame(1)))),
        EncodeAction::Encoded
    );
    assert_eq!(job.stage, EncodeStage::Over);
    assert_eq!(job.frames.len(), 1);
    assert!(job.frames[0].key_frame);
    assert_eq!(enc.frame_count, 1);
}

#[test]
fn encoding_makes_room_once() {
    let mut enc = encoder();
    let mut job = enc.encode_async(false);
    enc.encode_step(&mut job, EncodeEvent::Input(InputResult::NotAccepting));
    let found = PolledEvents { found: true, need_input: 0, have_output: 1 };
    enc.encode_step(&mut job, EncodeEvent::Polled(found));
    assert_eq!(
        enc.encode_step(&mut job, EncodeEvent::Output(OutputResult::Frame(frame(1)))),
        EncodeAction::ProcessInput
    );
    // One more output was announced meanwhile.
    assert_eq!(
        enc.encode_step(&mut job, EncodeEvent::Input(InputResult::Accepted)),
        EncodeAction::ProcessOutput
    );
    assert_eq!(
        enc.encode_step(&mut job, EncodeEvent::Output(OutputResult::Nothing)),
        EncodeAction::Encoded
    );
    assert_eq!(job.frames, vec![frame(1)]);

    let mut job = enc.encode_async(false);
    enc.encode_step(&mut job, EncodeEvent::Input(InputResult::NotAccepting));
    assert_eq!(
        enc.encode_step(&mut job, EncodeEvent::Polled(PolledEvents::none())),
        EncodeAction::Failed(MftEncoderError::Encode(
            "async MFT: timeout waiting for METransformHaveOutput".to_string()
        ))
    );
}

#[test]
fn waiting_for_output_is_bounded() {
    let mut enc = encoder();
    assert_eq!(enc.async_output_timeout_ms(false), 120);
    enc.frame_count = 3;
    assert_eq!(enc.async_output_timeout_ms(true), 120);
    assert_eq!(enc.async_output_timeout_ms(false), 33);
    enc.fps = 0;
    assert_eq!(enc.async_output_timeout_ms(false), 40);
    enc.fps = 1_000;
    assert_eq!(enc.async_output_timeout_ms(false), 8);
}

#[test]
fn bit_rate_changes_only_where_due() {
    let mut enc = encoder();
    assert!(!enc.bitrate_change_due(0));
    assert!(!enc.bitrate_change_due(6_000_000));
    assert!(enc.bitrate_change_due(1));
    assert_eq!(enc.set_bitrate(0, Err("x".to_string())), Ok(()));
    assert_eq!(
        enc.set_bitrate(1, Err("x".to_string())),
        Err(MftEncoderError::Encode("Set bitrate: x".to_string()))
    );
    assert_eq!(enc.bitrate_bps, 6_000_000);
    assert_eq!(enc.set_bitrate(1, Ok(())), Ok(()));
    assert_eq!(enc.bitrate_bps, 1);
}

#[test]
fn polled_events_are_counted_until_the_awaited_one() {
    let mut e = PolledEvents::none();
    assert!(!e.observe(ME_TRANSFORM_HAVE_OUTPUT, ME_TRANSFORM_NEED_INPUT));
    assert!(!e.observe(603, ME_TRANSFORM_NEED_INPUT));
    assert!(e.observe(ME_TRANSFORM_NEED_INPUT, ME_TRANSFORM_NEED_INPUT));
    assert_eq!(e, PolledEvents { found: true, need_input: 0, have_output: 1 });
}

#[test]
fn counters_are_reported_once_a_second() {
    let mut d = SubmitDiagWindow::new();
    let mut start = 5u64;
    assert_eq!(d.take_summary(&mut start, 2_000_000), None);
    d.submits = 4;
    assert_eq!(d.take_summary(&mut start, 1_000_004), None);
    let r = d.take_summary(&mut start, 1_000_005).unwrap();
    assert_eq!(r.submits, 4);
    assert_eq!(d, SubmitDiagWindow::new());
    assert_eq!(start, 1_000_005);
    assert_eq!(avg_us(10, 4), 2);
    assert_eq!(avg_us(10, 0), 0);
}

#[test]
fn attempts_have_names() {
    assert_eq!(Attempt::Skipped.label(), "skipped");
    assert_eq!(Attempt::Accepted.label(), "ok");
    assert_eq!(Attempt::NotAccepting.label(), "not_accepting");
    assert_eq!(Attempt::Failed.label(), "err");
    assert_eq!(Attempt::TimedOut.label(), "need_input_timeout");
}

#[test]
fn encoder_errors_have_texts() {
    assert_eq!(
        MftEncoderError::NoEncoderFound.message(),
        "No MFT H.264 encoder found (hardware or software)"
    );
    assert_eq!(MftEncoderError::Init("a".to_string()).message(), "MFT initialization failed: a");
    assert_eq!(
        MftEncoderError::MediaType("a".to_string()).message(),
        "Media type setup failed: a"
    );
    assert_eq!(MftEncoderError::Windows("a".to_string()).message(), "Windows API error: a");
}

#[test]
fn idr_slices_are_found() {
    assert!(contains_idr_nal(&[0, 0, 0, 1, 0x65, 1, 2]));
    assert!(contains_idr_nal(&[0, 0, 1, 0x67, 9, 0, 0, 1, 0x25, 1]));
    assert!(!contains_idr_nal(&[0, 0, 1, 0x41, 9, 9]));
    assert!(!contains_idr_nal(&[0, 0, 1, 0x65]));
    assert!(!contains_idr_nal(&[]));
    assert!(!contains_idr_nal(&[0x65, 0x65, 0x65, 0x65, 0x65, 0x65]));
}

#[test]
fn attributes_hold_two_numbers() {
    assert_eq!(frame_size_attribute(1920, 1080), (1920u64 << 32) | 1080);
    assert_ne!(frame_size_attribute(1, 2), frame_size_attribute(2, 1));
    assert_eq!(frame_rate_attribute(60), (60u64 << 32) | 1);
    let out = create_output_media_type(1920, 1080, 60, 5);
    assert_eq!(out.bitrate_bps, Some(5));
    let inp = create_input_media_type(1920, 1080, 60);
    assert_eq!(inp.bitrate_bps, None);
    assert_eq!(inp.frame_size, out.frame_size);
}

#[test]
fn sample_times_are_in_hundreds_of_nanoseconds() {
    let t = sample_times(1_234, 60);
    assert_eq!((t.time, t.duration), (12_340, 166_666));
    assert_eq!(sample_times(-1, 30).time, -10);
}

#[test]
fn codec_is_set_for_low_delay() {
    let s = codec_settings(60, 6_000_000, None, None);
    assert_eq!(s.rate_control_mode, 0);
    assert_eq!(s.gop_size, 720);
    assert_eq!(s.slice_size_control_mode, Some(2));
    assert_eq!(s.mean_bit_rate, 6_000_000);
    let s = codec_settings(30, 1, Some("0"), Some("FALSE"));
    assert_eq!(s.rate_control_mode, 4);
    assert_eq!(s.gop_size, 30);
    assert_eq!(s.slice_size_control_mode, None);
    assert_eq!(codec_settings(30, 1, Some("x"), None).gop_size, 360);
    assert_eq!(codec_settings(4_000_000_000, 1, Some("2"), None).gop_size, u32::MAX);
    assert!(is_switched_off(Some("0")));
    assert!(!is_switched_off(Some("off")));
    assert!(!is_switched_off(None));
}

#[test]
fn first_usable_transform_is_taken() {
    let no = HardwareTrial { activated: false, accepts_d3d: true };
    let half = HardwareTrial { activated: true, accepts_d3d: false };
    let yes = HardwareTrial { activated: true, accepts_d3d: true };
    let all = vec![no, half, yes, yes];
    assert_eq!(create_mft(false, &all, true), Ok(EncoderChoice::Hardware(2)));
    assert_eq!(create_mft(true, &all, true), Ok(EncoderChoice::Software));
    assert_eq!(create_mft(false, &vec![no, half], true), Ok(EncoderChoice::Software));
    assert_eq!(create_mft(false, &vec![no], false), Err(MftEncoderError::NoEncoderFound));
    let name: Vec<u16> = "AMD\0rest".encode_utf16().collect();
    assert_eq!(get_friendly_name(Some(&name), true), "AMD");
    assert_eq!(get_friendly_name(None, true), "Hardware MFT");
    assert_eq!(get_friendly_name(None, false), "Software MFT");
}

#[test]
fn media_types_are_negotiated_to_an_end() {
    let no = || TypeEvent::Rejected("no".to_string());
    let mut stage = TypeStage::Query(0);
    stage = negotiate_type(StreamEnd::Output, stage, TypeEvent::Offered(false)).unwrap();
    assert_eq!(stage, TypeStage::Query(1));
    stage = negotiate_type(StreamEnd::Output, stage, TypeEvent::Offered(true)).unwrap();
    assert_eq!(stage, TypeStage::SetAsOffered(1));
    assert_eq!(
        negotiate_type(StreamEnd::Output, stage, TypeEvent::Accepted),
        Ok(TypeStage::Settled { attributes_pending: true })
    );
    stage = negotiate_type(StreamEnd::Output, stage, no()).unwrap();
    assert_eq!(stage, TypeStage::SetWithAttributes(1));
    stage = negotiate_type(StreamEnd::Output, stage, no()).unwrap();
    assert_eq!(stage, TypeStage::Query(2));
    stage = negotiate_type(StreamEnd::Output, stage, TypeEvent::Exhausted).unwrap();
    assert_eq!(stage, TypeStage::SetManual);
    assert_eq!(
        negotiate_type(StreamEnd::Output, stage, no()),
        Err(MftEncoderError::MediaType("SetOutputType (manual): no".to_string()))
    );
    assert_eq!(
        negotiate_type(StreamEnd::Input, TypeStage::SetManual, no()),
        Err(MftEncoderError::MediaType("SetInputType (manual): no".to_string()))
    );
    assert_eq!(
        negotiate_type(StreamEnd::Input, TypeStage::Query(4), TypeEvent::Offered(true)),
        Ok(TypeStage::SetWithAttributes(4))
    );
    assert_eq!(
        negotiate_type(
            StreamEnd::Input,
            TypeStage::Query(MAX_MEDIA_TYPES - 1),
            TypeEvent::Offered(false)
        ),
        Ok(TypeStage::SetManual)
    );
}

#[test]
fn samples_hold_frames() {
    let idr = vec![0, 0, 1, 0x65, 1, 2];
    assert!(is_key_frame_sample(&idr, None));
    assert!(is_key_frame_sample(&[1], Some(0)));
    assert!(!is_key_frame_sample(&[1], Some(1)));
    let f = extract_h264_from_sample(idr.clone(), 7, None).unwrap();
    assert_eq!(f, EncodedFrame { data: idr, timestamp_us: 7, key_frame: true });
    assert_eq!(extract_h264_from_sample(Vec::new(), 7, Some(0)), None);
}

#[test]
fn shared_device_is_selected_once() {
    let mut d = SharedDevice::new();
    assert_eq!(d.init_for_mft_decode(), InitStep::Select);
    assert_eq!(d.selected(None), None);
    assert_eq!(d.get_shared_device(), None);
    assert_eq!(d.selected(Some(5)), Some(5));
    assert_eq!(d.init_for_mft_decode(), InitStep::Reregister(5));
    d.clear_mft_device();
    assert_eq!(d.get_shared_device(), None);
}

#[test]
fn shared_textures_are_checked() {
    let base = TextureDesc {
        width: 8,
        height: 4,
        format: 87,
        usage: 0,
        bind_flags: 8,
        cpu_access: 0,
        misc_flags: 0,
    };
    let d = shared_texture_desc(base);
    assert_eq!(d.misc_flags, MISC_SHARED_KEYEDMUTEX);
    assert_eq!((d.width, d.height, d.bind_flags), (8, 4, 8));
    let trial = |created, opened| check_shared_texture(SharedTrial { created, opened });
    assert_eq!(trial(true, true), Ok(()));
    assert_eq!(trial(false, true), Err(D3d11SharedTextureError::CreateTextureNull));
    assert_eq!(trial(true, false), Err(D3d11SharedTextureError::OpenSharedTextureNull));
    assert_eq!(D3d11SharedTextureError::Win("x".to_string()).message(), "Windows: x");
}

fn session() -> NvencSession {
    NvencSession {
        encoder_name: "NVENC\0\0".to_string(),
        is_async: true,
        is_hardware: true,
        uses_rgb_input: true,
        input_ring_size: 4,
        in_flight_count: 1,
    }
}

fn nvenc_error(fallback: bool) -> NvencD3d11Error {
    NvencD3d11Error { message: "lost".to_string(), fallback }
}

fn over_nvenc() -> EncodedH264Encoder {
    match EncodedH264Encoder::new_auto(Ok(session()), 64, 32, 60, 9) {
        AutoStep::Ready(enc) => enc,
        other => panic!("{:?}", other),
    }
}

#[test]
fn encoder_opens_over_either_backend() {
    let enc = over_nvenc();
    assert_eq!(enc.backend_kind(), EncodedBackendKind::NvencD3d11);
    assert_eq!(enc.encoder_name(), "NVENC\0\0");
    assert_eq!(enc.reported_name(), "NVENC");
    assert!(enc.nvenc_uses_rgb_input());
    assert_eq!(enc.nvenc_input_ring_size(), Some(4));
    assert_eq!(enc.nvenc_in_flight_count(), Some(1));
    assert!(enc.is_async() && enc.is_hardware());
    assert!(matches!(
        EncodedH264Encoder::new_auto(Err(nvenc_error(true)), 64, 32, 60, 9),
        AutoStep::BuildMft
    ));
    assert!(matches!(
        EncodedH264Encoder::new_auto(Err(nvenc_error(false)), 64, 32, 60, 9),
        AutoStep::Fail(EncodedH264EncoderError::Nvenc(_))
    ));
    let mft = EncodedH264Encoder::auto_over_mft(Ok(encoder()), 64, 32, 60, 9).unwrap();
    assert_eq!(mft.backend_kind(), EncodedBackendKind::MftHardware);
    assert_eq!(mft.nvenc_input_ring_size(), None);
    assert!(mft.config.allow_runtime_mft_fallback);
    assert!(!EncodedH264Encoder::new_mft(encoder(), 1, 1, 1, 1).config.allow_runtime_mft_fallback);
    let err = EncodedH264Encoder::auto_over_mft(Err(MftEncoderError::NoEncoderFound), 1, 1, 1, 1);
    assert_eq!(
        err.unwrap_err().message(),
        "MFT: No MFT H.264 encoder found (hardware or software)"
    );
}

#[test]
fn nvenc_gives_way_once() {
    let mut enc = over_nvenc();
    let mut call = Call::begin(Operation::Submit);
    let failure = || CallEvent::Failed(EncodedH264EncoderError::Nvenc(nvenc_error(true)));
    assert_eq!(enc.call_step(&mut call, failure()), CallAction::BuildMft);
    assert_eq!(call.stage, CallStage::Rebuilding);
    assert_eq!(enc.call_step(&mut call, CallEvent::Built(encoder())), CallAction::Run);
    assert_eq!(enc.backend_kind(), EncodedBackendKind::MftHardware);
    let again = CallEvent::Failed(EncodedH264EncoderError::Mft(MftEncoderError::NoEncoderFound));
    assert_eq!(
        enc.call_step(&mut call, again),
        CallAction::Fail(EncodedH264EncoderError::Mft(MftEncoderError::NoEncoderFound))
    );
    assert_eq!(call.stage, CallStage::Over);
}

#[test]
fn nvenc_failure_without_fallback_ends_the_call() {
    let mut enc = over_nvenc();
    let mut call = Call::begin(Operation::Encode);
    let e = EncodedH264EncoderError::Nvenc(nvenc_error(false));
    assert_eq!(e.message(), "NVENC D3D11: lost");
    assert_eq!(
        enc.call_step(&mut call, CallEvent::Failed(e.clone())),
        CallAction::Fail(e)
    );
    let mut call = Call::begin(Operation::SetBitrate(77));
    assert_eq!(enc.call_step(&mut call, CallEvent::Succeeded), CallAction::Return);
    assert_eq!(enc.bitrate_bps(), 77);
}

#[test]
fn new_rates_keep_or_rebuild_the_backend() {
    let mut enc = over_nvenc();
    assert_eq!(enc.set_rates(60, 5), RatesPlan::Bitrate(Operation::SetBitrate(5)));
    assert_eq!(enc.set_rates(0, 5), RatesPlan::Rebuild { nvenc: true, fps: 1, bitrate: 5 });
    assert_eq!(
        enc.rates_step(30, 5, RatesEvent::NvencFailed(nvenc_error(true))),
        RatesAction::BuildMft
    );
    assert_eq!(enc.fps(), 60);
    assert_eq!(enc.rates_step(30, 5, RatesEvent::MftBuilt(encoder())), RatesAction::Done);
    assert_eq!((enc.fps(), enc.bitrate_bps()), (30, 5));
    assert!(matches!(enc.inner, Backend::Mft(_)));
    assert_eq!(
        enc.rates_step(25, 5, RatesEvent::MftFailed(MftEncoderError::NoEncoderFound)),
        RatesAction::Fail(EncodedH264EncoderError::Mft(MftEncoderError::NoEncoderFound))
    );
    assert_eq!(enc.rates_step(25, 6, RatesEvent::NvencBuilt(session())), RatesAction::Done);
    assert_eq!(enc.backend_kind(), EncodedBackendKind::NvencD3d11);
}

#[test]
fn polling_sleeps_until_the_time_is_up() {
    assert_eq!(poll_step(0, 5_000), Some(1_000));
    assert_eq!(poll_step(4_300, 5_000), Some(700));
    assert_eq!(poll_step(4_000, 5_000), Some(1_000));
    assert_eq!(poll_step(5_000, 5_000), None);
    assert_eq!(poll_step(6_000, 5_000), None);
}

#[test]
fn outputs_carry_what_their_frames_were_submitted_with() {
    let mut enc = encoder();
    let submit = |enc: &mut MftH264Encoder, rtp_ts, capture_us, key_frame, result| {
        let mut job = enc.submit(key_frame, rtp_ts, capture_us, 10, 0, 1).unwrap();
        enc.submit_step(&mut job, input(result, 1))
    };
    assert_eq!(submit(&mut enc, 1, 10, true, InputResult::Accepted), SubmitAction::Submitted);
    let failed = submit(&mut enc, 7, 70, true, InputResult::Failed("x".to_string()));
    assert!(matches!(failed, SubmitAction::Failed(_)));
    assert_eq!(submit(&mut enc, 2, 20, false, InputResult::Accepted), SubmitAction::Submitted);
    let mut job = enc.submit(true, 3, 30, 10, 0, 1).unwrap();
    enc.submit_step(&mut job, input(InputResult::NotAccepting, 2));
    enc.submit_step(&mut job, polled(false, 0, 0));
    enc.submit_step(&mut job, polled(true, 0, 0));
    let output = OutputResult::Frame(frame(1));
    enc.submit_step(&mut job, SubmitEvent::Output { output, drain_us: 1, now_us: 3 });
    let last = enc.submit_step(&mut job, input(InputResult::Accepted, 4));
    assert_eq!(last, SubmitAction::Submitted);
    let mut tags = Vec::new();
    for _ in 0..3 {
        let out = match enc.collect().unwrap() {
            CollectStep::Ready(out) => out,
            _ => enc.collect_inner(OutputResult::Frame(frame(9)), 9).unwrap().unwrap(),
        };
        assert_eq!(out.0.len(), 1);
        tags.push((out.1, out.2, out.0[0].key_frame));
    }
    assert_eq!(tags, vec![(1, 10, true), (2, 20, false), (3, 30, true)]);
}
