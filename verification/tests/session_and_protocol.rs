use libobs_recorder::adapter::Adapter;
use libobs_recorder::audio::AudioSource;
use libobs_recorder::encoders::Encoder;
use libobs_recorder::ipc::{
    expect_adapter, expect_encoders, expect_ok, expect_recording, must_kill, teardown_commands,
    IpcCommand, IpcLinkSlave, IpcResponse, MasterError, WaitOutcome,
};
use libobs_recorder::rate_control::RateControl;
use libobs_recorder::recorder::{ConfigError, InpRecorder, SessionError, STOP_MAX_POLLS};
use libobs_recorder::resolution::Resolution;
use libobs_recorder::settings::RecorderSettings;
use libobs_recorder::window::Window;

const THREAD: u64 = 7;

fn nvidia_env(start_fails: bool, last_error: Option<String>, stop_delay_polls: u32) -> InpRecorder {
    let ids = vec![
        "obs_x264".to_string(),
        "jim_nvenc".to_string(),
        "ffmpeg_nvenc".to_string(),
        "h264_texture_amf".to_string(),
    ];
    let adapters = vec![Adapter::new(0, "NVIDIA GeForce RTX".to_string())];
    InpRecorder::with_environment(ids, adapters, start_fails, last_error, stop_delay_polls)
}

fn ready_recorder() -> InpRecorder {
    let mut rec = nvidia_env(false, None, 0);
    rec.initialize(THREAD, None, None, None).unwrap();
    rec.get_handle(THREAD).unwrap();
    rec
}

fn plain_settings() -> RecorderSettings {
    RecorderSettings::new(
        Window::new("App", None, Some("app.exe".to_string())),
        Resolution::new(1920, 1080),
        Resolution::new(1920, 1080),
        "./out.mp4",
    )
}

#[test]
fn initialize_selects_preferred_encoder() {
    let mut rec = nvidia_env(false, None, 0);
    assert!(rec.initialize(THREAD, None, None, None).is_ok());
    assert_eq!(rec.selected_encoder(), Encoder::JIM_NVENC);
    assert_eq!(
        rec.get_available_encoders(),
        vec![Encoder::JIM_NVENC, Encoder::FFMPEG_NVENC, Encoder::OBS_X264]
    );
    assert_eq!(rec.get_adapter_info().id(), 0);
}

#[test]
fn initialize_is_one_time() {
    let mut rec = nvidia_env(false, None, 0);
    rec.initialize(THREAD, None, None, None).unwrap();
    assert_eq!(
        rec.initialize(THREAD, None, None, None),
        Err(SessionError::AlreadyInitialized)
    );
}

#[test]
fn initialize_needs_a_known_encoder() {
    let adapters = vec![Adapter::new(0, "NVIDIA GeForce".to_string())];
    let mut rec = InpRecorder::with_environment(
        vec!["mystery".to_string()],
        adapters,
        false,
        None,
        0,
    );
    assert_eq!(
        rec.initialize(THREAD, None, None, None),
        Err(SessionError::NoEncoderAvailable)
    );
}

#[test]
fn handle_needs_initialization_and_thread() {
    let mut rec = nvidia_env(false, None, 0);
    assert_eq!(rec.get_handle(THREAD), Err(SessionError::NotInitialized));
    rec.initialize(THREAD, None, None, None).unwrap();
    assert_eq!(rec.get_handle(THREAD + 1), Err(SessionError::WrongThread));
    assert!(rec.get_handle(THREAD).is_ok());
}

#[test]
fn shutdown_refused_while_handles_live() {
    let mut rec = ready_recorder();
    assert_eq!(rec.shutdown(THREAD), Err(SessionError::HandlesStillHeld));
    rec.release_handle();
    assert!(rec.shutdown(THREAD).is_ok());
    // shutting down twice is harmless, but nothing comes back afterwards
    assert!(rec.shutdown(THREAD).is_ok());
    assert_eq!(rec.get_handle(THREAD), Err(SessionError::ResourcesGone));
    assert_eq!(
        rec.initialize(THREAD, None, None, None),
        Err(SessionError::AlreadyShutDown)
    );
}

#[test]
fn configure_before_initialization_is_refused() {
    let mut rec = nvidia_env(false, None, 0);
    assert_eq!(rec.configure(&plain_settings()), Err(ConfigError::NotReady));
}

#[test]
fn configure_refused_while_recording() {
    let mut rec = ready_recorder();
    rec.start_recording().unwrap();
    assert_eq!(rec.configure(&plain_settings()), Err(ConfigError::Busy));
    rec.stop_recording();
    assert!(rec.configure(&plain_settings()).is_ok());
}

#[test]
fn configure_applies_video_and_path() {
    let mut rec = ready_recorder();
    let mut s = plain_settings();
    s.set_input_resolution(Resolution::new(2560, 1440));
    s.set_output_resolution(Resolution::new(1280, 720));
    assert!(rec.configure(&s).is_ok());
    assert_eq!(rec.video.base_width, 2560);
    assert_eq!(rec.video.base_height, 1440);
    assert_eq!(rec.video.output_width, 1280);
    assert_eq!(rec.video.output_height, 720);
    assert_eq!(rec.video.fps_num, 30);
    assert_eq!(rec.video.fps_den, 1);
    assert_eq!(rec.output_path, "./out.mp4");
    assert_eq!(rec.video_source_window, "App::app.exe");
    // a second configure with identical parameters is accepted and leaves
    // the pipeline exactly as it is
    let before = rec.video;
    assert!(rec.configure(&s).is_ok());
    assert_eq!(rec.video, before);
}

#[test]
fn configure_encoder_selection() {
    let mut rec = ready_recorder();
    let mut s = plain_settings();
    s.set_encoder(Encoder::AMD_AMF_H264);
    assert_eq!(rec.configure(&s), Err(ConfigError::EncoderUnavailable));
    s.set_encoder(Encoder::FFMPEG_NVENC);
    s.set_rate_control(RateControl::CBR(6000));
    assert!(rec.configure(&s).is_ok());
    assert_eq!(rec.selected_encoder(), Encoder::FFMPEG_NVENC);
    assert_eq!(rec.bound_rate_control, RateControl::CBR(6000));
}

#[test]
fn configure_without_explicit_encoder_keeps_the_bound_one() {
    let mut rec = ready_recorder();
    // the session starts out on the most preferred available encoder
    assert_eq!(rec.selected_encoder(), Encoder::JIM_NVENC);
    let mut s = plain_settings();
    s.set_encoder(Encoder::FFMPEG_NVENC);
    rec.configure(&s).unwrap();
    assert_eq!(rec.selected_encoder(), Encoder::FFMPEG_NVENC);
    // no explicit encoder requested: the currently bound one is kept, even
    // though the preference order would put another encoder first
    let plain = plain_settings();
    rec.configure(&plain).unwrap();
    assert_eq!(rec.selected_encoder(), Encoder::FFMPEG_NVENC);
}

#[test]
fn configure_audio_routing_modes() {
    let mut rec = ready_recorder();
    let mut s = plain_settings();

    s.set_audio_source(AudioSource::SYSTEM);
    rec.configure(&s).unwrap();
    assert!(!rec.channel1_bound);
    assert!(rec.channel2_bound);
    assert!(!rec.channel3_bound);

    s.set_audio_source(AudioSource::ALL);
    rec.configure(&s).unwrap();
    assert!(!rec.channel1_bound);
    assert!(rec.channel2_bound);
    assert!(rec.channel3_bound);

    s.set_audio_source(AudioSource::NONE);
    rec.configure(&s).unwrap();
    assert!(!rec.channel1_bound);
    assert!(!rec.channel2_bound);
    assert!(!rec.channel3_bound);

    s.set_audio_source(AudioSource::APPLICATION);
    rec.configure(&s).unwrap();
    assert!(rec.channel1_bound);
    assert!(!rec.channel2_bound);
    assert!(!rec.channel3_bound);
    assert_eq!(rec.audio1_window, "App::app.exe");
}

#[test]
fn start_is_idempotent() {
    let mut rec = ready_recorder();
    assert!(rec.start_recording().is_ok());
    assert!(rec.is_recording());
    // a second start while recording succeeds and changes nothing
    assert!(rec.start_recording().is_ok());
    assert!(rec.is_recording());
}

#[test]
fn start_reports_backend_diagnostic() {
    let mut rec = nvidia_env(true, Some("output error".to_string()), 0);
    rec.initialize(THREAD, None, None, None).unwrap();
    rec.get_handle(THREAD).unwrap();
    assert_eq!(rec.start_recording(), Err("output error".to_string()));
    let mut silent = nvidia_env(true, None, 0);
    silent.initialize(THREAD, None, None, None).unwrap();
    silent.get_handle(THREAD).unwrap();
    assert_eq!(silent.start_recording(), Err("no error message".to_string()));
}

#[test]
fn stop_returns_quickly_when_backend_cooperates() {
    let mut rec = nvidia_env(false, None, 5);
    rec.initialize(THREAD, None, None, None).unwrap();
    rec.get_handle(THREAD).unwrap();
    rec.start_recording().unwrap();
    let polls = rec.stop_recording();
    assert_eq!(polls, 6);
    assert!(!rec.is_recording());
    // stopping while idle is a no-op seen on the first poll
    assert_eq!(rec.stop_recording(), 1);
}

#[test]
fn stop_is_bounded_by_force_stop() {
    // a backend that never reports inactive: the force stop fires at the
    // poll ceiling and the call still returns with the output down
    let mut rec = nvidia_env(false, None, u32::MAX);
    rec.initialize(THREAD, None, None, None).unwrap();
    rec.get_handle(THREAD).unwrap();
    rec.start_recording().unwrap();
    let polls = rec.stop_recording();
    assert_eq!(polls, STOP_MAX_POLLS);
    assert!(polls <= STOP_MAX_POLLS);
    assert!(!rec.is_recording());
}

fn ready_slave() -> IpcLinkSlave {
    let mut slave = IpcLinkSlave::new(nvidia_env(false, None, 0), THREAD);
    let init = IpcCommand::Init {
        libobs_data_path: None,
        plugin_bin_path: None,
        plugin_data_path: None,
    };
    assert!(matches!(slave.handle_command(init), Some(IpcResponse::Accepted)));
    slave
}

#[test]
fn commands_before_init_are_refused() {
    let mut slave = IpcLinkSlave::new(nvidia_env(false, None, 0), THREAD);
    match slave.handle_command(IpcCommand::StartRecording) {
        Some(IpcResponse::Failure(m)) => assert_eq!(m, "recorder not initialized"),
        other => panic!("unexpected response: {other:?}"),
    }
    match slave.handle_command(IpcCommand::Encoders) {
        Some(IpcResponse::Failure(m)) => assert_eq!(m, "recorder not initialized"),
        other => panic!("unexpected response: {other:?}"),
    }
}

#[test]
fn init_twice_is_refused() {
    let mut slave = ready_slave();
    let again = IpcCommand::Init {
        libobs_data_path: None,
        plugin_bin_path: None,
        plugin_data_path: None,
    };
    match slave.handle_command(again) {
        Some(IpcResponse::Failure(m)) => assert_eq!(m, "libobs has already been initialized"),
        other => panic!("unexpected response: {other:?}"),
    }
    assert!(slave.session_held());
}

#[test]
fn exit_refused_while_session_held() {
    let mut slave = ready_slave();
    // an Exit without a prior Shutdown draws a failure response: the worker
    // neither hangs nor exits
    match slave.handle_command(IpcCommand::Exit) {
        Some(IpcResponse::Failure(m)) => assert_eq!(m, "recorder is not shut down"),
        other => panic!("unexpected response: {other:?}"),
    }
    assert!(slave.session_held());
}

#[test]
fn full_session_script() {
    let mut slave = ready_slave();
    let configure = IpcCommand::Configure(plain_settings());
    assert!(matches!(slave.handle_command(configure), Some(IpcResponse::Accepted)));
    match slave.handle_command(IpcCommand::Encoders) {
        Some(IpcResponse::Encoders { available, selected }) => {
            assert_eq!(
                available,
                vec![Encoder::JIM_NVENC, Encoder::FFMPEG_NVENC, Encoder::OBS_X264]
            );
            assert_eq!(selected, Encoder::JIM_NVENC);
        },
        other => panic!("unexpected response: {other:?}"),
    }
    match slave.handle_command(IpcCommand::Adapter) {
        Some(IpcResponse::Adapter(a)) => assert_eq!(a.id(), 0),
        other => panic!("unexpected response: {other:?}"),
    }
    assert!(matches!(
        slave.handle_command(IpcCommand::IsRecording),
        Some(IpcResponse::Recording(false))
    ));
    assert!(matches!(
        slave.handle_command(IpcCommand::StartRecording),
        Some(IpcResponse::Accepted)
    ));
    assert!(matches!(
        slave.handle_command(IpcCommand::IsRecording),
        Some(IpcResponse::Recording(true))
    ));
    assert!(matches!(
        slave.handle_command(IpcCommand::StopRecording),
        Some(IpcResponse::Accepted)
    ));
    assert!(matches!(
        slave.handle_command(IpcCommand::Shutdown),
        Some(IpcResponse::Accepted)
    ));
    assert!(!slave.session_held());
    // only now does Exit end the command loop
    assert!(slave.handle_command(IpcCommand::Exit).is_none());
}

#[test]
fn shutdown_stops_an_active_recording_first() {
    let mut slave = ready_slave();
    assert!(matches!(
        slave.handle_command(IpcCommand::StartRecording),
        Some(IpcResponse::Accepted)
    ));
    assert!(matches!(
        slave.handle_command(IpcCommand::Shutdown),
        Some(IpcResponse::Accepted)
    ));
    assert!(!slave.session_held());
}

#[test]
fn teardown_order_and_kill_decision() {
    let commands = teardown_commands();
    assert!(matches!(commands[0], IpcCommand::StopRecording));
    assert!(matches!(commands[1], IpcCommand::Shutdown));
    assert!(matches!(commands[2], IpcCommand::Exit));
    assert_eq!(commands.len(), 3);
    // the worker is killed on every outcome but a clean, in-time exit
    assert!(!must_kill(WaitOutcome::ExitedSuccess));
    assert!(must_kill(WaitOutcome::ExitedFailure));
    assert!(must_kill(WaitOutcome::TimedOut));
    assert!(must_kill(WaitOutcome::WaitFailed));
}

#[test]
fn master_response_reading() {
    assert!(expect_ok(IpcResponse::Accepted).is_ok());
    match expect_ok(IpcResponse::Failure("nope".to_string())) {
        Err(MasterError::Rejected(m)) => assert_eq!(m, "nope"),
        other => panic!("unexpected: {other:?}"),
    }
    assert!(matches!(
        expect_ok(IpcResponse::Recording(true)),
        Err(MasterError::UnexpectedResponse)
    ));
    match expect_encoders(IpcResponse::Encoders {
        available: vec![Encoder::OBS_X264],
        selected: Encoder::OBS_X264,
    }) {
        Ok((available, selected)) => {
            assert_eq!(available, vec![Encoder::OBS_X264]);
            assert_eq!(selected, Encoder::OBS_X264);
        },
        other => panic!("unexpected: {other:?}"),
    }
    match expect_adapter(IpcResponse::Adapter(Adapter::new(0, "NVIDIA".to_string()))) {
        Ok(a) => assert_eq!(a.id(), 0),
        other => panic!("unexpected: {other:?}"),
    }
    assert!(matches!(expect_recording(IpcResponse::Recording(true)), Ok(true)));
    assert!(matches!(
        expect_recording(IpcResponse::Accepted),
        Err(MasterError::UnexpectedResponse)
    ));
}
