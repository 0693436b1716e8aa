use libobs_recorder::audio::AudioSource;
use libobs_recorder::framerate::Framerate;
use libobs_recorder::rate_control::RateControl;
use libobs_recorder::resolution::{Resolution, StdResolution};
use libobs_recorder::settings::RecorderSettings;
use libobs_recorder::window::Window;

#[test]
fn framerate_raises_zero_to_one() {
    let f = Framerate::new(0, 0);
    assert_eq!(f.num(), 1);
    assert_eq!(f.den(), 1);
    assert!(f.is_valid());
    let g = Framerate::new(60, 1);
    assert_eq!(g.num(), 60);
    assert_eq!(g.den(), 1);
}

#[test]
fn resolution_accessors() {
    let r = Resolution::new(2560, 1440);
    assert_eq!(r.width(), 2560);
    assert_eq!(r.height(), 1440);
}

#[test]
fn std_resolution_sizes() {
    let r = Resolution::from(StdResolution::_2560x1440p);
    assert_eq!(r.width(), 2560);
    assert_eq!(r.height(), 1440);
    let q = Resolution::from(StdResolution::_1024x768p);
    assert_eq!(q.width(), 1024);
    assert_eq!(q.height(), 768);
}

#[test]
fn closest_std_resolution_picks_nearest_aspect() {
    assert_eq!(
        StdResolution::closest_std_resolution(&Resolution::new(1920, 1080)),
        StdResolution::_1920x1080p
    );
    assert_eq!(
        StdResolution::closest_std_resolution(&Resolution::new(1024, 768)),
        StdResolution::_1600x1200p
    );
    // 2560:1080 lies between 21:9 and 43:18, a touch nearer to 43:18
    assert_eq!(
        StdResolution::closest_std_resolution(&Resolution::new(2560, 1080)),
        StdResolution::_2580x1080p
    );
    assert_eq!(
        StdResolution::closest_std_resolution(&Resolution::new(2561, 1080)),
        StdResolution::_2580x1080p
    );
    assert_eq!(
        StdResolution::closest_std_resolution(&Resolution::new(3440, 1440)),
        StdResolution::_2580x1080p
    );
    assert_eq!(
        StdResolution::closest_std_resolution(&Resolution::new(1280, 800)),
        StdResolution::_1920x1200p
    );
}

#[test]
fn closest_std_resolution_degenerate_sizes() {
    // no aspect ratio at all: every comparison ties, the first entry stays
    assert_eq!(
        StdResolution::closest_std_resolution(&Resolution::new(0, 0)),
        StdResolution::_1600x1200p
    );
    assert_eq!(
        StdResolution::closest_std_resolution(&Resolution::new(1920, 0)),
        StdResolution::_1600x1200p
    );
    // aspect ratio zero: nearest is the smallest ratio in the table, 5:4
    assert_eq!(
        StdResolution::closest_std_resolution(&Resolution::new(0, 1080)),
        StdResolution::_1280x1024p
    );
}

#[test]
fn rate_control_default_is_constant_quality() {
    assert_eq!(RateControl::default(), RateControl::CQP(20));
}

#[test]
fn settings_round_trip() {
    let window = Window::new("App", None, None);
    let mut s = RecorderSettings::new(
        window,
        Resolution::new(1920, 1080),
        Resolution::new(1280, 720),
        "./out.mp4",
    );
    assert_eq!(s.get_input_resolution(), Resolution::new(1920, 1080));
    assert_eq!(s.get_output_resolution(), Resolution::new(1280, 720));
    assert_eq!(s.get_output_path(), "./out.mp4");
    assert_eq!(s.get_framerate(), None);
    assert_eq!(s.get_rate_control(), None);
    assert_eq!(s.get_audio_source(), None);
    assert_eq!(s.get_encoder(), None);

    s.set_window(Window::new("Other", Some("Cls".to_string()), None));
    assert_eq!(s.get_window().name(), "Other");
    assert_eq!(s.get_window().class(), Some(&"Cls".to_string()));
    assert_eq!(s.get_window().process(), None);

    s.set_input_resolution(Resolution::new(800, 600));
    assert_eq!(s.get_input_resolution(), Resolution::new(800, 600));
    s.set_output_resolution(Resolution::from(StdResolution::_1280x720p));
    assert_eq!(s.get_output_resolution(), Resolution::new(1280, 720));
    s.set_output_path("./elsewhere.mp4");
    assert_eq!(s.get_output_path(), "./elsewhere.mp4");
    s.set_framerate(Framerate::new(45, 1));
    assert_eq!(s.get_framerate(), Some(Framerate::new(45, 1)));
    s.set_rate_control(RateControl::CBR(4000));
    assert_eq!(s.get_rate_control(), Some(RateControl::CBR(4000)));
    s.set_audio_source(AudioSource::ALL);
    assert_eq!(s.get_audio_source(), Some(AudioSource::ALL));
    s.set_encoder(libobs_recorder::encoders::Encoder::OBS_X264);
    assert_eq!(
        s.get_encoder(),
        Some(libobs_recorder::encoders::Encoder::OBS_X264)
    );
}

#[test]
fn window_identity_round_trip() {
    let w = Window::new("App", None, Some("app.exe".to_string()));
    assert_eq!(w.get_libobs_window_id(), "App::app.exe");
    // the encoding is a pure function of the window: stable across calls
    assert_eq!(w.get_libobs_window_id(), w.get_libobs_window_id());
}

#[test]
fn window_identity_all_segments() {
    let w = Window::new(
        "League of Legends (TM) Client",
        Some("RiotWindowClass".to_string()),
        Some("League of Legends.exe".to_string()),
    );
    assert_eq!(
        w.get_libobs_window_id(),
        "League of Legends (TM) Client:RiotWindowClass:League of Legends.exe"
    );
}

#[test]
fn window_identity_empty_segments() {
    let w = Window::new("", None, None);
    assert_eq!(w.get_libobs_window_id(), "::");
}
