use vstd::prelude::*;

use crate::adapter::{Adapter, AdapterV};
use crate::audio::AudioSource;
use crate::encoders::{
    available_encoders_from, spec_available_encoders, spec_encoder_settings, Encoder,
};
use crate::framerate::Framerate;
use crate::obs_data::{ObsData, ObsEntryV};
use crate::rate_control::{RateControl, DEFAULT_CQP};
use crate::resolution::Resolution;
use crate::settings::{RecorderSettings, SettingsV};
use crate::window::spec_window_id;

verus! {

/// How often a stopping output is polled, in milliseconds.
pub const STOP_POLL_INTERVAL_MS: u32 = 100;

/// How long a stopping output is polled before it is forced down, in
/// milliseconds.
pub const STOP_POLL_CEILING_MS: u32 = 3000;

/// The most polls one stop performs: the ceiling divided by the interval,
/// plus the final poll in which the force stop fires.
pub const STOP_MAX_POLLS: u32 = STOP_POLL_CEILING_MS / STOP_POLL_INTERVAL_MS + 1;

/// Asset paths used when the caller leaves them unspecified.
pub const DEFAULT_LIBOBS_DATA_PATH: &'static str = "./data/libobs/";

pub const DEFAULT_PLUGIN_BIN_PATH: &'static str = "./obs-plugins/64bit/";

pub const DEFAULT_PLUGIN_DATA_PATH: &'static str = "./data/obs-plugins/%module%/";

/// Where the output resource writes until a configure call names a path.
pub const DEFAULT_OUTPUT_PATH: &'static str = "./recording.mp4";

/// The backend's video pipeline parameters: framerate, canvas size and
/// scaled output size.
#[derive(Debug, Copy, Clone, PartialEq, Eq, Structural)]
pub struct VideoInfo {
    pub fps_num: u32,
    pub fps_den: u32,
    pub base_width: u32,
    pub base_height: u32,
    pub output_width: u32,
    pub output_height: u32,
}

/// Why a `configure` call was refused. A refused configure leaves the
/// session and the backend in their prior state.
#[derive(Debug, Copy, Clone, PartialEq, Eq, Structural)]
pub enum ConfigError {
    /// the output is active; settings cannot change during a recording
    Busy,
    /// the backend's video pipeline was never initialized
    NotReady,
    /// the explicitly requested encoder is not available on this adapter
    EncoderUnavailable,
}

/// The diagnostic text of each configure refusal.
pub open spec fn spec_config_error_message(e: ConfigError) -> Seq<char> {
    match e {
        ConfigError::Busy => "can't change settings while recording"@,
        ConfigError::NotReady => "video pipeline is not initialized"@,
        ConfigError::EncoderUnavailable => "encoder not available"@,
    }
}

impl ConfigError {
    pub fn message(&self) -> (r: &str)
        ensures
            r@ == spec_config_error_message(*self),
    {
        match self {
            ConfigError::Busy => "can't change settings while recording",
            ConfigError::NotReady => "video pipeline is not initialized",
            ConfigError::EncoderUnavailable => "encoder not available",
        }
    }
}

/// Why a lifecycle call (initialize, handle acquisition, shutdown) was
/// refused.
#[derive(Debug, Copy, Clone, PartialEq, Eq, Structural)]
pub enum SessionError {
    /// the backend cannot be reinitialized after a shutdown
    AlreadyShutDown,
    /// the backend is initialized exactly once per process
    AlreadyInitialized,
    /// the backend enumerated no encoder the catalog knows
    NoEncoderAvailable,
    /// the call came from a thread other than the initializing one
    WrongThread,
    /// the backend was never initialized
    NotInitialized,
    /// the backend's resources are gone after shutdown
    ResourcesGone,
    /// shutdown is refused while session handles are alive
    HandlesStillHeld,
}

/// The diagnostic text of each lifecycle refusal.
pub open spec fn spec_session_error_message(e: SessionError) -> Seq<char> {
    match e {
        SessionError::AlreadyShutDown => "libobs has already been shut down"@,
        SessionError::AlreadyInitialized => "libobs has already been initialized"@,
        SessionError::NoEncoderAvailable => "no encoder available"@,
        SessionError::WrongThread => "wrong thread - libobs was initialized in another thread"@,
        SessionError::NotInitialized => "libobs has not been initialized yet"@,
        SessionError::ResourcesGone => "got nullpointer instead of output"@,
        SessionError::HandlesStillHeld => "libobs can't be shut down due to existing Recorder instances"@,
    }
}

impl SessionError {
    pub fn message(&self) -> (r: &str)
        ensures
            r@ == spec_session_error_message(*self),
    {
        match self {
            SessionError::AlreadyShutDown => "libobs has already been shut down",
            SessionError::AlreadyInitialized => "libobs has already been initialized",
            SessionError::NoEncoderAvailable => "no encoder available",
            SessionError::WrongThread => "wrong thread - libobs was initialized in another thread",
            SessionError::NotInitialized => "libobs has not been initialized yet",
            SessionError::ResourcesGone => "got nullpointer instead of output",
            SessionError::HandlesStillHeld => "libobs can't be shut down due to existing Recorder instances",
        }
    }
}

/// The single-instance session manager over the capture backend, together
/// with the model of the backend state it drives. The backend itself is an
/// out-of-process native engine reached over FFI; this type carries the
/// decision logic and a faithful state model of the backend's observable
/// behaviour, so that every rule the session enforces is stated and checked.
/// The fields under "environment" fix what the modeled backend reports and
/// are never changed by the session.
pub struct InpRecorder {
    // lifecycle of the process-wide backend
    pub initialized: bool,
    pub init_thread: u64,
    pub shut_down: bool,
    pub ref_count: u32,
    // asset paths handed to the backend at initialization
    pub libobs_data_path: String,
    pub plugin_bin_path: String,
    pub plugin_data_path: String,
    // the backend's video pipeline and output
    pub video: VideoInfo,
    pub audio_ready: bool,
    pub output_path: String,
    pub output_active: bool,
    pub video_source_window: String,
    pub audio1_window: String,
    pub channel1_bound: bool,
    pub channel2_bound: bool,
    pub channel3_bound: bool,
    pub bound_encoder: Encoder,
    pub bound_rate_control: RateControl,
    pub bound_params: ObsData,
    // instrumentation: how often the disruptive backend operations ran
    pub reset_count: Ghost<int>,
    pub rebind_count: Ghost<int>,
    pub encoders_created: Ghost<int>,
    pub encoders_released: Ghost<int>,
    pub force_stops: Ghost<int>,
    // environment: what the backend will report, fixed at construction
    pub encoder_ids: Vec<String>,
    pub adapters: Vec<Adapter>,
    pub start_fails: bool,
    pub last_error: Option<String>,
    pub stop_delay_polls: u32,
}

/// The mathematical value of the session manager and its modeled backend.
#[verifier::ext_equal]
pub ghost struct RecorderV {
    pub initialized: bool,
    pub init_thread: u64,
    pub shut_down: bool,
    pub ref_count: u32,
    pub libobs_data_path: Seq<char>,
    pub plugin_bin_path: Seq<char>,
    pub plugin_data_path: Seq<char>,
    pub video: VideoInfo,
    pub audio_ready: bool,
    pub output_path: Seq<char>,
    pub output_active: bool,
    pub video_source_window: Seq<char>,
    pub audio1_window: Seq<char>,
    pub channel1_bound: bool,
    pub channel2_bound: bool,
    pub channel3_bound: bool,
    pub bound_encoder: Encoder,
    pub bound_rate_control: RateControl,
    pub bound_params: Seq<ObsEntryV>,
    pub reset_count: int,
    pub rebind_count: int,
    pub encoders_created: int,
    pub encoders_released: int,
    pub force_stops: int,
    pub encoder_ids: Seq<Seq<char>>,
    pub adapters: Seq<AdapterV>,
    pub start_fails: bool,
    pub last_error: Option<Seq<char>>,
    pub stop_delay_polls: u32,
}

impl View for InpRecorder {
    type V = RecorderV;

    open spec fn view(&self) -> RecorderV {
        RecorderV {
            initialized: self.initialized,
            init_thread: self.init_thread,
            shut_down: self.shut_down,
            ref_count: self.ref_count,
            libobs_data_path: self.libobs_data_path@,
            plugin_bin_path: self.plugin_bin_path@,
            plugin_data_path: self.plugin_data_path@,
            video: self.video,
            audio_ready: self.audio_ready,
            output_path: self.output_path@,
            output_active: self.output_active,
            video_source_window: self.video_source_window@,
            audio1_window: self.audio1_window@,
            channel1_bound: self.channel1_bound,
            channel2_bound: self.channel2_bound,
            channel3_bound: self.channel3_bound,
            bound_encoder: self.bound_encoder,
            bound_rate_control: self.bound_rate_control,
            bound_params: self.bound_params@,
            reset_count: self.reset_count@,
            rebind_count: self.rebind_count@,
            encoders_created: self.encoders_created@,
            encoders_released: self.encoders_released@,
            force_stops: self.force_stops@,
            encoder_ids: self.encoder_ids@.map_values(|s: String| s@),
            adapters: self.adapters@.map_values(|a: Adapter| a@),
            start_fails: self.start_fails,
            last_error: match self.last_error {
                Some(e) => Some(e@),
                None => None,
            },
            stop_delay_polls: self.stop_delay_polls,
        }
    }
}

/// The first position of the adapter with id 0, the one the backend's
/// resources live on.
pub open spec fn spec_first_id0(adapters: Seq<AdapterV>) -> int
    decreases adapters.len(),
{
    if adapters.len() == 0 {
        0
    } else if adapters[0].id == 0 {
        0
    } else {
        1 + spec_first_id0(adapters.drop_first())
    }
}

/// The adapter the backend's resources live on.
pub open spec fn spec_adapter0(adapters: Seq<AdapterV>) -> AdapterV {
    adapters[spec_first_id0(adapters)]
}

/// The first-found adapter with id 0 stands at the first index holding id 0.
proof fn lemma_first_id0_at(adapters: Seq<AdapterV>, i: int)
    requires
        0 <= i < adapters.len(),
        adapters[i].id == 0,
        forall|k: int| 0 <= k < i ==> adapters[k].id != 0,
    ensures
        spec_first_id0(adapters) == i,
    decreases i,
{
    if i > 0 {
        lemma_first_id0_at(adapters.drop_first(), i - 1);
    }
}

impl RecorderV {
    /// The environment invariant every backend has in practice: some adapter
    /// carries id 0. The native backend aborts when enumeration finds
    /// none.
    pub open spec fn env_wf(self) -> bool {
        exists|i: int| 0 <= i < self.adapters.len() && self.adapters[i].id == 0
    }
}

/// The requested framerate, or the default of 30 frames per second.
pub open spec fn spec_framerate_or_default(fr: Option<Framerate>) -> Framerate {
    match fr {
        Some(f) => f,
        None => Framerate(30, 1),
    }
}

/// The video pipeline parameters one settings value asks for.
pub open spec fn spec_requested_video(s: SettingsV) -> VideoInfo {
    let fr = spec_framerate_or_default(s.framerate);
    VideoInfo {
        fps_num: fr.0,
        fps_den: fr.1,
        base_width: s.input_resolution.width,
        base_height: s.input_resolution.height,
        output_width: s.output_resolution.width,
        output_height: s.output_resolution.height,
    }
}

/// The requested audio routing mode, or the default of application audio.
pub open spec fn spec_audio_mode(s: SettingsV) -> AudioSource {
    match s.audio_source {
        Some(a) => a,
        None => AudioSource::APPLICATION,
    }
}

/// The requested rate control, or the default constant quality.
pub open spec fn spec_rate_control_or_default(rc: Option<RateControl>) -> RateControl {
    match rc {
        Some(r) => r,
        None => RateControl::CQP(DEFAULT_CQP),
    }
}

/// What one `configure` call does: the next backend state and the result.
/// A refused call leaves the state untouched. The resolved encoder is the
/// explicitly requested one — refused when the current adapter does not
/// offer it — and, when none is requested, the currently bound one, which is
/// then kept. An accepted call resets the video pipeline exactly when the
/// requested parameters differ from the current ones (rebinding the encoder
/// and source right after), pushes the output path, swaps the bound encoder
/// only when the resolved one differs (creating the new resource before
/// releasing the old), updates parameters in place when only the rate
/// control changed, refreshes the video source's window, and routes each
/// audio channel from the mode alone.
pub open spec fn spec_configure(pre: RecorderV, s: SettingsV) -> (RecorderV, Result<
    (),
    ConfigError,
>) {
    if pre.output_active {
        (pre, Err(ConfigError::Busy))
    } else if !pre.initialized {
        (pre, Err(ConfigError::NotReady))
    } else {
        let avail = spec_available_encoders(pre.encoder_ids, spec_adapter0(pre.adapters).adapter_type);
        if s.encoder matches Some(e) && !avail.contains(e) {
            (pre, Err(ConfigError::EncoderUnavailable))
        } else {
            let e = match s.encoder {
                Some(e) => e,
                None => pre.bound_encoder,
            };
            let rc = spec_rate_control_or_default(s.rate_control);
            let req = spec_requested_video(s);
            let reset = req != pre.video;
            let swap = e != pre.bound_encoder;
            let update = !swap && rc != pre.bound_rate_control;
            let mode = spec_audio_mode(s);
            (RecorderV {
                video: req,
                reset_count: pre.reset_count + if reset { 1int } else { 0 },
                rebind_count: pre.rebind_count + if reset { 1int } else { 0 },
                output_path: s.output_path,
                bound_encoder: e,
                bound_rate_control: rc,
                bound_params: if swap || update {
                    spec_encoder_settings(e, rc)
                } else {
                    pre.bound_params
                },
                encoders_created: pre.encoders_created + if swap { 1int } else { 0 },
                encoders_released: pre.encoders_released + if swap { 1int } else { 0 },
                video_source_window: spec_window_id(s.window),
                channel1_bound: mode is APPLICATION,
                audio1_window: if mode is APPLICATION {
                    spec_window_id(s.window)
                } else {
                    pre.audio1_window
                },
                channel2_bound: mode is SYSTEM || mode is ALL,
                channel3_bound: mode is ALL,
                ..pre
            }, Ok(()))
        }
    }
}

/// What one `start_recording` call does. Starting while active succeeds and
/// changes nothing. Otherwise the start either activates the output, or
/// fails with the backend's diagnostic (a fixed fallback where the backend
/// offers none) and changes nothing.
pub open spec fn spec_start(pre: RecorderV) -> (RecorderV, Result<(), Seq<char>>) {
    if pre.output_active {
        (pre, Ok(()))
    } else if !pre.start_fails {
        (RecorderV { output_active: true, ..pre }, Ok(()))
    } else {
        (pre, Err(match pre.last_error {
            Some(e) => e,
            None => "no error message"@,
        }))
    }
}

/// What one `stop_recording` call does, and how many polls it takes. An
/// inactive output is seen inactive on the first poll. Otherwise the backend
/// reports inactive after its wind-down delay; if that takes longer than the
/// poll ceiling, the force stop fires on the last permitted poll. Either
/// way the output is inactive afterwards.
pub open spec fn spec_stop(pre: RecorderV) -> (RecorderV, u32) {
    if !pre.output_active {
        (pre, 1u32)
    } else if pre.stop_delay_polls < STOP_MAX_POLLS {
        (RecorderV { output_active: false, ..pre }, (pre.stop_delay_polls + 1) as u32)
    } else {
        (RecorderV { output_active: false, force_stops: pre.force_stops + 1, ..pre },
        STOP_MAX_POLLS)
    }
}

/// The view of an Option of borrowed text.
pub open spec fn spec_opt_str(o: Option<&str>) -> Option<Seq<char>> {
    match o {
        Some(s) => Some(s@),
        None => None,
    }
}

/// The text of an optional path, or the given default.
pub open spec fn spec_path_or(o: Option<Seq<char>>, default_path: Seq<char>) -> Seq<char> {
    match o {
        Some(p) => p,
        None => default_path,
    }
}

/// What one `initialize` call does: the one-time backend initialization.
/// After a shutdown the backend cannot come back; a second initialization is
/// refused; and a backend that enumerates no known encoder refuses to
/// initialize. Otherwise the call pins the initializing thread, applies the
/// default asset paths where none were given, builds the initial video
/// pipeline (1920x1080 at 30 frames per second), creates the output with its
/// default path, binds the most preferred available encoder with default
/// rate control, performs the one-time audio setup (the backend cannot
/// reset audio again), and binds the system-output audio source to
/// channel 2.
pub open spec fn spec_initialize(
    pre: RecorderV,
    caller_thread: u64,
    data_path: Option<Seq<char>>,
    bin_path: Option<Seq<char>>,
    plugin_path: Option<Seq<char>>,
) -> (RecorderV, Result<(), SessionError>) {
    if pre.shut_down {
        (pre, Err(SessionError::AlreadyShutDown))
    } else if pre.initialized {
        (pre, Err(SessionError::AlreadyInitialized))
    } else {
        let avail = spec_available_encoders(pre.encoder_ids, spec_adapter0(pre.adapters).adapter_type);
        if avail.len() == 0 {
            (pre, Err(SessionError::NoEncoderAvailable))
        } else {
            (RecorderV {
                initialized: true,
                init_thread: caller_thread,
                libobs_data_path: spec_path_or(data_path, DEFAULT_LIBOBS_DATA_PATH@),
                plugin_bin_path: spec_path_or(bin_path, DEFAULT_PLUGIN_BIN_PATH@),
                plugin_data_path: spec_path_or(plugin_path, DEFAULT_PLUGIN_DATA_PATH@),
                video: VideoInfo {
                    fps_num: 30,
                    fps_den: 1,
                    base_width: 1920,
                    base_height: 1080,
                    output_width: 1920,
                    output_height: 1080,
                },
                reset_count: pre.reset_count + 1,
                audio_ready: true,
                output_path: DEFAULT_OUTPUT_PATH@,
                video_source_window: Seq::<char>::empty(),
                channel1_bound: false,
                channel2_bound: true,
                channel3_bound: false,
                bound_encoder: avail[0],
                bound_rate_control: RateControl::CQP(DEFAULT_CQP),
                bound_params: spec_encoder_settings(avail[0], RateControl::CQP(DEFAULT_CQP)),
                encoders_created: pre.encoders_created + 1,
                ..pre
            }, Ok(()))
        }
    }
}

/// What acquiring a session handle does: it is refused before
/// initialization, from any thread but the initializing one, and after
/// shutdown (the resources are gone); otherwise it raises the handle count.
pub open spec fn spec_get_handle(pre: RecorderV, caller_thread: u64) -> (RecorderV, Result<
    (),
    SessionError,
>) {
    if !pre.initialized {
        (pre, Err(SessionError::NotInitialized))
    } else if pre.init_thread != caller_thread {
        (pre, Err(SessionError::WrongThread))
    } else if pre.shut_down {
        (pre, Err(SessionError::ResourcesGone))
    } else {
        (RecorderV { ref_count: (pre.ref_count + 1) as u32, ..pre }, Ok(()))
    }
}

/// What shutting the backend down does: refused before initialization and
/// from the wrong thread; idempotent once shut down; refused while any
/// session handle is alive; otherwise the backend is gone for good.
pub open spec fn spec_shutdown(pre: RecorderV, caller_thread: u64) -> (RecorderV, Result<
    (),
    SessionError,
>) {
    if !pre.initialized {
        (pre, Err(SessionError::NotInitialized))
    } else if pre.init_thread != caller_thread {
        (pre, Err(SessionError::WrongThread))
    } else if pre.shut_down {
        (pre, Ok(()))
    } else if pre.ref_count > 0 {
        (pre, Err(SessionError::HandlesStillHeld))
    } else {
        (RecorderV { shut_down: true, ..pre }, Ok(()))
    }
}

/// The view of a start result.
pub open spec fn spec_start_result_view(r: Result<(), String>) -> Result<(), Seq<char>> {
    match r {
        Ok(()) => Ok(()),
        Err(e) => Err(e@),
    }
}

/// Whether a vector of encoders holds `e`.
fn contains_encoder(v: &Vec<Encoder>, e: Encoder) -> (r: bool)
    ensures
        r == v@.contains(e),
{
    let mut i: usize = 0;
    while i < v.len()
        invariant
            i <= v.len(),
            forall|k: int| 0 <= k < i ==> v@[k] != e,
        decreases v.len() - i,
    {
        if v[i] == e {
            return true;
        }
        i += 1;
    }
    false
}

impl InpRecorder {
    /// A session manager over a modeled backend. The arguments fix the
    /// environment: which encoder type identifiers the backend enumerates,
    /// which adapters it reports, whether starting the output fails and
    /// with what diagnostic, and for how many polls a stopping output stays
    /// active.
    pub fn with_environment(
        encoder_ids: Vec<String>,
        adapters: Vec<Adapter>,
        start_fails: bool,
        last_error: Option<String>,
        stop_delay_polls: u32,
    ) -> (r: InpRecorder)
        ensures
            !r@.initialized,
            r@.init_thread == 0,
            !r@.shut_down,
            r@.ref_count == 0,
            r@.libobs_data_path == Seq::<char>::empty(),
            r@.plugin_bin_path == Seq::<char>::empty(),
            r@.plugin_data_path == Seq::<char>::empty(),
            r@.video == (VideoInfo {
                fps_num: 0,
                fps_den: 0,
                base_width: 0,
                base_height: 0,
                output_width: 0,
                output_height: 0,
            }),
            !r@.audio_ready,
            r@.output_path == Seq::<char>::empty(),
            !r@.output_active,
            r@.video_source_window == Seq::<char>::empty(),
            r@.audio1_window == Seq::<char>::empty(),
            !r@.channel1_bound,
            !r@.channel2_bound,
            !r@.channel3_bound,
            r@.bound_encoder == Encoder::OBS_X264,
            r@.bound_rate_control == RateControl::CQP(DEFAULT_CQP),
            r@.bound_params == Seq::<ObsEntryV>::empty(),
            r@.reset_count == 0,
            r@.rebind_count == 0,
            r@.encoders_created == 0,
            r@.encoders_released == 0,
            r@.force_stops == 0,
            r@.encoder_ids == encoder_ids@.map_values(|s: String| s@),
            r@.adapters == adapters@.map_values(|a: Adapter| a@),
            r@.start_fails == start_fails,
            r@.last_error == (match last_error {
                Some(e) => Some(e@),
                None => None::<Seq<char>>,
            }),
            r@.stop_delay_polls == stop_delay_polls,
    {
        InpRecorder {
            initialized: false,
            init_thread: 0,
            shut_down: false,
            ref_count: 0,
            libobs_data_path: String::new(),
            plugin_bin_path: String::new(),
            plugin_data_path: String::new(),
            video: VideoInfo {
                fps_num: 0,
                fps_den: 0,
                base_width: 0,
                base_height: 0,
                output_width: 0,
                output_height: 0,
            },
            audio_ready: false,
            output_path: String::new(),
            output_active: false,
            video_source_window: String::new(),
            audio1_window: String::new(),
            channel1_bound: false,
            channel2_bound: false,
            channel3_bound: false,
            bound_encoder: Encoder::OBS_X264,
            bound_rate_control: RateControl::CQP(DEFAULT_CQP),
            bound_params: ObsData::new(),
            reset_count: Ghost(0),
            rebind_count: Ghost(0),
            encoders_created: Ghost(0),
            encoders_released: Ghost(0),
            force_stops: Ghost(0),
            encoder_ids,
            adapters,
            start_fails,
            last_error,
            stop_delay_polls,
        }
    }

    /// The adapter the backend's resources live on: the first with id 0.
    fn adapter0(&self) -> (r: &Adapter)
        requires
            self@.env_wf(),
        ensures
            r@ == spec_adapter0(self@.adapters),
    {
        let mut i: usize = 0;
        while i < self.adapters.len()
            invariant
                self@.env_wf(),
                i <= self.adapters.len(),
                forall|k: int| 0 <= k < i ==> self@.adapters[k].id != 0,
            decreases self.adapters.len() - i,
        {
            if self.adapters[i].id == 0 {
                proof {
                    lemma_first_id0_at(self@.adapters, i as int);
                }
                return &self.adapters[i];
            }
            i += 1;
        }
        proof {
            assert(false);
        }
        &self.adapters[0]
    }

    /// One-time initialization of the backend; see `spec_initialize`.
    pub fn initialize(
        &mut self,
        caller_thread: u64,
        libobs_data_path: Option<&str>,
        plugin_bin_path: Option<&str>,
        plugin_data_path: Option<&str>,
    ) -> (r: Result<(), SessionError>)
        requires
            old(self)@.env_wf(),
        ensures
            (final(self)@, r) == spec_initialize(
                old(self)@,
                caller_thread,
                spec_opt_str(libobs_data_path),
                spec_opt_str(plugin_bin_path),
                spec_opt_str(plugin_data_path),
            ),
    {
        if self.shut_down {
            return Err(SessionError::AlreadyShutDown);
        }
        if self.initialized {
            return Err(SessionError::AlreadyInitialized);
        }
        let available = {
            let adapter = self.adapter0();
            available_encoders_from(&self.encoder_ids, adapter)
        };
        if available.len() == 0 {
            return Err(SessionError::NoEncoderAvailable);
        }
        let chosen = available[0];
        self.initialized = true;
        self.init_thread = caller_thread;
        self.libobs_data_path = match libobs_data_path {
            Some(p) => p.to_owned(),
            None => DEFAULT_LIBOBS_DATA_PATH.to_owned(),
        };
        self.plugin_bin_path = match plugin_bin_path {
            Some(p) => p.to_owned(),
            None => DEFAULT_PLUGIN_BIN_PATH.to_owned(),
        };
        self.plugin_data_path = match plugin_data_path {
            Some(p) => p.to_owned(),
            None => DEFAULT_PLUGIN_DATA_PATH.to_owned(),
        };
        self.video = VideoInfo {
            fps_num: 30,
            fps_den: 1,
            base_width: 1920,
            base_height: 1080,
            output_width: 1920,
            output_height: 1080,
        };
        self.reset_count = Ghost(self.reset_count@ + 1);
        self.audio_ready = true;
        self.output_path = DEFAULT_OUTPUT_PATH.to_owned();
        self.video_source_window = String::new();
        self.channel1_bound = false;
        self.channel2_bound = true;
        self.channel3_bound = false;
        self.bound_encoder = chosen;
        self.bound_rate_control = RateControl::CQP(DEFAULT_CQP);
        self.bound_params = chosen.settings(RateControl::CQP(DEFAULT_CQP));
        self.encoders_created = Ghost(self.encoders_created@ + 1);
        proof {
            assert(self@ =~= spec_initialize(
                old(self)@,
                caller_thread,
                spec_opt_str(libobs_data_path),
                spec_opt_str(plugin_bin_path),
                spec_opt_str(plugin_data_path),
            ).0);
        }
        Ok(())
    }

    /// Acquires a session handle; see `spec_get_handle`.
    pub fn get_handle(&mut self, caller_thread: u64) -> (r: Result<(), SessionError>)
        requires
            old(self)@.ref_count < u32::MAX,
        ensures
            (final(self)@, r) == spec_get_handle(old(self)@, caller_thread),
    {
        if !self.initialized {
            return Err(SessionError::NotInitialized);
        }
        if self.init_thread != caller_thread {
            return Err(SessionError::WrongThread);
        }
        if self.shut_down {
            return Err(SessionError::ResourcesGone);
        }
        self.ref_count = self.ref_count + 1;
        proof {
            assert(self@ =~= spec_get_handle(old(self)@, caller_thread).0);
        }
        Ok(())
    }

    /// Releases one session handle, as dropping a handle does.
    pub fn release_handle(&mut self)
        requires
            old(self)@.ref_count > 0,
        ensures
            final(self)@ == (RecorderV { ref_count: (old(self)@.ref_count - 1) as u32, ..old(self)@ }),
    {
        self.ref_count = self.ref_count - 1;
        proof {
            assert(self@ =~= (RecorderV { ref_count: (old(self)@.ref_count - 1) as u32, ..old(self)@ }));
        }
    }

    /// Shuts the backend down; see `spec_shutdown`.
    pub fn shutdown(&mut self, caller_thread: u64) -> (r: Result<(), SessionError>)
        ensures
            (final(self)@, r) == spec_shutdown(old(self)@, caller_thread),
    {
        if !self.initialized {
            return Err(SessionError::NotInitialized);
        }
        if self.init_thread != caller_thread {
            return Err(SessionError::WrongThread);
        }
        if self.shut_down {
            return Ok(());
        }
        if self.ref_count > 0 {
            return Err(SessionError::HandlesStillHeld);
        }
        self.shut_down = true;
        proof {
            assert(self@ =~= spec_shutdown(old(self)@, caller_thread).0);
        }
        Ok(())
    }

    /// Whether the output is currently active; a direct backend query.
    pub fn is_recording(&self) -> (r: bool)
        ensures
            r == self@.output_active,
    {
        self.output_active
    }

    /// Starts the recording; see `spec_start`. Starting while active
    /// succeeds and changes nothing.
    pub fn start_recording(&mut self) -> (r: Result<(), String>)
        ensures
            final(self)@ == spec_start(old(self)@).0,
            spec_start_result_view(r) == spec_start(old(self)@).1,
    {
        if self.is_recording() {
            return Ok(());
        }
        if !self.start_fails {
            self.output_active = true;
            proof {
                assert(self@ =~= spec_start(old(self)@).0);
            }
            return Ok(());
        }
        let message = match &self.last_error {
            Some(e) => e.clone(),
            None => "no error message".to_owned(),
        };
        Err(message)
    }

    /// Stops the recording with the bounded poll-then-force loop; see
    /// `spec_stop`. Returns how many polls were needed: never more than
    /// `STOP_MAX_POLLS`, and the output is inactive afterwards whatever the
    /// backend did.
    pub fn stop_recording(&mut self) -> (polls: u32)
        ensures
            (final(self)@, polls) == spec_stop(old(self)@),
            polls <= STOP_MAX_POLLS,
            !final(self)@.output_active,
    {
        if !self.is_recording() {
            return 1;
        }
        // the backend has been asked to stop; poll it on the fixed interval
        let delay = self.stop_delay_polls;
        let mut polls: u32 = 0;
        loop
            invariant
                polls < STOP_MAX_POLLS,
                polls <= delay,
                delay == self.stop_delay_polls,
                self == old(self),
                self@.output_active,
            decreases STOP_MAX_POLLS - polls,
        {
            polls = polls + 1;
            // one poll interval elapses; the backend winds down one step
            if polls > delay {
                // the backend reports the output inactive
                self.output_active = false;
                proof {
                    assert(self@ =~= spec_stop(old(self)@).0);
                }
                return polls;
            }
            if polls == STOP_MAX_POLLS {
                // ceiling reached: force the output down unconditionally
                self.output_active = false;
                self.force_stops = Ghost(self.force_stops@ + 1);
                proof {
                    assert(self@ =~= spec_stop(old(self)@).0);
                }
                return polls;
            }
        }
    }

    /// Applies one settings value to the backend; see `spec_configure`.
    #[verifier::rlimit(80)]
    pub fn configure(&mut self, settings: &RecorderSettings) -> (r: Result<(), ConfigError>)
        requires
            old(self)@.env_wf(),
        ensures
            (final(self)@, r) == spec_configure(old(self)@, settings@),
    {
        if self.is_recording() {
            return Err(ConfigError::Busy);
        }
        if !self.initialized {
            return Err(ConfigError::NotReady);
        }
        // resolve the encoder before any side effect: a refused configure
        // leaves the backend in its prior state
        let resolved: Encoder;
        if let Some(e) = settings.encoder {
            let available = {
                let adapter = self.adapter0();
                available_encoders_from(&self.encoder_ids, adapter)
            };
            if !contains_encoder(&available, e) {
                return Err(ConfigError::EncoderUnavailable);
            }
            resolved = e;
        } else {
            // no explicit request: keep the currently bound encoder
            resolved = self.bound_encoder;
        }
        let rc = match settings.rate_control {
            Some(rc) => rc,
            None => RateControl::default(),
        };
        // reset the video pipeline only when the requested parameters differ:
        // the reset is disruptive and must not run when nothing changed
        let fr = match settings.framerate {
            Some(f) => f,
            None => Framerate::new(30, 1),
        };
        let requested = VideoInfo {
            fps_num: fr.num(),
            fps_den: fr.den(),
            base_width: settings.input_resolution.width,
            base_height: settings.input_resolution.height,
            output_width: settings.output_resolution.width,
            output_height: settings.output_resolution.height,
        };
        if requested != self.video {
            self.video = requested;
            self.reset_count = Ghost(self.reset_count@ + 1);
            // after a reset the video encoder and video source must be
            // rebound to the refreshed pipeline
            self.rebind_count = Ghost(self.rebind_count@ + 1);
        }
        // push the output path to the output resource
        self.output_path = settings.output_path.clone();
        // swap the encoder only when the resolved one differs, creating the
        // new resource before releasing the old; update parameters in place
        // when only the rate control changed
        if resolved != self.bound_encoder {
            self.bound_params = resolved.settings(rc);
            self.bound_encoder = resolved;
            self.bound_rate_control = rc;
            self.encoders_created = Ghost(self.encoders_created@ + 1);
            self.encoders_released = Ghost(self.encoders_released@ + 1);
        } else if rc != self.bound_rate_control {
            self.bound_params = resolved.settings(rc);
            self.bound_rate_control = rc;
        } else {
            self.bound_rate_control = rc;
        }
        // update the video source's target window
        self.video_source_window = settings.window.get_libobs_window_id();
        // route the audio channels from the mode alone; every channel the
        // mode does not claim is cleared, so switching modes never leaves a
        // stale source routed
        let mode = match settings.audio_source {
            Some(a) => a,
            None => AudioSource::APPLICATION,
        };
        if mode == AudioSource::APPLICATION {
            self.audio1_window = settings.window.get_libobs_window_id();
            self.channel1_bound = true;
        } else {
            self.channel1_bound = false;
        }
        self.channel2_bound = mode == AudioSource::SYSTEM || mode == AudioSource::ALL;
        self.channel3_bound = mode == AudioSource::ALL;
        proof {
            assert(self@ =~= spec_configure(old(self)@, settings@).0);
        }
        Ok(())
    }

    /// The adapter the session runs on, freshly queried.
    pub fn get_adapter_info(&self) -> (r: Adapter)
        requires
            self@.env_wf(),
        ensures
            r@ == spec_adapter0(self@.adapters),
    {
        self.adapter0().duplicate()
    }

    /// The encoders available on the current adapter, in preference order.
    pub fn get_available_encoders(&self) -> (r: Vec<Encoder>)
        requires
            self@.env_wf(),
        ensures
            r@ == spec_available_encoders(self@.encoder_ids, spec_adapter0(self@.adapters).adapter_type),
    {
        let adapter = self.adapter0();
        available_encoders_from(&self.encoder_ids, adapter)
    }

    /// The encoder currently bound to the session.
    pub fn selected_encoder(&self) -> (r: Encoder)
        ensures
            r == self@.bound_encoder,
    {
        self.bound_encoder
    }
}

/// Idempotent start: starting while the output is already active succeeds
/// and changes nothing, so a second start in a row also succeeds, and no
/// second output resource ever comes into being.
pub proof fn lemma_start_idempotent(pre: RecorderV)
    requires
        pre.output_active,
    ensures
        spec_start(pre) == (pre, Ok::<(), Seq<char>>(())),
        spec_start(spec_start(pre).0) == (pre, Ok::<(), Seq<char>>(())),
{
}

/// Bounded stop: whatever the backend does, one stop call polls at most
/// `STOP_MAX_POLLS` times — the poll ceiling divided by the interval, plus
/// one — and the output is inactive afterwards.
pub proof fn lemma_stop_bounded(pre: RecorderV)
    ensures
        spec_stop(pre).1 <= STOP_MAX_POLLS,
        !spec_stop(pre).0.output_active,
{
}

/// No-op reset avoidance: an accepted configure leaves the video pipeline
/// equal to what the settings asked, so configuring again with the same
/// settings resets the pipeline a second time never, and the whole pair
/// resets it at most once.
pub proof fn lemma_configure_reset_at_most_once(pre: RecorderV, s: SettingsV)
    requires
        spec_configure(pre, s).1 is Ok,
    ensures
        ({
            let once = spec_configure(pre, s).0;
            let twice = spec_configure(once, s).0;
            &&& spec_configure(once, s).1 is Ok
            &&& twice.reset_count == once.reset_count
            &&& once.reset_count <= pre.reset_count + 1
        }),
{
}

/// Encoder stability: a configure that requests no explicit encoder keeps
/// the currently bound one, so it never creates or releases an encoder
/// resource; at most it updates the bound encoder's parameters in place.
pub proof fn lemma_configure_keeps_encoder(pre: RecorderV, s: SettingsV)
    requires
        s.encoder is None,
        spec_configure(pre, s).1 is Ok,
    ensures
        spec_configure(pre, s).0.bound_encoder == pre.bound_encoder,
        spec_configure(pre, s).0.encoders_created == pre.encoders_created,
        spec_configure(pre, s).0.encoders_released == pre.encoders_released,
{
}

/// Audio channel exclusivity: after an accepted configure, each audio
/// channel is bound exactly when the requested mode claims it — none for
/// NONE, the window channel alone for APPLICATION, the system-output channel
/// alone for SYSTEM, all three for ALL.
pub proof fn lemma_audio_exclusivity(pre: RecorderV, s: SettingsV)
    requires
        spec_configure(pre, s).1 is Ok,
    ensures
        ({
            let post = spec_configure(pre, s).0;
            &&& post.channel1_bound == (spec_audio_mode(s) is APPLICATION)
            &&& post.channel2_bound == (spec_audio_mode(s) is SYSTEM || spec_audio_mode(s) is ALL)
            &&& post.channel3_bound == (spec_audio_mode(s) is ALL)
        }),
{
}

/// Switching the audio mode from ALL to NONE unbinds all three channels:
/// no stale source stays routed. (Channel 1 carries the window-scoped
/// source under APPLICATION mode alone, so ALL binds channels 2 and 3.)
pub proof fn lemma_audio_switch_all_to_none(pre: RecorderV, s1: SettingsV, s2: SettingsV)
    requires
        spec_audio_mode(s1) is ALL,
        spec_audio_mode(s2) is NONE,
        spec_configure(pre, s1).1 is Ok,
        spec_configure(spec_configure(pre, s1).0, s2).1 is Ok,
    ensures
        ({
            let mid = spec_configure(pre, s1).0;
            &&& !mid.channel1_bound && mid.channel2_bound && mid.channel3_bound
            &&& !spec_configure(mid, s2).0.channel1_bound
            &&& !spec_configure(mid, s2).0.channel2_bound
            &&& !spec_configure(mid, s2).0.channel3_bound
        }),
{
}

} // verus!
