use vstd::prelude::*;

use crate::audio::AudioSource;
use crate::encoders::Encoder;
use crate::framerate::Framerate;
use crate::rate_control::RateControl;
use crate::resolution::Resolution;
use crate::window::{Window, WindowV};

verus! {

/// Everything one `configure` call asks of the session: an immutable value
/// object, supplied anew on every call and never mutated by the session.
#[derive(Debug, Clone)]
pub struct RecorderSettings {
    pub window: Window,
    pub input_resolution: Resolution,
    pub output_resolution: Resolution,
    pub output_path: String,
    pub framerate: Option<Framerate>,
    pub rate_control: Option<RateControl>,
    pub audio_source: Option<AudioSource>,
    pub encoder: Option<Encoder>,
}

/// The mathematical value of a `RecorderSettings`.
pub ghost struct SettingsV {
    pub window: WindowV,
    pub input_resolution: Resolution,
    pub output_resolution: Resolution,
    pub output_path: Seq<char>,
    pub framerate: Option<Framerate>,
    pub rate_control: Option<RateControl>,
    pub audio_source: Option<AudioSource>,
    pub encoder: Option<Encoder>,
}

impl View for RecorderSettings {
    type V = SettingsV;

    open spec fn view(&self) -> SettingsV {
        SettingsV {
            window: self.window@,
            input_resolution: self.input_resolution,
            output_resolution: self.output_resolution,
            output_path: self.output_path@,
            framerate: self.framerate,
            rate_control: self.rate_control,
            audio_source: self.audio_source,
            encoder: self.encoder,
        }
    }
}

impl RecorderSettings {
    /// Fresh settings for the given window, sizes and output file; framerate,
    /// rate control, audio routing and encoder are left for the session to
    /// default.
    pub fn new(
        window: Window,
        input_resolution: Resolution,
        output_resolution: Resolution,
        output_path: &str,
    ) -> (r: RecorderSettings)
        ensures
            r@.window == window@,
            r@.input_resolution == input_resolution,
            r@.output_resolution == output_resolution,
            r@.output_path == output_path@,
            r@.framerate is None,
            r@.rate_control is None,
            r@.audio_source is None,
            r@.encoder is None,
    {
        RecorderSettings {
            window,
            input_resolution,
            output_resolution,
            output_path: output_path.to_owned(),
            framerate: None,
            rate_control: None,
            audio_source: None,
            encoder: None,
        }
    }

    pub fn set_window(&mut self, window: Window)
        ensures
            final(self)@ == (SettingsV { window: window@, ..old(self)@ }),
    {
        self.window = window;
    }

    pub fn get_window(&self) -> (r: &Window)
        ensures
            r@ == self@.window,
    {
        &self.window
    }

    pub fn set_input_resolution(&mut self, size: Resolution)
        ensures
            final(self)@ == (SettingsV { input_resolution: size, ..old(self)@ }),
    {
        self.input_resolution = size;
    }

    pub fn get_input_resolution(&self) -> (r: Resolution)
        ensures
            r == self@.input_resolution,
    {
        self.input_resolution
    }

    pub fn set_output_resolution(&mut self, resolution: Resolution)
        ensures
            final(self)@ == (SettingsV { output_resolution: resolution, ..old(self)@ }),
    {
        self.output_resolution = resolution;
    }

    pub fn get_output_resolution(&self) -> (r: Resolution)
        ensures
            r == self@.output_resolution,
    {
        self.output_resolution
    }

    pub fn set_output_path(&mut self, output_path: &str)
        ensures
            final(self)@ == (SettingsV { output_path: output_path@, ..old(self)@ }),
    {
        self.output_path = output_path.to_owned();
    }

    pub fn get_output_path(&self) -> (r: &str)
        ensures
            r@ == self@.output_path,
    {
        self.output_path.as_str()
    }

    pub fn set_framerate(&mut self, framerate: Framerate)
        ensures
            final(self)@ == (SettingsV { framerate: Some(framerate), ..old(self)@ }),
    {
        self.framerate = Some(framerate);
    }

    pub fn get_framerate(&self) -> (r: Option<Framerate>)
        ensures
            r == self@.framerate,
    {
        self.framerate
    }

    pub fn set_rate_control(&mut self, rate_control: RateControl)
        ensures
            final(self)@ == (SettingsV { rate_control: Some(rate_control), ..old(self)@ }),
    {
        self.rate_control = Some(rate_control);
    }

    pub fn get_rate_control(&self) -> (r: Option<RateControl>)
        ensures
            r == self@.rate_control,
    {
        self.rate_control
    }

    pub fn set_audio_source(&mut self, record_audio: AudioSource)
        ensures
            final(self)@ == (SettingsV { audio_source: Some(record_audio), ..old(self)@ }),
    {
        self.audio_source = Some(record_audio);
    }

    pub fn get_audio_source(&self) -> (r: Option<AudioSource>)
        ensures
            r == self@.audio_source,
    {
        self.audio_source
    }

    pub fn set_encoder(&mut self, encoder: Encoder)
        ensures
            final(self)@ == (SettingsV { encoder: Some(encoder), ..old(self)@ }),
    {
        self.encoder = Some(encoder);
    }

    pub fn get_encoder(&self) -> (r: Option<Encoder>)
        ensures
            r == self@.encoder,
    {
        self.encoder
    }
}

} // verus!
