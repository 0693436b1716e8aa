use vstd::prelude::*;

verus! {

/// Which audio the recording should carry.
#[allow(non_camel_case_types)]
#[derive(Debug, Copy, Clone, PartialEq, Eq, Structural)]
pub enum AudioSource {
    /// no audio
    NONE,
    /// only the audio of the window that is being captured
    APPLICATION,
    /// the default audio output of the machine
    SYSTEM,
    /// the default audio input and output of the machine
    ALL,
}

} // verus!
