use vstd::prelude::*;

verus! {

/// How the video encoder governs bitrate or quality: constant bitrate,
/// variable bitrate, or one of three constant-quality modes (quantizer,
/// rate factor, intelligent constant quality).
#[derive(Debug, Copy, Clone, PartialEq, Eq, Structural)]
pub enum RateControl {
    CBR(u32),
    VBR(u32),
    CQP(u32),
    CRF(u32),
    ICQ(u32),
}

/// The quality level used when a caller asks for no rate control at all.
pub const DEFAULT_CQP: u32 = 20;

impl Default for RateControl {
    /// Constant quality at a fixed default level.
    fn default() -> (r: Self)
        ensures
            r == RateControl::CQP(DEFAULT_CQP),
    {
        RateControl::CQP(DEFAULT_CQP)
    }
}

} // verus!
