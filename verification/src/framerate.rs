use vstd::prelude::*;

verus! {

/// Frames per second as a rational number: numerator over denominator.
#[derive(Debug, Copy, Clone, PartialEq, Eq, Structural)]
pub struct Framerate(pub u32, pub u32);

impl Framerate {
    /// Builds a framerate, raising a zero numerator or denominator to 1 so
    /// that the pair always describes a well-formed rate.
    pub fn new(num: u32, den: u32) -> (r: Framerate)
        ensures
            r.0 == if num == 0 { 1u32 } else { num },
            r.1 == if den == 0 { 1u32 } else { den },
    {
        Framerate(if num == 0 { 1 } else { num }, if den == 0 { 1 } else { den })
    }

    pub fn num(&self) -> (r: u32)
        ensures
            r == self.0,
    {
        self.0
    }

    pub fn den(&self) -> (r: u32)
        ensures
            r == self.1,
    {
        self.1
    }

    pub fn is_valid(&self) -> (r: bool)
        ensures
            r == (self.0 > 0 && self.1 > 0),
    {
        self.0 > 0 && self.1 > 0
    }
}

} // verus!
