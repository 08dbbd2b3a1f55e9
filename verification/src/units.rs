//! Fixed-point units used by the shape model.
//!
//! Coordinates arrive in twips, a sub-pixel unit of one twentieth of a
//! render pixel. The linear components of a placement transform arrive as
//! 16.16 fixed-point scale factors. Both stay integers until the embedder
//! converts to machine floats.

use vstd::prelude::*;

verus! {

use crate::rational::Rational;

/// A coordinate in twips: twenty twips make one render pixel.
#[derive(Clone, Copy, PartialEq, Eq, Structural, Debug)]
pub struct Twips {
    pub raw: i32,
}

/// The exact pixel value of a twips coordinate: `raw / 20`.
pub open spec fn pixels_of(t: Twips) -> Rational {
    Rational { num: t.raw as i128, den: 20 }
}

impl Twips {
    pub fn new(raw: i32) -> (t: Twips)
        ensures
            t.raw == raw,
    {
        Twips { raw }
    }

    /// Converts to render pixels by dividing by twenty, exactly.
    pub fn to_pixels(self) -> (r: Rational)
        ensures
            r == pixels_of(self),
            r.wf(),
            r.is_frac(self.raw as int, 20),
    {
        Rational { num: self.raw as i128, den: 20 }
    }
}

/// A 16.16 fixed-point scale factor: the value is `raw / 65536`.
#[derive(Clone, Copy, PartialEq, Eq, Structural, Debug)]
pub struct Fixed16 {
    pub raw: i32,
}

impl Fixed16 {
    pub fn new(raw: i32) -> (f: Fixed16)
        ensures
            f.raw == raw,
    {
        Fixed16 { raw }
    }

    /// The factor with integer value `v`.
    pub fn from_int(v: i16) -> (f: Fixed16)
        ensures
            f.raw == v * 65536,
    {
        Fixed16 { raw: (v as i32) * 65536 }
    }
}

} // verus!
