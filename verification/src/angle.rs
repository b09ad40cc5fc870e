//! The aim angle of a turret, in milliradians, constrained to the upper
//! half-circle: 0 points right along the ground, `PI_MRAD` points left.

use vstd::prelude::*;

verus! {

/// Half a turn, in milliradians: the largest value an [`Angle`] may hold.
pub const PI_MRAD: u32 = 3142;

/// A quarter turn: straight up.
pub const HALF_PI_MRAD: u32 = 1571;

/// An aim angle in `[0, PI_MRAD]` milliradians.
#[derive(Clone, Copy, PartialEq, Eq, Structural, Debug)]
pub struct Angle {
    value: u32,
}

impl Angle {
    /// The stored milliradian value.
    pub closed spec fn spec_value(self) -> u32 {
        self.value
    }

    /// An angle is valid when it lies in the upper half-circle.
    pub open spec fn wf(self) -> bool {
        self.spec_value() <= PI_MRAD
    }

    /// Accepts a value only inside the half-circle domain.
    pub fn new(value: u32) -> (r: Option<Angle>)
        ensures
            value <= PI_MRAD ==> (r matches Some(a) && a.spec_value() == value),
            value > PI_MRAD ==> r is None,
    {
        if value <= PI_MRAD {
            Some(Angle { value })
        } else {
            None
        }
    }

    pub fn get(&self) -> (v: u32)
        ensures
            v == self.spec_value(),
    {
        self.value
    }

    /// Replaces the angle when the new value is in the domain; an
    /// out-of-domain value is rejected and the old angle is retained.
    /// Returns whether the value was accepted.
    pub fn set(&mut self, value: u32) -> (accepted: bool)
        ensures
            accepted == (value <= PI_MRAD),
            final(self).spec_value() == if value <= PI_MRAD {
                value
            } else {
                old(self).spec_value()
            },
    {
        if value <= PI_MRAD {
            self.value = value;
            true
        } else {
            false
        }
    }
}

impl Default for Angle {
    /// A fresh turret aims straight up.
    fn default() -> (a: Angle)
        ensures
            a.spec_value() == HALF_PI_MRAD,
            a.wf(),
    {
        Angle { value: HALF_PI_MRAD }
    }
}

} // verus!
