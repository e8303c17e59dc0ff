//! Where the telescope points, in one of two coordinate frames.
//!
//! The conversion between the frames is a stand-in: it swaps the fields
//! (altitude with declination, azimuth with right ascension) and knows
//! neither the observer's place nor the time. It is no astronomical
//! transform, and the contracts below pin down exactly this swap.
use crate::fixed::Fixed;
use vstd::prelude::*;

verus! {

/// A direction relative to the horizon, in degrees.
#[derive(Debug, Clone, Copy, PartialEq, Eq, Structural)]
pub struct AltAZPostion {
    pub alt: Fixed,
    pub az: Fixed,
}

/// A direction on the celestial sphere, in degrees.
#[derive(Debug, Clone, Copy, PartialEq, Eq, Structural)]
pub struct EqPostion {
    pub ra: Fixed,
    pub dec: Fixed,
}

impl EqPostion {
    /// The horizontal direction that stands for `self`.
    pub open spec fn spec_alt_az(self) -> AltAZPostion {
        AltAZPostion { alt: self.dec, az: self.ra }
    }
}

impl AltAZPostion {
    /// The equatorial direction that stands for `self`.
    pub open spec fn spec_eq(self) -> EqPostion {
        EqPostion { ra: self.az, dec: self.alt }
    }
}

impl From<EqPostion> for AltAZPostion {
    fn from(value: EqPostion) -> (r: AltAZPostion) {
        AltAZPostion { alt: value.dec, az: value.ra }
    }
}

impl vstd::std_specs::convert::FromSpecImpl<EqPostion> for AltAZPostion {
    open spec fn obeys_from_spec() -> bool {
        true
    }

    open spec fn from_spec(value: EqPostion) -> AltAZPostion {
        value.spec_alt_az()
    }
}

impl From<AltAZPostion> for EqPostion {
    fn from(value: AltAZPostion) -> (r: EqPostion) {
        EqPostion { ra: value.az, dec: value.alt }
    }
}

impl vstd::std_specs::convert::FromSpecImpl<AltAZPostion> for EqPostion {
    open spec fn obeys_from_spec() -> bool {
        true
    }

    open spec fn from_spec(value: AltAZPostion) -> EqPostion {
        value.spec_eq()
    }
}

/// A direction given in either frame.
#[derive(Debug, Clone, Copy, PartialEq, Eq, Structural)]
pub enum TelescopePosition {
    AltAz(AltAZPostion),
    Eq(EqPostion),
}

impl TelescopePosition {
    /// The direction in the horizontal frame.
    pub open spec fn spec_alt_az(&self) -> AltAZPostion {
        match *self {
            TelescopePosition::AltAz(pos) => pos,
            TelescopePosition::Eq(pos) => pos.spec_alt_az(),
        }
    }

    /// The direction in the equatorial frame.
    pub open spec fn spec_eq(&self) -> EqPostion {
        match *self {
            TelescopePosition::Eq(pos) => pos,
            TelescopePosition::AltAz(pos) => pos.spec_eq(),
        }
    }

    pub fn new_alt_az(alt: Fixed, az: Fixed) -> (p: Self)
        ensures
            p == TelescopePosition::AltAz(AltAZPostion { alt, az }),
    {
        TelescopePosition::AltAz(AltAZPostion { alt, az })
    }

    pub fn new_eq(ra: Fixed, dec: Fixed) -> (p: Self)
        ensures
            p == TelescopePosition::Eq(EqPostion { ra, dec }),
    {
        TelescopePosition::Eq(EqPostion { ra, dec })
    }

    /// The direction in the horizontal frame: the value itself where it was
    /// given in that frame, the swapped fields where it was not.
    #[verifier::when_used_as_spec(spec_alt_az)]
    pub fn get_alt_az(&self) -> (pos: AltAZPostion)
        ensures
            pos == self.spec_alt_az(),
    {
        match self {
            TelescopePosition::AltAz(pos) => *pos,
            TelescopePosition::Eq(pos) => AltAZPostion::from(*pos),
        }
    }

    /// The direction in the equatorial frame: the value itself where it was
    /// given in that frame, the swapped fields where it was not.
    #[verifier::when_used_as_spec(spec_eq)]
    pub fn get_eq(&self) -> (pos: EqPostion)
        ensures
            pos == self.spec_eq(),
    {
        match self {
            TelescopePosition::Eq(pos) => *pos,
            TelescopePosition::AltAz(pos) => EqPostion::from(*pos),
        }
    }
}

/// Converting a direction to the other frame and back gives the direction
/// again, and a position says the same in both frames whichever frame it was
/// given in.
pub proof fn lemma_frames_agree(p: TelescopePosition)
    ensures
        p.spec_alt_az().spec_eq() == p.spec_eq(),
        p.spec_eq().spec_alt_az() == p.spec_alt_az(),
        TelescopePosition::Eq(p.spec_eq()).spec_alt_az() == p.spec_alt_az(),
        TelescopePosition::AltAz(p.spec_alt_az()).spec_eq() == p.spec_eq(),
{
}

} // verus!
