//! Names and numbers of the fix modes and satellite systems of a GNSS
//! receiver.
use vstd::prelude::*;
use vstd::string::StringSliceAdditionalSpecFns;

verus! {

/// Whether two strings hold the same text.
pub fn same_text(a: &str, b: &str) -> (same: bool)
    ensures
        same == (a@ == b@),
{
    let x = a.as_bytes();
    let y = b.as_bytes();
    if x.len() != y.len() {
        return false;
    }
    let mut i: usize = 0;
    while i < x.len()
        invariant
            x@ == a.spec_bytes(),
            y@ == b.spec_bytes(),
            x@.len() == y@.len(),
            i <= x@.len(),
            forall|j: int| 0 <= j < i ==> x@[j] == y@[j],
        decreases x@.len() - i,
    {
        if x[i] != y[i] {
            return false;
        }
        i = i + 1;
    }
    proof {
        assert(x@ =~= y@);
        vstd::utf8::encode_utf8_decode_utf8(a@);
        vstd::utf8::encode_utf8_decode_utf8(b@);
    }
    true
}

/// How good the receiver's fix is.
#[derive(Clone, Copy, Debug, PartialEq, Eq, Hash, PartialOrd, Ord, Structural)]
pub enum Mode {
    NoFix,
    Fix2d,
    Fix3d,
}

impl Default for Mode {
    fn default() -> (mode: Self)
        ensures
            mode == Mode::NoFix,
    {
        Mode::NoFix
    }
}

impl Mode {
    /// The name of the mode.
    pub open spec fn spec_name(&self) -> Seq<char> {
        match self {
            Mode::NoFix => "NO_FIX"@,
            Mode::Fix2d => "FIX_2D"@,
            Mode::Fix3d => "FIX_3D"@,
        }
    }

    /// The mode with the given name.
    pub open spec fn spec_from_name(name: Seq<char>) -> Option<Mode> {
        if name == "NO_FIX"@ {
            Some(Mode::NoFix)
        } else if name == "FIX_2D"@ {
            Some(Mode::Fix2d)
        } else if name == "FIX_3D"@ {
            Some(Mode::Fix3d)
        } else {
            None
        }
    }

    /// The mode with the given number.
    pub open spec fn spec_from_number(value: u8) -> Option<Mode> {
        if value == 0 {
            Some(Mode::NoFix)
        } else if value == 1 {
            Some(Mode::Fix2d)
        } else if value == 2 {
            Some(Mode::Fix3d)
        } else {
            None
        }
    }

    pub fn as_str_name(&self) -> (name: &'static str)
        ensures
            name@ == self.spec_name(),
    {
        match self {
            Mode::NoFix => "NO_FIX",
            Mode::Fix2d => "FIX_2D",
            Mode::Fix3d => "FIX_3D",
        }
    }

    /// The mode with the given name, `None` where no mode has that name.
    pub fn from_str_name(value: &str) -> (mode: Option<Self>)
        ensures
            mode == Self::spec_from_name(value@),
    {
        if same_text(value, "NO_FIX") {
            Some(Mode::NoFix)
        } else if same_text(value, "FIX_2D") {
            Some(Mode::Fix2d)
        } else if same_text(value, "FIX_3D") {
            Some(Mode::Fix3d)
        } else {
            None
        }
    }

    /// The mode with the given number, `None` where no mode has that number.
    pub fn from_u8(value: u8) -> (mode: Option<Self>)
        ensures
            mode == Self::spec_from_number(value),
    {
        match value {
            0 => Some(Mode::NoFix),
            1 => Some(Mode::Fix2d),
            2 => Some(Mode::Fix3d),
            _ => None,
        }
    }
}

/// A satellite navigation system.
#[derive(Clone, Copy, Debug, PartialEq, Eq, Hash, PartialOrd, Ord, Structural)]
pub enum GnssSystem {
    Gps,
    Sbas,
    Galileo,
    Beidou,
    Imes,
    Qzss,
    Glonass,
    Irnss,
}

impl Default for GnssSystem {
    fn default() -> (system: Self)
        ensures
            system == GnssSystem::Gps,
    {
        GnssSystem::Gps
    }
}

impl GnssSystem {
    /// The name of the system.
    pub open spec fn spec_name(&self) -> Seq<char> {
        match self {
            GnssSystem::Gps => "GPS"@,
            GnssSystem::Sbas => "SBAS"@,
            GnssSystem::Galileo => "GALILEO"@,
            GnssSystem::Beidou => "BEIDOU"@,
            GnssSystem::Imes => "IMES"@,
            GnssSystem::Qzss => "QZSS"@,
            GnssSystem::Glonass => "GLONASS"@,
            GnssSystem::Irnss => "IRNSS"@,
        }
    }

    /// The system with the given name.
    pub open spec fn spec_from_name(name: Seq<char>) -> Option<GnssSystem> {
        if name == "GPS"@ {
            Some(GnssSystem::Gps)
        } else if name == "SBAS"@ {
            Some(GnssSystem::Sbas)
        } else if name == "GALILEO"@ {
            Some(GnssSystem::Galileo)
        } else if name == "BEIDOU"@ {
            Some(GnssSystem::Beidou)
        } else if name == "IMES"@ {
            Some(GnssSystem::Imes)
        } else if name == "QZSS"@ {
            Some(GnssSystem::Qzss)
        } else if name == "GLONASS"@ {
            Some(GnssSystem::Glonass)
        } else if name == "IRNSS"@ {
            Some(GnssSystem::Irnss)
        } else {
            None
        }
    }

    /// The system with the given number. A number that no system has stands
    /// for GPS.
    pub open spec fn spec_from_number(value: u8) -> GnssSystem {
        if value == 1 {
            GnssSystem::Sbas
        } else if value == 2 {
            GnssSystem::Galileo
        } else if value == 3 {
            GnssSystem::Beidou
        } else if value == 4 {
            GnssSystem::Imes
        } else if value == 5 {
            GnssSystem::Qzss
        } else if value == 6 {
            GnssSystem::Glonass
        } else if value == 7 {
            GnssSystem::Irnss
        } else {
            GnssSystem::Gps
        }
    }

    /// The name of the system, as the receiver's protocol writes it.
    pub fn as_str_name(&self) -> (name: &'static str)
        ensures
            name@ == self.spec_name(),
    {
        match self {
            GnssSystem::Gps => "GPS",
            GnssSystem::Sbas => "SBAS",
            GnssSystem::Galileo => "GALILEO",
            GnssSystem::Beidou => "BEIDOU",
            GnssSystem::Imes => "IMES",
            GnssSystem::Qzss => "QZSS",
            GnssSystem::Glonass => "GLONASS",
            GnssSystem::Irnss => "IRNSS",
        }
    }

    /// The system with the given name, `None` where no system has that name.
    pub fn from_str_name(value: &str) -> (system: Option<Self>)
        ensures
            system == Self::spec_from_name(value@),
    {
        if same_text(value, "GPS") {
            Some(GnssSystem::Gps)
        } else if same_text(value, "SBAS") {
            Some(GnssSystem::Sbas)
        } else if same_text(value, "GALILEO") {
            Some(GnssSystem::Galileo)
        } else if same_text(value, "BEIDOU") {
            Some(GnssSystem::Beidou)
        } else if same_text(value, "IMES") {
            Some(GnssSystem::Imes)
        } else if same_text(value, "QZSS") {
            Some(GnssSystem::Qzss)
        } else if same_text(value, "GLONASS") {
            Some(GnssSystem::Glonass)
        } else if same_text(value, "IRNSS") {
            Some(GnssSystem::Irnss)
        } else {
            None
        }
    }
}

impl From<u8> for GnssSystem {
    fn from(value: u8) -> (system: GnssSystem) {
        match value {
            0 => GnssSystem::Gps,
            1 => GnssSystem::Sbas,
            2 => GnssSystem::Galileo,
            3 => GnssSystem::Beidou,
            4 => GnssSystem::Imes,
            5 => GnssSystem::Qzss,
            6 => GnssSystem::Glonass,
            7 => GnssSystem::Irnss,
            _ => GnssSystem::Gps,
        }
    }
}

impl vstd::std_specs::convert::FromSpecImpl<u8> for GnssSystem {
    open spec fn obeys_from_spec() -> bool {
        true
    }

    open spec fn from_spec(value: u8) -> GnssSystem {
        GnssSystem::spec_from_number(value)
    }
}

/// Each mode is found again by its name.
pub proof fn lemma_mode_name_round_trip(mode: Mode)
    ensures
        Mode::spec_from_name(mode.spec_name()) == Some(mode),
{
    reveal_strlit("NO_FIX");
    reveal_strlit("FIX_2D");
    reveal_strlit("FIX_3D");
    assert("NO_FIX"@[0] == 'N' && "FIX_2D"@[0] == 'F' && "FIX_3D"@[0] == 'F');
    assert("FIX_2D"@[4] == '2' && "FIX_3D"@[4] == '3');
}

/// Each satellite system is found again by its name.
pub proof fn lemma_system_name_round_trip(system: GnssSystem)
    ensures
        GnssSystem::spec_from_name(system.spec_name()) == Some(system),
{
    reveal_strlit("GPS");
    reveal_strlit("SBAS");
    reveal_strlit("GALILEO");
    reveal_strlit("BEIDOU");
    reveal_strlit("IMES");
    reveal_strlit("QZSS");
    reveal_strlit("GLONASS");
    reveal_strlit("IRNSS");
    assert("GPS"@.len() == 3 && "SBAS"@.len() == 4 && "GALILEO"@.len() == 7);
    assert("BEIDOU"@.len() == 6 && "IMES"@.len() == 4 && "QZSS"@.len() == 4);
    assert("GLONASS"@.len() == 7 && "IRNSS"@.len() == 5);
    assert("SBAS"@[0] == 'S' && "IMES"@[0] == 'I' && "QZSS"@[0] == 'Q');
    assert("GALILEO"@[1] == 'A' && "GLONASS"@[1] == 'L');
}

} // verus!
