use open_pi_scope::gnss::{same_text, GnssSystem, Mode};

#[test]
fn mode_names() {
    assert_eq!(Mode::NoFix.as_str_name(), "NO_FIX");
    assert_eq!(Mode::Fix2d.as_str_name(), "FIX_2D");
    assert_eq!(Mode::Fix3d.as_str_name(), "FIX_3D");
    for mode in [Mode::NoFix, Mode::Fix2d, Mode::Fix3d] {
        assert_eq!(Mode::from_str_name(mode.as_str_name()), Some(mode));
    }
    assert_eq!(Mode::from_str_name("fix_2d"), None);
    assert_eq!(Mode::from_str_name("FIX_2D "), None);
    assert_eq!(Mode::from_str_name(""), None);
    assert_eq!(Mode::from_str_name("GPS"), None);
}

#[test]
fn mode_numbers() {
    assert_eq!(Mode::from_u8(0), Some(Mode::NoFix));
    assert_eq!(Mode::from_u8(1), Some(Mode::Fix2d));
    assert_eq!(Mode::from_u8(2), Some(Mode::Fix3d));
    assert_eq!(Mode::from_u8(3), None);
    assert_eq!(Mode::from_u8(255), None);
    assert_eq!(Mode::default(), Mode::NoFix);
    assert!(Mode::NoFix < Mode::Fix2d && Mode::Fix2d < Mode::Fix3d);
}

#[test]
fn system_names() {
    let all = [
        (GnssSystem::Gps, "GPS"),
        (GnssSystem::Sbas, "SBAS"),
        (GnssSystem::Galileo, "GALILEO"),
        (GnssSystem::Beidou, "BEIDOU"),
        (GnssSystem::Imes, "IMES"),
        (GnssSystem::Qzss, "QZSS"),
        (GnssSystem::Glonass, "GLONASS"),
        (GnssSystem::Irnss, "IRNSS"),
    ];
    for (system, name) in all {
        assert_eq!(system.as_str_name(), name);
        assert_eq!(GnssSystem::from_str_name(name), Some(system));
    }
    assert_eq!(GnssSystem::from_str_name("gps"), None);
    assert_eq!(GnssSystem::from_str_name("NO_FIX"), None);
    assert_eq!(GnssSystem::from_str_name("GLONAS"), None);
}

#[test]
fn system_numbers() {
    let all = [
        GnssSystem::Gps,
        GnssSystem::Sbas,
        GnssSystem::Galileo,
        GnssSystem::Beidou,
        GnssSystem::Imes,
        GnssSystem::Qzss,
        GnssSystem::Glonass,
        GnssSystem::Irnss,
    ];
    for (number, system) in all.iter().enumerate() {
        assert_eq!(GnssSystem::from(number as u8), *system);
    }
    assert_eq!(GnssSystem::from(8), GnssSystem::Gps);
    assert_eq!(GnssSystem::from(255), GnssSystem::Gps);
    assert_eq!(GnssSystem::default(), GnssSystem::Gps);
}

#[test]
fn texts_are_compared_whole() {
    assert!(same_text("", ""));
    assert!(same_text("déjà", "déjà"));
    assert!(!same_text("GPS", "GPS "));
    assert!(!same_text("GPS", "GPT"));
    assert!(!same_text("é", "e"));
}
