use open_pi_scope::fixed::from_int;
use open_pi_scope::telescope_position::{AltAZPostion, EqPostion, TelescopePosition};
use open_pi_scope::{Broadcast, BROADCAST_PORT, MAGIC_NUMBER};

#[test]
fn alt_az_is_read_as_eq_by_swapping_the_fields() {
    let eq = TelescopePosition::new_alt_az(from_int(10), from_int(200)).get_eq();
    assert_eq!(eq, EqPostion { ra: from_int(200), dec: from_int(10) });
}

#[test]
fn eq_is_read_as_alt_az_by_swapping_the_fields() {
    let alt_az = TelescopePosition::new_eq(from_int(200), from_int(10)).get_alt_az();
    assert_eq!(alt_az, AltAZPostion { alt: from_int(10), az: from_int(200) });
}

#[test]
fn native_frame_is_returned_as_given() {
    let p = TelescopePosition::new_alt_az(-1, 359_999_999);
    assert_eq!(p.get_alt_az(), AltAZPostion { alt: -1, az: 359_999_999 });
    assert_eq!(p, TelescopePosition::AltAz(AltAZPostion { alt: -1, az: 359_999_999 }));
    let q = TelescopePosition::new_eq(5, 6);
    assert_eq!(q.get_eq(), EqPostion { ra: 5, dec: 6 });
    assert_eq!(q, TelescopePosition::Eq(EqPostion { ra: 5, dec: 6 }));
}

#[test]
fn frames_convert_there_and_back() {
    let alt_az = AltAZPostion { alt: 12_345_678, az: -87_654_321 };
    let eq: EqPostion = alt_az.into();
    assert_eq!(eq, EqPostion { ra: -87_654_321, dec: 12_345_678 });
    let back: AltAZPostion = eq.into();
    assert_eq!(back, alt_az);
    assert_eq!(TelescopePosition::Eq(eq).get_alt_az(), alt_az);
    assert_eq!(TelescopePosition::AltAz(alt_az).get_eq(), eq);
}

#[test]
fn broadcast_constants() {
    assert_eq!(BROADCAST_PORT, 12961);
    assert_eq!(MAGIC_NUMBER, 146658626);
    let b = Broadcast { magic_number: MAGIC_NUMBER };
    assert_eq!(b.magic_number, 146658626);
}
