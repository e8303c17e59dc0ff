//! Hexadecimal text, and the sensor's calibration profile as such text.
use bno055::BNO055Calibration;
use vstd::prelude::*;
use vstd::string::{StringExecFns, StringSliceAdditionalSpecFns};

verus! {

/// Number of bytes in a calibration profile.
pub const CALIB_SIZE: usize = 22;

/// The value of a hexadecimal digit, in either case.
pub open spec fn spec_hex_digit(c: char) -> Option<u8> {
    if '0' <= c <= '9' {
        Some((c as int - '0' as int) as u8)
    } else if 'a' <= c <= 'f' {
        Some((c as int - 'a' as int + 10) as u8)
    } else if 'A' <= c <= 'F' {
        Some((c as int - 'A' as int + 10) as u8)
    } else {
        None
    }
}

/// The byte that two characters of hexadecimal text stand for: two digits,
/// or a plus sign and one digit.
pub open spec fn spec_hex_pair(high: char, low: char) -> Option<u8> {
    match (spec_hex_digit(high), spec_hex_digit(low)) {
        (Some(h), Some(l)) => Some((16 * h + l) as u8),
        (None, Some(l)) => if high == '+' {
            Some(l)
        } else {
            None
        },
        _ => None,
    }
}

/// Whether `text` is hexadecimal text: an even number of characters, each
/// two of which stand for a byte.
pub open spec fn spec_is_hex(text: Seq<char>) -> bool {
    &&& text.len() % 2 == 0
    &&& forall|i: int|
        0 <= i < text.len() / 2 ==> (#[trigger] spec_hex_pair(text[2 * i], text[2 * i + 1])) is Some
}

/// The bytes that hexadecimal text stands for.
pub open spec fn spec_hex_decode(text: Seq<char>) -> Seq<u8> {
    Seq::new(text.len() / 2, |i: int| spec_hex_pair(text[2 * i], text[2 * i + 1]).unwrap())
}

/// The lower-case hexadecimal digit with the value `n`.
pub open spec fn spec_hex_char(n: int) -> char {
    if n < 10 {
        ('0' as int + n) as char
    } else {
        ('a' as int + n - 10) as char
    }
}

/// The hexadecimal text of `bytes`: two lower-case digits for each byte, the
/// high one first.
pub open spec fn spec_hex_encode(bytes: Seq<u8>) -> Seq<char> {
    Seq::new(
        2 * bytes.len(),
        |i: int|
            if i % 2 == 0 {
                spec_hex_char(bytes[i / 2] as int / 16)
            } else {
                spec_hex_char(bytes[i / 2] as int % 16)
            },
    )
}

/// `bytes` cut or filled with zeros to the size of a calibration profile.
pub open spec fn spec_calib_buffer(bytes: Seq<u8>) -> Seq<u8> {
    Seq::new(
        CALIB_SIZE as nat,
        |i: int|
            if i < bytes.len() {
                bytes[i]
            } else {
                0u8
            },
    )
}

/// Hexadecimal text holds ASCII characters only.
pub proof fn lemma_hex_is_ascii(text: Seq<char>)
    requires
        spec_is_hex(text),
    ensures
        vstd::utf8::is_ascii_chars(text),
{
    assert forall|k: int| 0 <= k < text.len() implies '\0' <= #[trigger] text[k] <= '\u{7f}' by {
        let i = k / 2;
        assert(spec_hex_pair(text[2 * i], text[2 * i + 1]) is Some);
        assert(k == 2 * i || k == 2 * i + 1);
    }
}

fn hex_digit(b: u8) -> (value: Option<u8>)
    requires
        b < 128,
    ensures
        value == spec_hex_digit(b as char),
        value matches Some(v) ==> v < 16,
{
    if 48 <= b && b <= 57 {
        Some(b - 48)
    } else if 97 <= b && b <= 102 {
        Some(b - 97 + 10)
    } else if 65 <= b && b <= 70 {
        Some(b - 65 + 10)
    } else {
        None
    }
}

fn hex_pair(high: u8, low: u8) -> (value: Option<u8>)
    requires
        high < 128,
        low < 128,
    ensures
        value == spec_hex_pair(high as char, low as char),
{
    match (hex_digit(high), hex_digit(low)) {
        (Some(h), Some(l)) => Some(16 * h + l),
        (None, Some(l)) => if high == 43 {
            Some(l)
        } else {
            None
        },
        _ => None,
    }
}

/// Whether `s` is hexadecimal text.
pub fn is_hex(s: &str) -> (ok: bool)
    ensures
        ok == spec_is_hex(s@),
{
    if !s.is_ascii() {
        proof {
            if spec_is_hex(s@) {
                lemma_hex_is_ascii(s@);
            }
        }
        return false;
    }
    let text = s.as_bytes();
    proof {
        vstd::string::is_ascii_spec_bytes(s);
        assert(text@.len() == s@.len());
    }
    if text.len() % 2 != 0 {
        return false;
    }
    let mut i: usize = 0;
    while i < text.len()
        invariant
            i % 2 == 0,
            i <= text@.len(),
            text@.len() % 2 == 0,
            text@.len() == s@.len(),
            vstd::utf8::is_ascii_chars(s@),
            forall|k: int| 0 <= k < text@.len() ==> text@[k] == s@[k] as u8,
            forall|j: int|
                0 <= j < i / 2 ==> (#[trigger] spec_hex_pair(s@[2 * j], s@[2 * j + 1])) is Some,
        decreases text@.len() - i,
    {
        let ghost j = (i / 2) as int;
        assert(s@[2 * j] as u8 as char == s@[2 * j]);
        assert(s@[2 * j + 1] as u8 as char == s@[2 * j + 1]);
        if hex_pair(text[i], text[i + 1]).is_none() {
            assert(!(spec_hex_pair(s@[2 * j], s@[2 * j + 1]) is Some));
            return false;
        }
        i = i + 2;
    }
    true
}

/// The bytes that the hexadecimal text `s` stands for.
pub fn hex_decode(s: &str) -> (bytes: Vec<u8>)
    requires
        spec_is_hex(s@),
    ensures
        bytes@ == spec_hex_decode(s@),
{
    let text = s.as_bytes();
    proof {
        lemma_hex_is_ascii(s@);
        vstd::string::is_ascii_spec_bytes(s);
        assert(text@.len() == s@.len());
    }
    let mut bytes: Vec<u8> = Vec::new();
    let mut i: usize = 0;
    while i < text.len()
        invariant
            i % 2 == 0,
            i <= text@.len(),
            text@.len() % 2 == 0,
            text@.len() == s@.len(),
            spec_is_hex(s@),
            vstd::utf8::is_ascii_chars(s@),
            forall|k: int| 0 <= k < text@.len() ==> text@[k] == s@[k] as u8,
            bytes@.len() == i / 2,
            forall|j: int| 0 <= j < i / 2 ==> bytes@[j] == spec_hex_decode(s@)[j],
        decreases text@.len() - i,
    {
        let ghost j = (i / 2) as int;
        assert(s@[2 * j] as u8 as char == s@[2 * j]);
        assert(s@[2 * j + 1] as u8 as char == s@[2 * j + 1]);
        assert(spec_hex_pair(s@[2 * j], s@[2 * j + 1]) is Some);
        bytes.push(hex_pair(text[i], text[i + 1]).unwrap());
        i = i + 2;
    }
    proof {
        assert(bytes@ =~= spec_hex_decode(s@));
    }
    bytes
}

fn hex_digit_text(n: u8) -> (digit: &'static str)
    requires
        n < 16,
    ensures
        digit@ == seq![spec_hex_char(n as int)],
{
    proof {
        reveal_strlit("0");
        reveal_strlit("1");
        reveal_strlit("2");
        reveal_strlit("3");
        reveal_strlit("4");
        reveal_strlit("5");
        reveal_strlit("6");
        reveal_strlit("7");
        reveal_strlit("8");
        reveal_strlit("9");
        reveal_strlit("a");
        reveal_strlit("b");
        reveal_strlit("c");
        reveal_strlit("d");
        reveal_strlit("e");
        reveal_strlit("f");
    }
    let digit = if n == 0 {
        "0"
    } else if n == 1 {
        "1"
    } else if n == 2 {
        "2"
    } else if n == 3 {
        "3"
    } else if n == 4 {
        "4"
    } else if n == 5 {
        "5"
    } else if n == 6 {
        "6"
    } else if n == 7 {
        "7"
    } else if n == 8 {
        "8"
    } else if n == 9 {
        "9"
    } else if n == 10 {
        "a"
    } else if n == 11 {
        "b"
    } else if n == 12 {
        "c"
    } else if n == 13 {
        "d"
    } else if n == 14 {
        "e"
    } else {
        "f"
    };
    proof {
        assert(digit@ =~= seq![spec_hex_char(n as int)]);
    }
    digit
}

/// The hexadecimal text of `bytes`.
pub fn hex_encode(bytes: &[u8]) -> (text: String)
    ensures
        text@ == spec_hex_encode(bytes@),
{
    let mut text = String::new();
    let mut i: usize = 0;
    while i < bytes.len()
        invariant
            i <= bytes@.len(),
            text@.len() == 2 * i,
            forall|k: int| 0 <= k < 2 * i ==> text@[k] == spec_hex_encode(bytes@)[k],
        decreases bytes@.len() - i,
    {
        let b: u8 = bytes[i];
        text.append(hex_digit_text(b / 16));
        text.append(hex_digit_text(b % 16));
        i = i + 1;
    }
    proof {
        assert(text@ =~= spec_hex_encode(bytes@));
    }
    text
}

/// Text that [`hex_encode`] wrote is hexadecimal text, and stands for the
/// bytes it was written from.
pub proof fn lemma_hex_round_trip(bytes: Seq<u8>)
    ensures
        spec_is_hex(spec_hex_encode(bytes)),
        spec_hex_decode(spec_hex_encode(bytes)) == bytes,
{
    let text = spec_hex_encode(bytes);
    assert forall|i: int| 0 <= i < text.len() / 2 implies (#[trigger] spec_hex_pair(
        text[2 * i],
        text[2 * i + 1],
    )) == Some(bytes[i]) by {
        let b = bytes[i] as int;
        assert((2 * i) / 2 == i && (2 * i + 1) / 2 == i);
        assert(text[2 * i] == spec_hex_char(b / 16));
        assert(text[2 * i + 1] == spec_hex_char(b % 16));
        assert(0 <= b / 16 < 16 && 0 <= b % 16 < 16);
        assert(b == 16 * (b / 16) + b % 16);
        assert(spec_hex_digit(spec_hex_char(b / 16)) == Some((b / 16) as u8));
        assert(spec_hex_digit(spec_hex_char(b % 16)) == Some((b % 16) as u8));
    }
    assert(spec_hex_decode(text) =~= bytes);
}

/// A calibration profile of the sensor. Its bytes are read through
/// [`calibration_bytes`].
#[verifier::external_type_specification]
#[verifier::external_body]
pub struct ExBNO055Calibration(BNO055Calibration);

/// The bytes of a calibration profile, in the order of the sensor's
/// registers.
pub uninterp spec fn calibration_bytes(calib: BNO055Calibration) -> Seq<u8>;

/// `BNO055Calibration::from_buf`: the profile whose bytes are those of
/// `buf`, in the same order.
#[verifier::external_body]
fn calibration_from_buf(buf: &[u8; 22]) -> (calib: BNO055Calibration)
    ensures
        calibration_bytes(calib) == buf@,
{
    BNO055Calibration::from_buf(buf)
}

/// `BNO055Calibration::as_bytes`: the bytes of the profile, of which there
/// are as many as a profile has.
#[verifier::external_body]
fn calibration_as_bytes(calib: &BNO055Calibration) -> (bytes: &[u8])
    ensures
        bytes@ == calibration_bytes(*calib),
        bytes@.len() == CALIB_SIZE,
{
    calib.as_bytes()
}

/// `vec` cut or filled with zeros to the size of a calibration profile.
pub fn calib_buffer(vec: &Vec<u8>) -> (array: [u8; 22])
    ensures
        array@ == spec_calib_buffer(vec@),
{
    let mut array: [u8; 22] = [0u8; 22];
    let len: usize = if vec.len() < CALIB_SIZE {
        vec.len()
    } else {
        CALIB_SIZE
    };
    let mut i: usize = 0;
    while i < len
        invariant
            i <= len,
            len <= vec@.len(),
            len <= CALIB_SIZE,
            forall|k: int| 0 <= k < i ==> array@[k] == vec@[k],
            forall|k: int| i <= k < CALIB_SIZE ==> array@[k] == 0,
        decreases len - i,
    {
        array[i] = vec[i];
        i = i + 1;
    }
    proof {
        assert(array@ =~= spec_calib_buffer(vec@));
    }
    array
}

/// The calibration profile that starts with the bytes of `vec`. Bytes that
/// `vec` lacks are zero, bytes beyond the size of a profile are dropped.
pub fn vec_to_calib(vec: Vec<u8>) -> (calib: BNO055Calibration)
    ensures
        calibration_bytes(calib) == spec_calib_buffer(vec@),
{
    let array = calib_buffer(&vec);
    calibration_from_buf(&array)
}

/// The calibration profile that the hexadecimal text `s` stands for.
pub fn calib_from_hex(s: &str) -> (calib: BNO055Calibration)
    requires
        spec_is_hex(s@),
    ensures
        calibration_bytes(calib) == spec_calib_buffer(spec_hex_decode(s@)),
{
    vec_to_calib(hex_decode(s))
}

/// The hexadecimal text of a calibration profile.
pub fn calib_to_hex(calib: &BNO055Calibration) -> (text: String)
    ensures
        text@ == spec_hex_encode(calibration_bytes(*calib)),
        text@.len() == 2 * CALIB_SIZE,
        spec_is_hex(text@),
{
    proof {
        lemma_hex_round_trip(calibration_bytes(*calib));
    }
    hex_encode(calibration_as_bytes(calib))
}

/// A profile of full size that is written as text and read again has the
/// bytes it had.
pub proof fn lemma_calib_text_round_trip(bytes: Seq<u8>)
    requires
        bytes.len() == CALIB_SIZE,
    ensures
        spec_is_hex(spec_hex_encode(bytes)),
        spec_calib_buffer(spec_hex_decode(spec_hex_encode(bytes))) == bytes,
{
    lemma_hex_round_trip(bytes);
    assert(spec_calib_buffer(bytes) =~= bytes);
}

} // verus!
