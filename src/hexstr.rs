use vstd::prelude::*;

verus! {

#[verifier::external_type_specification]
#[verifier::external_body]
pub struct ExFromHexError(hex::FromHexError);

/// The value of a hex digit, upper or lower case.
pub open spec fn hex_digit_value(c: char) -> Option<nat> {
    let n = c as u32;
    if 48 <= n && n <= 57 {
        Some((n - 48) as nat)
    } else if 97 <= n && n <= 102 {
        Some((n - 87) as nat)
    } else if 65 <= n && n <= 70 {
        Some((n - 55) as nat)
    } else {
        None
    }
}

/// An even number of hex digits.
pub open spec fn is_hex(s: Seq<char>) -> bool {
    &&& s.len() % 2 == 0
    &&& forall|i: int| 0 <= i < s.len() ==> (#[trigger] hex_digit_value(s[i])) is Some
}

/// The bytes that a string of hex digits stands for, two digits a byte, the
/// high half first.
pub open spec fn hex_decoded(s: Seq<char>) -> Seq<u8> {
    Seq::new(
        s.len() / 2,
        |i: int|
            (16 * hex_digit_value(s[2 * i])->0 + hex_digit_value(s[2 * i + 1])->0) as u8,
    )
}

/// The lower-case hex digit of a value below 16.
pub open spec fn hex_char(n: u8) -> char {
    seq!['0', '1', '2', '3', '4', '5', '6', '7', '8', '9', 'a', 'b', 'c', 'd', 'e', 'f'][n as int]
}

/// Two lower-case hex digits for each byte, the high half first.
pub open spec fn hex_encoded(b: Seq<u8>) -> Seq<char> {
    Seq::new(
        2 * b.len(),
        |i: int|
            if i % 2 == 0 {
                hex_char(b[i / 2] / 16)
            } else {
                hex_char(b[i / 2] % 16)
            },
    )
}

/// Relies on hex::decode: it succeeds exactly on an even number of hex digits
/// (either case) and gives one byte for each pair.
#[verifier::external_body]
pub(crate) fn hex_decode(s: &str) -> (r: Result<Vec<u8>, hex::FromHexError>)
    ensures
        r is Ok <==> is_hex(s@),
        r matches Ok(v) ==> v@ == hex_decoded(s@),
{
    hex::decode(s)
}

/// Relies on hex::encode: two lower-case hex digits for each byte.
#[verifier::external_body]
pub(crate) fn hex_encode(b: &[u8]) -> (r: String)
    ensures
        r@ == hex_encoded(b@),
{
    hex::encode(b)
}

/// An even number of lower-case hex digits.
pub open spec fn is_lower_hex(s: Seq<char>) -> bool {
    &&& s.len() % 2 == 0
    &&& forall|i: int|
        0 <= i < s.len() ==> {
            let n = #[trigger] s[i] as u32;
            (48 <= n && n <= 57) || (97 <= n && n <= 102)
        }
}

/// A lower-case hex digit is written back as itself.
proof fn lemma_hex_char_of_value(c: char)
    requires
        (48 <= c as u32 && c as u32 <= 57) || (97 <= c as u32 && c as u32 <= 102),
    ensures
        hex_digit_value(c) matches Some(d) && d < 16 && hex_char(d as u8) == c,
{
    let d = hex_digit_value(c)->0;
    let digits = seq!['0', '1', '2', '3', '4', '5', '6', '7', '8', '9', 'a', 'b', 'c', 'd', 'e', 'f'];
    assert(digits[d as int] as u32 == c as u32);
}

/// Lower-case hex digits, decoded and encoded again, are the same digits.
pub proof fn lemma_hex_round_trip(s: Seq<char>)
    requires
        is_lower_hex(s),
    ensures
        is_hex(s),
        hex_encoded(hex_decoded(s)) == s,
{
    assert forall|i: int| 0 <= i < s.len() implies (#[trigger] hex_digit_value(s[i])) is Some by {
        lemma_hex_char_of_value(s[i]);
    }
    let b = hex_decoded(s);
    assert forall|i: int| 0 <= i < s.len() implies #[trigger] hex_encoded(b)[i] == s[i] by {
        let k = i / 2;
        lemma_hex_char_of_value(s[2 * k]);
        lemma_hex_char_of_value(s[2 * k + 1]);
        let hi = hex_digit_value(s[2 * k])->0;
        let lo = hex_digit_value(s[2 * k + 1])->0;
        assert(b[k] == 16 * hi + lo);
        assert(b[k] / 16 == hi && b[k] % 16 == lo);
    }
    assert(hex_encoded(b) =~= s);
}

/// The lower-case hex digit of a value below 16 reads back as that value.
proof fn lemma_value_of_hex_char(d: u8)
    requires
        d < 16,
    ensures
        hex_digit_value(hex_char(d)) == Some(d as nat),
{
    let digits = seq!['0', '1', '2', '3', '4', '5', '6', '7', '8', '9', 'a', 'b', 'c', 'd', 'e', 'f'];
    assert(digits[0] as u32 == 48 && digits[1] as u32 == 49 && digits[2] as u32 == 50 && digits[3] as u32 == 51);
    assert(digits[4] as u32 == 52 && digits[5] as u32 == 53 && digits[6] as u32 == 54 && digits[7] as u32 == 55);
    assert(digits[8] as u32 == 56 && digits[9] as u32 == 57 && digits[10] as u32 == 97 && digits[11] as u32 == 98);
    assert(digits[12] as u32 == 99 && digits[13] as u32 == 100 && digits[14] as u32 == 101 && digits[15] as u32 == 102);
}

/// Bytes written as hex digits are hex, and decode back to the same bytes.
pub proof fn lemma_hex_decode_of_encoded(b: Seq<u8>)
    ensures
        is_hex(hex_encoded(b)),
        hex_decoded(hex_encoded(b)) == b,
{
    let s = hex_encoded(b);
    assert forall|i: int| 0 <= i < s.len() implies (#[trigger] hex_digit_value(s[i])) is Some by {
        lemma_value_of_hex_char(b[i / 2] / 16);
        lemma_value_of_hex_char(b[i / 2] % 16);
    }
    assert forall|k: int| 0 <= k < b.len() implies #[trigger] hex_decoded(s)[k] == b[k] by {
        assert(s[2 * k] == hex_char(b[k] / 16));
        assert(s[2 * k + 1] == hex_char(b[k] % 16));
        lemma_value_of_hex_char(b[k] / 16);
        lemma_value_of_hex_char(b[k] % 16);
    }
    assert(hex_decoded(s) =~= b);
}

} // verus!
