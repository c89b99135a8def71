use vstd::prelude::*;

verus! {

/// A character that the hex alphabet accepts, in either case.
pub open spec fn is_hex_digit(c: char) -> bool {
    ('0' <= c && c <= '9') || ('a' <= c && c <= 'f') || ('A' <= c && c <= 'F')
}

/// The value of one hex digit, for characters that `is_hex_digit` accepts.
pub open spec fn hex_digit_value(c: char) -> int {
    if '0' <= c && c <= '9' {
        c as int - '0' as int
    } else if 'a' <= c && c <= 'f' {
        c as int - 'a' as int + 10
    } else {
        c as int - 'A' as int + 10
    }
}

/// A string that decodes to bytes: an even number of hex digits.
pub open spec fn is_hex_string(s: Seq<char>) -> bool {
    &&& s.len() % 2 == 0
    &&& forall|i: int| 0 <= i < s.len() ==> is_hex_digit(#[trigger] s[i])
}

/// The bytes a hex string stands for: each pair of digits is one byte,
/// high nibble first.
pub open spec fn hex_decoded(s: Seq<char>) -> Seq<u8>
    decreases s.len(),
{
    if s.len() < 2 {
        Seq::empty()
    } else {
        seq![(16 * hex_digit_value(s[0]) + hex_digit_value(s[1])) as u8] + hex_decoded(
            s.skip(2),
        )
    }
}

/// The lower-case digit for one nibble value.
pub open spec fn hex_digit_char(v: int) -> char {
    if v == 0 {
        '0'
    } else if v == 1 {
        '1'
    } else if v == 2 {
        '2'
    } else if v == 3 {
        '3'
    } else if v == 4 {
        '4'
    } else if v == 5 {
        '5'
    } else if v == 6 {
        '6'
    } else if v == 7 {
        '7'
    } else if v == 8 {
        '8'
    } else if v == 9 {
        '9'
    } else if v == 10 {
        'a'
    } else if v == 11 {
        'b'
    } else if v == 12 {
        'c'
    } else if v == 13 {
        'd'
    } else if v == 14 {
        'e'
    } else {
        'f'
    }
}

/// The lower-case hex string that stands for the given bytes,
/// two digits per byte, high nibble first.
pub open spec fn hex_encoded(b: Seq<u8>) -> Seq<char>
    decreases b.len(),
{
    if b.len() == 0 {
        Seq::empty()
    } else {
        seq![hex_digit_char(b[0] as int / 16), hex_digit_char(b[0] as int % 16)] + hex_encoded(
            b.drop_first(),
        )
    }
}

/// Each nibble value comes back unchanged from its lower-case digit.
proof fn lemma_hex_digit_round_trip(v: int)
    requires
        0 <= v < 16,
    ensures
        is_hex_digit(hex_digit_char(v)),
        hex_digit_value(hex_digit_char(v)) == v,
{
}

/// Law: encoding bytes as hex yields a well-formed hex string, and
/// decoding it returns the original bytes.
pub proof fn lemma_hex_round_trip(b: Seq<u8>)
    ensures
        is_hex_string(hex_encoded(b)),
        hex_decoded(hex_encoded(b)) == b,
    decreases b.len(),
{
    if b.len() == 0 {
        assert(hex_decoded(hex_encoded(b)) =~= b);
    } else {
        let first = b[0] as int;
        let hi = first / 16;
        let lo = first % 16;
        vstd::arithmetic::div_mod::lemma_fundamental_div_mod(first, 16);
        lemma_hex_digit_round_trip(hi);
        lemma_hex_digit_round_trip(lo);
        lemma_hex_round_trip(b.drop_first());
        let tail = hex_encoded(b.drop_first());
        let e = hex_encoded(b);
        assert(e.skip(2) =~= tail);
        assert forall|i: int| 0 <= i < e.len() implies is_hex_digit(#[trigger] e[i]) by {
            if i >= 2 {
                assert(e[i] == tail[i - 2]);
            }
        }
        assert(hex_decoded(e) =~= b);
    }
}

/// Relies on hex::decode: it returns the decoded bytes exactly when the
/// input is an even number of hex digits of either case, pairing a high
/// and a low nibble per byte, and an error otherwise.
#[verifier::external_body]
pub fn hex_decode(s: &str) -> (r: Option<Vec<u8>>)
    ensures
        r is Some <==> is_hex_string(s@),
        r is Some ==> r->0@ == hex_decoded(s@),
{
    hex::decode(s).ok()
}

/// Relies on hex::encode: two lower-case digits for each byte, high nibble
/// first.
#[verifier::external_body]
pub fn hex_encode(b: &Vec<u8>) -> (r: String)
    ensures
        r@ == hex_encoded(b@),
{
    hex::encode(b)
}

} // verus!
