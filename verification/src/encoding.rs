//! Textual forms of identifiers and bytes: UUIDs in their hyphenated form
//! and byte strings in lowercase hexadecimal.

use vstd::prelude::*;
use vstd::arithmetic::power::pow;

verus! {

/// The lowercase hexadecimal digit of a value below 16.
pub open spec fn hex_digit(d: int) -> char {
    seq!['0', '1', '2', '3', '4', '5', '6', '7', '8', '9', 'a', 'b', 'c', 'd', 'e', 'f'][d]
}

/// A lowercase hexadecimal digit.
pub open spec fn is_lower_hex(c: char) -> bool {
    ('0' <= c && c <= '9') || ('a' <= c && c <= 'f')
}

/// Two lowercase hexadecimal digits per byte, the high half first.
pub open spec fn hex_text(bytes: Seq<u8>) -> Seq<char> {
    Seq::new(
        2 * bytes.len(),
        |i: int|
            if i % 2 == 0 {
                hex_digit(bytes[i / 2] as int / 16)
            } else {
                hex_digit(bytes[i / 2] as int % 16)
            },
    )
}

/// `hex::encode`: the bytes in lowercase hexadecimal, two digits per byte,
/// the high half first.
#[verifier::external_body]
pub(crate) fn hex_encode(bytes: &[u8]) -> (res: String)
    ensures
        res@ == hex_text(bytes@),
{
    hex::encode(bytes)
}

/// The `k`-th of the 32 hexadecimal digits of `v`, most significant first.
pub open spec fn uuid_nibble(v: u128, k: int) -> int {
    (v as int / pow(16, (31 - k) as nat)) % 16
}

/// How many hyphens stand before position `i` of the hyphenated form.
pub open spec fn hyphens_before(i: int) -> int {
    if i < 9 {
        0
    } else if i < 14 {
        1
    } else if i < 19 {
        2
    } else if i < 24 {
        3
    } else {
        4
    }
}

/// The hyphenated lowercase form of a UUID, such as
/// `67e55044-10b1-426f-9247-bb680e5fe0c8`: its 32 hexadecimal digits, most
/// significant first, in groups of 8, 4, 4, 4 and 12.
pub open spec fn uuid_text(v: u128) -> Seq<char> {
    Seq::new(
        36,
        |i: int|
            if i == 8 || i == 13 || i == 18 || i == 23 {
                '-'
            } else {
                hex_digit(uuid_nibble(v, i - hyphens_before(i)))
            },
    )
}

/// `uuid::Uuid::from_u128(v).to_string()`: the hyphenated lowercase form
/// of the UUID whose 128 bits, most significant first, are `v`.
#[verifier::external_body]
pub(crate) fn uuid_to_string(v: u128) -> (res: String)
    ensures
        res@ == uuid_text(v),
{
    uuid::Uuid::from_u128(v).to_string()
}

/// The value of a hexadecimal digit of either case, or -1.
pub open spec fn hex_value(c: char) -> int {
    if '0' <= c && c <= '9' {
        c as int - '0' as int
    } else if 'a' <= c && c <= 'f' {
        c as int - 'a' as int + 10
    } else if 'A' <= c && c <= 'F' {
        c as int - 'A' as int + 10
    } else {
        -1
    }
}

/// Every character is a hexadecimal digit of either case.
pub open spec fn all_hex(s: Seq<char>) -> bool {
    forall|i: int| 0 <= i < s.len() ==> hex_value(#[trigger] s[i]) >= 0
}

/// The value of a run of hexadecimal digits, most significant first.
pub open spec fn hex_run_value(s: Seq<char>) -> int
    decreases s.len(),
{
    if s.len() == 0 {
        0
    } else {
        hex_run_value(s.drop_last()) * 16 + hex_value(s.last())
    }
}

/// The 32 digits of a hyphenated form, without its four hyphens.
pub open spec fn hyphenated_digits(s: Seq<char>) -> Seq<char> {
    s.subrange(0, 8) + s.subrange(9, 13) + s.subrange(14, 18) + s.subrange(19, 23) + s.subrange(
        24,
        36,
    )
}

/// A hyphenated form: 36 characters, hyphens at positions 8, 13, 18 and
/// 23, hexadecimal digits elsewhere.
pub open spec fn is_hyphenated(s: Seq<char>) -> bool {
    &&& s.len() == 36
    &&& s[8] == '-' && s[13] == '-' && s[18] == '-' && s[23] == '-'
    &&& all_hex(hyphenated_digits(s))
}

/// ASCII lowercase of a character.
pub open spec fn ascii_lower(c: char) -> char {
    if 'A' <= c && c <= 'Z' {
        (c as u32 + 32) as char
    } else {
        c
    }
}

/// The first nine characters read `urn:uuid:`, ignoring ASCII case.
pub open spec fn has_urn_prefix(s: Seq<char>) -> bool {
    s.len() >= 9 && s.subrange(0, 9).map_values(|c: char| ascii_lower(c)) == seq![
        'u',
        'r',
        'n',
        ':',
        'u',
        'u',
        'i',
        'd',
        ':',
    ]
}

/// What `uuid::Uuid::parse_str` makes of a text, as the UUID's 128 bits:
/// 32 hexadecimal digits (simple form), the hyphenated form, the
/// hyphenated form in braces, or `urn:uuid:` (any case) and the
/// hyphenated form; digits of either case.
pub open spec fn uuid_parsed(s: Seq<char>) -> Option<u128> {
    if s.len() == 32 {
        if all_hex(s) {
            Some(hex_run_value(s) as u128)
        } else {
            None
        }
    } else if s.len() == 36 {
        if is_hyphenated(s) {
            Some(hex_run_value(hyphenated_digits(s)) as u128)
        } else {
            None
        }
    } else if s.len() == 38 && s[0] == '{' && s[37] == '}' {
        if is_hyphenated(s.subrange(1, 37)) {
            Some(hex_run_value(hyphenated_digits(s.subrange(1, 37))) as u128)
        } else {
            None
        }
    } else if s.len() == 45 && has_urn_prefix(s) {
        if is_hyphenated(s.subrange(9, 45)) {
            Some(hex_run_value(hyphenated_digits(s.subrange(9, 45))) as u128)
        } else {
            None
        }
    } else {
        None
    }
}

/// `uuid::Uuid::parse_str(s)`, as the UUID's 128 bits: the crate reads
/// the UTF-8 bytes of `s`; the four forms it accepts are made of ASCII
/// characters only, so reading characters gives the same result.
#[verifier::external_body]
pub(crate) fn parse_uuid(s: &str) -> (res: Option<u128>)
    ensures
        res == uuid_parsed(s@),
{
    match uuid::Uuid::parse_str(s) {
        Ok(u) => Some(u.as_u128()),
        Err(_) => None,
    }
}

/// The 32 digits of `v`, most significant first, the first `n` of them.
pub open spec fn uuid_digits_prefix(v: u128, n: int) -> Seq<char> {
    Seq::new(n as nat, |k: int| hex_digit(uuid_nibble(v, k)))
}

proof fn lemma_hex_digit_value(d: int)
    requires
        0 <= d < 16,
    ensures
        hex_value(hex_digit(d)) == d,
{
    let digits = seq!['0', '1', '2', '3', '4', '5', '6', '7', '8', '9', 'a', 'b', 'c', 'd', 'e', 'f'];
    assert(hex_digit(d) == digits[d]);
}

proof fn lemma_nibble_range(v: u128, k: int)
    requires
        0 <= k < 32,
    ensures
        0 <= uuid_nibble(v, k) < 16,
{
    vstd::arithmetic::power::lemma_pow_positive(16, (31 - k) as nat);
    vstd::arithmetic::div_mod::lemma_mod_bound(v as int / pow(16, (31 - k) as nat), 16);
}

proof fn lemma_digits_prefix_value(v: u128, n: int)
    requires
        0 <= n <= 32,
    ensures
        hex_run_value(uuid_digits_prefix(v, n)) == v as int / pow(16, (32 - n) as nat),
    decreases n,
{
    let e = (32 - n) as nat;
    vstd::arithmetic::power::lemma_pow_positive(16, e);
    if n == 0 {
        assert(uuid_digits_prefix(v, 0).len() == 0);
        assert(pow(16, 32) == 0x1_0000_0000_0000_0000_0000_0000_0000_0000) by {
            reveal_with_fuel(pow, 33);
        }
        vstd::arithmetic::div_mod::lemma_basic_div(v as int, pow(16, 32));
    } else {
        lemma_digits_prefix_value(v, n - 1);
        let p = uuid_digits_prefix(v, n);
        assert(p.drop_last() =~= uuid_digits_prefix(v, n - 1));
        lemma_nibble_range(v, n - 1);
        lemma_hex_digit_value(uuid_nibble(v, n - 1));
        let q = v as int / pow(16, (32 - n) as nat);
        assert(pow(16, (33 - n) as nat) == 16 * pow(16, (32 - n) as nat)) by {
            reveal(pow);
        }
        vstd::arithmetic::div_mod::lemma_div_denominator(v as int, pow(16, (32 - n) as nat), 16);
        vstd::arithmetic::div_mod::lemma_fundamental_div_mod(q, 16);
        assert(pow(16, (32 - n) as nat) * 16 == 16 * pow(16, (32 - n) as nat)) by (nonlinear_arith);
    }
}

/// The hyphenated form of a UUID reads back as the same UUID.
pub proof fn lemma_uuid_round_trip(v: u128)
    ensures
        uuid_parsed(uuid_text(v)) == Some(v),
{
    let t = uuid_text(v);
    let digits = uuid_digits_prefix(v, 32);
    assert(hyphenated_digits(t) =~= digits);
    assert forall|i: int| 0 <= i < digits.len() implies hex_value(#[trigger] digits[i]) >= 0 by {
        lemma_nibble_range(v, i);
        lemma_hex_digit_value(uuid_nibble(v, i));
    }
    lemma_digits_prefix_value(v, 32);
    assert(pow(16, 0) == 1) by {
        reveal(pow);
    }
}

} // verus!
