//! Classful (pre-CIDR) subnet masks inferred from the leading octet of an
//! IPv4 address.

use crate::text::{digits_from, find_char, index_of, is_digit, parse_outcome, parse_unsigned};
use vstd::prelude::*;

verus! {

/// Leading octet that stands for an address outside classes A, B and C.
pub const INVALID_IP_OCT: u16 = 224;

/// The mask of the class that a leading octet falls in.
pub open spec fn class_mask(oct: int) -> Seq<char> {
    if oct >= 224 {
        "invalid subnet prefix"@
    } else if oct >= 192 {
        "255.255.255.0"@
    } else if oct >= 128 {
        "255.255.0.0"@
    } else {
        "255.0.0.0"@
    }
}

/// What `netmask` returns when the leading field is not a number.
pub open spec fn invalid_ip_marker() -> Seq<char> {
    "No subnet: invalid ip"@
}

/// The text before the first `'.'`.
pub open spec fn leading_field(s: Seq<char>) -> Seq<char> {
    s.subrange(0, index_of(s, '.', 0))
}

/// The leading field read as a 16-bit unsigned number, as `str::parse`
/// reads it (an optional `+`, then decimal digits); `None` where that fails.
pub open spec fn leading_octet(s: Seq<char>) -> Option<int> {
    match parse_outcome(leading_field(s), u16::MAX as int) {
        Ok(v) => Some(v),
        Err(_) => None,
    }
}

/// The mask inferred from an address written as text.
pub open spec fn netmask_of(ip: Seq<char>) -> Seq<char> {
    match leading_octet(ip) {
        Some(oct) => class_mask(oct),
        None => invalid_ip_marker(),
    }
}

proof fn lemma_first_dot(field: Seq<char>, rest: Seq<char>, i: int)
    requires
        0 <= i <= field.len(),
        forall|j: int| 0 <= j < field.len() ==> field[j] != '.',
    ensures
        index_of(field + seq!['.'] + rest, '.', i) == field.len(),
    decreases field.len() - i,
{
    let a = field + seq!['.'] + rest;
    if i < field.len() {
        assert(a[i] == field[i]);
        lemma_first_dot(field, rest, i + 1);
    } else {
        assert(a[i] == '.');
    }
}

/// Only the text before the first dot decides the mask: an address whose
/// leading field is the number `v` gets the mask of class `v`, whatever the
/// other fields hold.
pub proof fn lemma_mask_ignores_later_fields(field: Seq<char>, rest: Seq<char>)
    requires
        forall|j: int| 0 <= j < field.len() ==> field[j] != '.',
    ensures
        leading_field(field + seq!['.'] + rest) == field,
        parse_outcome(field, u16::MAX as int) is Ok ==> netmask_of(field + seq!['.'] + rest)
            == class_mask(parse_outcome(field, u16::MAX as int)->Ok_0),
{
    let a = field + seq!['.'] + rest;
    lemma_first_dot(field, rest, 0);
    assert(a.subrange(0, field.len() as int) =~= field);
}

proof fn lemma_non_digit_fails(d: Seq<char>, i: int, acc: int, max: int, j: int)
    requires
        0 <= i <= j < d.len(),
        !is_digit(d[j]),
    ensures
        digits_from(d, i, acc, max) is Err,
    decreases j - i,
{
    if i < j && is_digit(d[i]) && acc * 10 + (d[i] as int - '0' as int) <= max {
        lemma_non_digit_fails(d, i + 1, acc * 10 + (d[i] as int - '0' as int), max, j);
    }
}

/// An address whose text holds a character other than a digit or a leading
/// `+` before its first dot (an IPv6 address, with its colons) gets the
/// invalid-ip marker, never a mask and never a failure.
pub proof fn lemma_non_numeric_leading_field(ip: Seq<char>, j: int)
    requires
        0 <= j < index_of(ip, '.', 0),
        !is_digit(ip[j]),
        j == 0 ==> ip[0] != '+',
    ensures
        netmask_of(ip) == invalid_ip_marker(),
{
    lemma_index_of_bound(ip, 0);
    let f = leading_field(ip);
    assert(f[j] == ip[j]);
    if f[0] == '+' && f.len() > 1 {
        lemma_non_digit_fails(f, 1, 0, u16::MAX as int, j);
    } else if f[0] != '+' {
        lemma_non_digit_fails(f, 0, 0, u16::MAX as int, j);
    }
}

proof fn lemma_index_of_bound(s: Seq<char>, i: int)
    requires
        0 <= i <= s.len(),
    ensures
        i <= index_of(s, '.', i) <= s.len(),
    decreases s.len() - i,
{
    if i < s.len() && s[i] != '.' {
        lemma_index_of_bound(s, i + 1);
    }
}

/// Class A (0 to 127), B (128 to 191) or C (192 to 223) mask of a leading
/// octet; any larger value is reported as an invalid prefix.
pub fn calc_subnet(oct: u16) -> (r: String)
    ensures
        r@ == class_mask(oct as int),
        0 <= oct <= 127 ==> r@ == "255.0.0.0"@,
        128 <= oct <= 191 ==> r@ == "255.255.0.0"@,
        192 <= oct <= 223 ==> r@ == "255.255.255.0"@,
        oct >= 224 ==> r@ == "invalid subnet prefix"@,
{
    if oct >= INVALID_IP_OCT {
        String::from_str("invalid subnet prefix")
    } else if oct >= 192 {
        String::from_str("255.255.255.0")
    } else if oct >= 128 {
        String::from_str("255.255.0.0")
    } else {
        String::from_str("255.0.0.0")
    }
}

/// Reads the leading field of `s` as a 16-bit decimal number.
pub fn parse_leading_octet(s: &str) -> (r: Option<u16>)
    ensures
        r matches Some(v) ==> leading_octet(s@) == Some(v as int),
        r is None ==> leading_octet(s@) is None,
{
    let end = find_char(s, '.', 0);
    let field = s.substring_char(0, end);
    match parse_unsigned(field, 65535) {
        Ok(v) => Some(v as u16),
        Err(_) => None,
    }
}

/// The classful mask of an address given as text. A leading field that is
/// not a 16-bit decimal number yields the invalid-ip marker; no input fails.
pub fn netmask(ip: &str) -> (r: String)
    ensures
        r@ == netmask_of(ip@),
        leading_octet(ip@) is None ==> r@ == invalid_ip_marker(),
{
    match parse_leading_octet(ip) {
        Some(oct) => calc_subnet(oct),
        None => String::from_str("No subnet: invalid ip"),
    }
}

} // verus!
