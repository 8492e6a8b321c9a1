//! Picking the useful part out of a command's text output.

use vstd::prelude::*;

verus! {

/// The characters that `char::is_whitespace` accepts: those with the
/// Unicode White_Space property.
pub open spec fn is_white_space(c: char) -> bool {
    ('\u{9}' <= c && c <= '\u{d}') || c == ' ' || c == '\u{85}' || c == '\u{a0}' || c
        == '\u{1680}' || ('\u{2000}' <= c && c <= '\u{200a}') || c == '\u{2028}' || c
        == '\u{2029}' || c == '\u{202f}' || c == '\u{205f}' || c == '\u{3000}'
}

/// The text without its leading run of whitespace.
pub open spec fn trim_start_of(s: Seq<char>) -> Seq<char>
    decreases s.len(),
{
    if s.len() > 0 && is_white_space(s[0]) {
        trim_start_of(s.drop_first())
    } else {
        s
    }
}

/// The text without its trailing run of whitespace.
pub open spec fn trim_end_of(s: Seq<char>) -> Seq<char>
    decreases s.len(),
{
    if s.len() > 0 && is_white_space(s.last()) {
        trim_end_of(s.drop_last())
    } else {
        s
    }
}

/// The text with leading and trailing whitespace removed, as `str::trim`
/// gives it.
pub open spec fn trim_of(s: Seq<char>) -> Seq<char> {
    trim_end_of(trim_start_of(s))
}

/// Relies on `str::trim`: the text with its leading and trailing runs of
/// White_Space characters removed.
#[verifier::external_body]
pub(crate) fn trim_text(s: &str) -> (r: String)
    ensures
        r@ == trim_of(s@),
{
    s.trim().to_string()
}

/// The answer of a command that prints one value: its output, trimmed.
pub fn command_answer(output: &str) -> (r: String)
    ensures
        r@ == trim_of(output@),
{
    trim_text(output)
}

/// The processor name from a command that prints only the name (the
/// PowerShell query, or `sysctl` on macOS): its output trimmed, or the
/// command's failure as it came.
pub fn cpu_model_from_output(output: Result<String, String>) -> (r: Result<String, String>)
    ensures
        output is Ok ==> r is Ok && r->Ok_0@ == trim_of(output->Ok_0@),
        output is Err ==> r == output,
{
    match output {
        Ok(o) => Ok(trim_text(o.as_str())),
        Err(e) => Err(e),
    }
}

/// Index of the first `c` at or after `i`, or the length when none follows.
pub open spec fn index_of(s: Seq<char>, c: char, i: int) -> int
    decreases s.len() - i,
{
    if i >= s.len() {
        s.len() as int
    } else if s[i] == c {
        i
    } else {
        index_of(s, c, i + 1)
    }
}

/// The second line of the text, as `split('\n').nth(1)` gives it: the text
/// between the first and second newline, or to the end; `None` where the text
/// holds no newline.
pub open spec fn second_line(s: Seq<char>) -> Option<Seq<char>> {
    let k = index_of(s, '\n', 0);
    if k >= s.len() {
        None
    } else {
        Some(s.subrange(k + 1, index_of(s, '\n', k + 1)))
    }
}

/// Index of the first `c` in `s` at or after `from`.
pub fn find_char(s: &str, c: char, from: usize) -> (r: usize)
    requires
        from <= s@.len(),
    ensures
        r == index_of(s@, c, from as int),
        from <= r <= s@.len(),
{
    let n = s.unicode_len();
    let mut i = from;
    while i < n && s.get_char(i) != c
        invariant
            n == s@.len(),
            from <= i <= n,
            index_of(s@, c, from as int) == index_of(s@, c, i as int),
        decreases n - i,
    {
        i = i + 1;
    }
    i
}

/// The processor name in the tabular output of `wmic cpu get name`: its
/// second line, trimmed. Output without a second line is a failure.
pub fn cpu_model_from_wmic(output: &str) -> (r: Result<String, String>)
    ensures
        r is Ok <==> second_line(output@) is Some,
        r is Ok ==> r->Ok_0@ == trim_of(second_line(output@)->Some_0),
        r is Err ==> r->Err_0@ == "Failed to collect response from wmic.exe"@,
{
    let n = output.unicode_len();
    let k = find_char(output, '\n', 0);
    if k >= n {
        return Err(String::from_str("Failed to collect response from wmic.exe"));
    }
    let end = find_char(output, '\n', k + 1);
    let line = output.substring_char(k + 1, end);
    Ok(trim_text(line))
}

pub open spec fn is_digit(c: char) -> bool {
    '0' <= c && c <= '9'
}

pub open spec fn digit_value(c: char) -> int {
    c as int - '0' as int
}

/// What `str::parse` says of an empty text.
pub open spec fn empty_text_message() -> Seq<char> {
    "cannot parse integer from empty string"@
}

/// What `str::parse` says of a character that is not a digit.
pub open spec fn invalid_digit_message() -> Seq<char> {
    "invalid digit found in string"@
}

/// What `str::parse` says of a number above the type's largest value.
pub open spec fn too_large_message() -> Seq<char> {
    "number too large to fit in target type"@
}

/// Reads the digits of `d` from index `i` on, left to right, after the value
/// `acc` read so far: the first character that is not a digit, or the first
/// digit that takes the value above `max`, ends the reading with its message.
pub open spec fn digits_from(d: Seq<char>, i: int, acc: int, max: int) -> Result<int, Seq<char>>
    decreases d.len() - i,
{
    if i >= d.len() {
        Ok(acc)
    } else if !is_digit(d[i]) {
        Err(invalid_digit_message())
    } else if acc * 10 + digit_value(d[i]) > max {
        Err(too_large_message())
    } else {
        digits_from(d, i + 1, acc * 10 + digit_value(d[i]), max)
    }
}

/// An unsigned integer of largest value `max` read from the whole text as
/// `str::parse` reads it: an optional leading `+`, then decimal digits.
pub open spec fn parse_outcome(s: Seq<char>, max: int) -> Result<int, Seq<char>> {
    if s.len() == 0 {
        Err(empty_text_message())
    } else if s[0] == '+' {
        if s.len() == 1 {
            Err(invalid_digit_message())
        } else {
            digits_from(s, 1, 0, max)
        }
    } else {
        digits_from(s, 0, 0, max)
    }
}

proof fn lemma_digits_from_bounded(d: Seq<char>, i: int, acc: int, max: int)
    requires
        0 <= acc <= max,
    ensures
        digits_from(d, i, acc, max) matches Ok(v) ==> 0 <= v <= max,
    decreases d.len() - i,
{
    if i < d.len() && is_digit(d[i]) && acc * 10 + digit_value(d[i]) <= max {
        lemma_digits_from_bounded(d, i + 1, acc * 10 + digit_value(d[i]), max);
    }
}

/// Reads the whole text as an unsigned integer no larger than `max`, with
/// the messages of `str::parse` on failure.
pub fn parse_unsigned(s: &str, max: u64) -> (r: Result<u64, String>)
    ensures
        r is Ok <==> parse_outcome(s@, max as int) is Ok,
        r is Ok ==> parse_outcome(s@, max as int) == Ok::<int, Seq<char>>(r->Ok_0 as int),
        r is Ok ==> r->Ok_0 <= max,
        r is Err ==> parse_outcome(s@, max as int) == Err::<int, Seq<char>>(r->Err_0@),
{
    let n = s.unicode_len();
    if n == 0 {
        return Err(String::from_str("cannot parse integer from empty string"));
    }
    let mut i: usize = 0;
    if s.get_char(0) == '+' {
        if n == 1 {
            return Err(String::from_str("invalid digit found in string"));
        }
        i = 1;
    }
    let start = i;
    let mut acc: u64 = 0;
    proof {
        lemma_digits_from_bounded(s@, i as int, 0, max as int);
    }
    while i < n
        invariant
            n == s@.len(),
            start <= i <= n,
            acc <= max,
            parse_outcome(s@, max as int) == digits_from(s@, i as int, acc as int, max as int),
        decreases n - i,
    {
        let c = s.get_char(i);
        if c < '0' || c > '9' {
            return Err(String::from_str("invalid digit found in string"));
        }
        let d = ((c as u32) - ('0' as u32)) as u64;
        if d > max || acc > (max - d) / 10 {
            assert(acc * 10 + d > max) by (nonlinear_arith)
                requires
                    d > max || acc > (max - d) / 10,
                    d <= max ==> acc > (max - d) / 10,
            ;
            return Err(String::from_str("number too large to fit in target type"));
        }
        assert(acc * 10 + d <= max) by (nonlinear_arith)
            requires
                acc <= (max - d) / 10,
                d <= max,
        ;
        acc = acc * 10 + d;
        i = i + 1;
    }
    Ok(acc)
}

} // verus!
