use vstd::prelude::*;
use vstd::string::StrSliceExecFns;
use vstd::string::StringExecFns;
use num::cast::AsPrimitive;
use crate::model::in_grid;

verus! {

/// What compiling the regular expression `pattern` and searching `text` with
/// it gives: `None` where the pattern does not compile, else whether a match
/// is found somewhere in the text.
pub uninterp spec fn pattern_result(pattern: Seq<char>, text: Seq<char>) -> Option<bool>;

/// `text` without its last character, if that is `c`.
pub open spec fn without_trailing(text: Seq<char>, c: char) -> Seq<char> {
    if text.len() > 0 && text.last() == c {
        text.drop_last()
    } else {
        text
    }
}

/// A line without the line feed at its end and, then, without the carriage
/// return at its end.
pub open spec fn without_line_end(line: Seq<char>) -> Seq<char> {
    without_trailing(without_trailing(line, '\n'), '\r')
}

/// Whether `c` is one of the decimal digits `0` to `9`.
pub open spec fn is_decimal_digit(c: char) -> bool {
    '0' <= c <= '9'
}

/// The number that a decimal digit stands for.
pub open spec fn digit_value(c: char) -> int {
    c as u32 - '0' as u32
}

/// The value of `c` as a digit in a radix of at most ten, if it is one.
pub open spec fn digit_in_radix(c: char, radix: u32) -> Option<u32> {
    if '0' <= c && digit_value(c) < radix {
        Some((c as u32 - '0' as u32) as u32)
    } else {
        None
    }
}

/// What is left of an integer when it is cut down to eight bits and read as
/// a signed number.
pub open spec fn cut_to_i8(d: int) -> int {
    if d % 256 < 128 {
        d % 256
    } else {
        d % 256 - 256
    }
}

/// The pattern of a move as the players type it: a digit from 1 to 3, one
/// white-space character, and a digit from 1 to 3.
pub open spec fn move_pattern() -> Seq<char> {
    "^[1-3]\\s[1-3]$"@
}

/// Whether `c` is one of the digits `1` to `3`, which number the columns and
/// the rows of the grid.
pub open spec fn is_grid_digit(c: char) -> bool {
    '1' <= c <= '3'
}

/// The move that a line without its line end stands for, given whether it
/// matched the pattern of a move (`None`: the pattern could not be compiled).
/// The digits count from 1, the coordinates from 0.
pub open spec fn move_in(text: Seq<char>, matched: Option<bool>) -> Option<(i8, i8)> {
    if matched == Some(true) && text.len() >= 3 && is_grid_digit(text[0]) && is_grid_digit(
        text[2],
    ) {
        Some(((digit_value(text[0]) - 1) as i8, (digit_value(text[2]) - 1) as i8))
    } else {
        None
    }
}

/// Calls `char::to_digit`. Trusted, for a radix from 2 to 10: the result is
/// the digit's value where the character is one of the first `radix` decimal
/// digits, and `None` for every other character.
#[verifier::external_body]
fn to_digit(c: char, radix: u32) -> (r: Option<u32>)
    requires
        2 <= radix <= 10,
    ensures
        r == digit_in_radix(c, radix),
{
    c.to_digit(radix)
}

/// Calls `num::cast::AsPrimitive::as_` from `u32` to `i8`. Trusted: the
/// result is what the `as` operator gives, the low eight bits read as a
/// signed number.
#[verifier::external_body]
fn as_i8(d: u32) -> (r: i8)
    ensures
        r as int == cut_to_i8(d as int),
{
    d.as_()
}

/// Calls `regex::Regex::new` and, where that succeeds,
/// `regex::Regex::captures`. Trusted: the result depends on the pattern and
/// the text alone. It is `None` where the pattern does not compile, and else
/// says whether the expression matches somewhere in the text.
#[verifier::external_body]
fn match_pattern(pattern: &str, text: &str) -> (r: Option<bool>)
    ensures
        r == pattern_result(pattern@, text@),
{
    match regex::Regex::new(pattern) {
        Ok(re) => Some(re.captures(text).is_some()),
        Err(_) => None,
    }
}

/// The decimal digit at position `index` of `text`, as a number.
pub fn nth_char_as_num(text: &String, index: usize) -> (r: i8)
    requires
        index < text@.len(),
        is_decimal_digit(text@[index as int]),
    ensures
        r == digit_value(text@[index as int]),
        0 <= r <= 9,
{
    let c = text.as_str().get_char(index);
    let d = to_digit(c, 10).unwrap();
    as_i8(d)
}

/// Whether `c` is one of the digits `1` to `3`.
fn is_grid_digit_char(c: char) -> (r: bool)
    ensures
        r == is_grid_digit(c),
{
    match to_digit(c, 10) {
        Some(d) => 1 <= d && d <= 3,
        None => false,
    }
}

/// Removes one line feed from the end of `line`, if there is one, and then
/// one carriage return, if there is one.
pub fn strip_line_end(line: &str) -> (r: &str)
    ensures
        r@ == without_line_end(line@),
{
    let mut rest = line;
    let n = rest.unicode_len();
    if n > 0 && rest.get_char(n - 1) == '\n' {
        rest = rest.substring_char(0, n - 1);
    }
    assert(rest@ =~= without_trailing(line@, '\n'));
    let m = rest.unicode_len();
    if m > 0 && rest.get_char(m - 1) == '\r' {
        let shorter = rest.substring_char(0, m - 1);
        assert(shorter@ =~= without_trailing(rest@, '\r'));
        rest = shorter;
    }
    rest
}

/// Reads the move out of a line without its line end, given whether the line
/// matched the pattern of a move.
pub fn decode_move(text: &String, matched: Option<bool>) -> (r: Option<(i8, i8)>)
    ensures
        r == move_in(text@, matched),
        r matches Some(m) ==> in_grid(m.0 as int, m.1 as int),
{
    match matched {
        Some(true) => {
            let s = text.as_str();
            if s.unicode_len() >= 3 && is_grid_digit_char(s.get_char(0)) && is_grid_digit_char(
                s.get_char(2),
            ) {
                Some((nth_char_as_num(text, 0) - 1, nth_char_as_num(text, 2) - 1))
            } else {
                None
            }
        },
        _ => None,
    }
}

/// Reads a line of input as a move. The line end goes, and what is left must
/// be a digit from 1 to 3, one white-space character and a digit from 1 to 3:
/// the digits, each less one, are the coordinates `(x, y)`. Every other line
/// gives `None`.
pub fn parse_move(line: &str) -> (r: Option<(i8, i8)>)
    ensures
        r == move_in(
            without_line_end(line@),
            pattern_result(move_pattern(), without_line_end(line@)),
        ),
        r matches Some(m) ==> in_grid(m.0 as int, m.1 as int),
{
    let cleaned = String::from_str(strip_line_end(line));
    let matched = match_pattern("^[1-3]\\s[1-3]$", cleaned.as_str());
    decode_move(&cleaned, matched)
}

} // verus!
