use vstd::prelude::*;

verus! {

pub open spec fn is_digit(c: char) -> bool {
    '0' <= c && c <= '9'
}

pub open spec fn digit_value(c: char) -> int {
    c as int - '0' as int
}

/// Value of the two decimal digits at `i` and `i + 1`.
pub open spec fn two_digit_value(s: Seq<char>, i: int) -> int {
    10 * digit_value(s[i]) + digit_value(s[i + 1])
}

/// `s` reads `HH:MM:SS`: an hour below 24, a minute below 60, and a second
/// up to 60 (a leap second), each as two digits.
pub open spec fn is_timestamp(s: Seq<char>) -> bool {
    &&& s.len() == 8
    &&& is_digit(s[0]) && is_digit(s[1]) && is_digit(s[3])
    &&& is_digit(s[4]) && is_digit(s[6]) && is_digit(s[7])
    &&& s[2] == ':' && s[5] == ':'
    &&& two_digit_value(s, 0) < 24
    &&& two_digit_value(s, 3) < 60
    &&& two_digit_value(s, 6) <= 60
}

/// Relies on `chrono::Local::now` and the `%H:%M:%S` format of
/// `chrono::format::strftime`: hour (00-23), minute (00-59) and second (00-60),
/// each zero-padded to two digits, joined by colons. It panics on machine
/// states that no precondition can rule out: a system clock set before 1970,
/// or an unreadable local time zone file.
#[verifier::external_body]
fn local_clock_text() -> (r: String)
    ensures
        is_timestamp(r@),
{
    chrono::Local::now().format("%H:%M:%S").to_string()
}

/// The local wall-clock time, as `HH:MM:SS`.
pub fn now_timestamp() -> (r: String)
    ensures
        is_timestamp(r@),
{
    local_clock_text()
}

} // verus!
