//! The capture file's completion footer: a newline-prefixed line naming
//! the tool and the local time the session ended, in RFC 2822 form.

use vstd::prelude::*;
use vstd::string::StringExecFns;

verus! {

/// An ASCII decimal digit.
pub open spec fn ascii_digit(c: char) -> bool {
    '0' <= c && c <= '9'
}

/// An ASCII letter.
pub open spec fn ascii_letter(c: char) -> bool {
    ('A' <= c && c <= 'Z') || ('a' <= c && c <= 'z')
}

/// The fixed layout of an RFC 2822 timestamp whose day-of-month has
/// `1 + d` digits (`d` is 0 or 1): `Www, D Mmm YYYY HH:MM:SS +ZZZZ` —
/// a three-letter weekday, a comma and space, the day without a leading
/// zero, a three-letter month, a four-digit year, two-digit hour, minute
/// and second separated by colons, and a sign with a four-digit zone
/// offset.
pub open spec fn rfc2822_shape(ts: Seq<char>, d: int) -> bool {
    &&& ascii_letter(ts[0]) && ascii_letter(ts[1]) && ascii_letter(ts[2])
    &&& ts[3] == ',' && ts[4] == ' '
    &&& ascii_digit(ts[5]) && (d == 1 ==> ascii_digit(ts[6]))
    &&& ts[6 + d] == ' '
    &&& ascii_letter(ts[7 + d]) && ascii_letter(ts[8 + d]) && ascii_letter(ts[9 + d])
    &&& ts[10 + d] == ' '
    &&& ascii_digit(ts[11 + d]) && ascii_digit(ts[12 + d]) && ascii_digit(ts[13 + d])
        && ascii_digit(ts[14 + d])
    &&& ts[15 + d] == ' '
    &&& ascii_digit(ts[16 + d]) && ascii_digit(ts[17 + d])
    &&& ts[18 + d] == ':'
    &&& ascii_digit(ts[19 + d]) && ascii_digit(ts[20 + d])
    &&& ts[21 + d] == ':'
    &&& ascii_digit(ts[22 + d]) && ascii_digit(ts[23 + d])
    &&& ts[24 + d] == ' '
    &&& (ts[25 + d] == '+' || ts[25 + d] == '-')
    &&& ascii_digit(ts[26 + d]) && ascii_digit(ts[27 + d]) && ascii_digit(ts[28 + d])
        && ascii_digit(ts[29 + d])
}

/// A local date and time in RFC 2822 form: 30 characters when the day of
/// the month has one digit, 31 when it has two.
pub open spec fn is_rfc2822_timestamp(ts: Seq<char>) -> bool {
    &&& (ts.len() == 30 || ts.len() == 31)
    &&& rfc2822_shape(ts, ts.len() - 30)
}

/// The footer line for a given timestamp text: the newline, the tool
/// identifier, and the timestamp.
pub open spec fn footer_text(ts: Seq<char>) -> Seq<char> {
    "\nsr recording done on "@ + ts
}

/// A character sequence is a footer line when it is [`footer_text`] of
/// some RFC 2822 timestamp.
pub open spec fn is_footer_text(s: Seq<char>) -> bool {
    exists|ts: Seq<char>| is_rfc2822_timestamp(ts) && s == footer_text(ts)
}

/// Relies on `chrono::Local::now` for the current local date and time and
/// on `chrono::DateTime::to_rfc2822` for its rendering. The value rendered
/// depends on the wall clock and the configured time zone, but chrono's
/// RFC 2822 writer gives every rendering the same fixed layout, stated
/// here: weekday, `", "`, a one- or two-digit day, month, a four-digit
/// year, `HH:MM:SS`, and a signed four-digit zone offset. The call does
/// not return on degenerate clock states (a local year outside 0 through
/// 9999).
#[verifier::external_body]
fn now_rfc2822() -> (r: String)
    ensures
        is_rfc2822_timestamp(r@),
{
    chrono::Local::now().to_rfc2822()
}

/// The footer line for the timestamp text `ts`.
pub fn footer_line(ts: &str) -> (r: String)
    ensures
        r@ == footer_text(ts@),
{
    String::from_str("\nsr recording done on ").concat(ts)
}

/// The footer line for the present moment: the tool identifier followed by
/// the current local time in RFC 2822 form. Exactly one footer is appended
/// to the capture file, after the relay loop has ended.
pub fn make_footer() -> (r: String)
    ensures
        is_footer_text(r@),
        52 <= r@.len() <= 53,
        r@.subrange(0, 22) == "\nsr recording done on "@,
{
    let ts = now_rfc2822();
    let r = footer_line(ts.as_str());
    proof {
        reveal_strlit("\nsr recording done on ");
        assert(is_rfc2822_timestamp(ts@) && r@ == footer_text(ts@));
        assert(r@.subrange(0, 22) =~= "\nsr recording done on "@);
    }
    r
}

} // verus!
