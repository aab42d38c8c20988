//! Names of recording files: the save directory, a time stamp that is safe
//! in a file name and sorts by time, and the extension.

use vstd::prelude::*;

verus! {

/// The pattern of the time stamp: date and time of day, as
/// `YYYY-MM-DD_HH-MM-SS`.
pub const STAMP_PATTERN: &'static str = "%Y-%m-%d_%H-%M-%S";

/// The text that `chrono` gives for the moment `secs` seconds after the
/// start of 1970 in UTC, formatted by `pattern`; `None` where the moment
/// lies outside the dates that `chrono` can represent.
pub uninterp spec fn utc_text(secs: i64, pattern: Seq<char>) -> Option<Seq<char>>;

/// Calls `chrono::DateTime::from_timestamp` with `secs` and no nanoseconds,
/// and formats the date it gives with `DateTime::format` and `pattern`. The
/// contract only names the result: the text is what `chrono` makes of the
/// two arguments, and there is none where `from_timestamp` gives no date.
/// The pattern must be `STAMP_PATTERN`, which `chrono` can format.
#[verifier::external_body]
fn format_utc(secs: i64, pattern: &str) -> (text: Option<String>)
    requires
        pattern@ == STAMP_PATTERN@,
    ensures
        match text {
            Some(t) => utc_text(secs, pattern@) == Some(t@),
            None => utc_text(secs, pattern@) is None,
        },
{
    match chrono::DateTime::from_timestamp(secs, 0) {
        Some(moment) => Some(moment.format(pattern).to_string()),
        None => None,
    }
}

/// `String::push_str` of std: `more` is appended to `text`.
#[verifier::external_body]
fn push_text(text: &mut String, more: &str)
    ensures
        final(text)@ == old(text)@ + more@,
{
    text.push_str(more)
}

/// The time stamp of the moment `secs` seconds after the start of 1970 in
/// UTC, where it can be represented.
pub open spec fn stamp_text(secs: i64) -> Option<Seq<char>> {
    utc_text(secs, STAMP_PATTERN@)
}

/// The time stamp of the moment `secs` seconds after the start of 1970 in
/// UTC; `None` where the moment cannot be represented as a date.
pub fn file_safe_timestamp(secs: i64) -> (stamp: Option<String>)
    ensures
        match stamp {
            Some(t) => stamp_text(secs) == Some(t@),
            None => stamp_text(secs) is None,
        },
{
    format_utc(secs, STAMP_PATTERN)
}

/// The path of the recording made at `stamp` under `dir`: `dir/stamp.wav`.
pub open spec fn recording_path_text(dir: Seq<char>, stamp: Seq<char>) -> Seq<char> {
    dir + seq!['/'] + stamp + seq!['.', 'w', 'a', 'v']
}

/// The path of the recording made at `stamp` under `dir`.
pub fn recording_path(dir: &str, stamp: &str) -> (path: String)
    ensures
        path@ == recording_path_text(dir@, stamp@),
{
    let mut path = String::new();
    push_text(&mut path, dir);
    push_text(&mut path, "/");
    push_text(&mut path, stamp);
    push_text(&mut path, ".wav");
    proof {
        reveal_strlit("/");
        reveal_strlit(".wav");
        assert("/"@ =~= seq!['/']);
        assert(".wav"@ =~= seq!['.', 'w', 'a', 'v']);
        assert(path@ =~= recording_path_text(dir@, stamp@));
    }
    path
}

} // verus!
