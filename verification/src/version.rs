//! The version string that the front end shows: when the build was made and
//! from which commit.

use vstd::prelude::*;
use std::fmt::Write;

verus! {

/// What `str::parse::<i64>` makes of a text: the number that it denotes, or
/// nothing where it denotes none that fits.
pub uninterp spec fn parsed_seconds(text: Seq<char>) -> Option<i64>;

/// How the build time is written: year, month and day, a dot, and hour,
/// minute and second, all in digits.
pub const BUILD_TIME_PATTERN: &'static str = "%Y%m%d.%H%M%S";

/// The text that `chrono` writes, after a pattern, for a moment given in
/// seconds since the start of 1970; nothing for a moment that `chrono`
/// cannot represent and for a pattern that it cannot follow.
pub uninterp spec fn build_time_text(seconds: i64, pattern: Seq<char>) -> Option<Seq<char>>;

/// Whether `part` occurs in `text` as a run of consecutive characters.
pub open spec fn occurs_in(part: Seq<char>, text: Seq<char>) -> bool {
    exists|i: int|
        0 <= i <= text.len() - part.len() && #[trigger] text.subrange(i, i + part.len()) == part
}

/// The build time that a recorded text stands for: the number that it
/// denotes, and zero where it denotes none.
pub open spec fn seconds_of(build_timestamp: Seq<char>) -> i64 {
    match parsed_seconds(build_timestamp) {
        Some(seconds) => seconds,
        None => 0,
    }
}

/// The mark of a build from a working tree with uncommitted changes.
pub open spec fn dirty_mark() -> Seq<char> {
    "dirty"@
}

/// The version of a build: the commit alone where it is marked dirty, and
/// otherwise the build time, a space and the commit.
pub open spec fn version_text(build_time: Seq<char>, commit: Seq<char>) -> Seq<char> {
    if occurs_in(dirty_mark(), commit) {
        commit
    } else {
        build_time + " "@ + commit
    }
}

/// Reads a whole number with `str::parse::<i64>`. The standard library
/// documents the grammar; the contract only gives the result its name.
#[verifier::external_body]
fn parse_seconds(text: &str) -> (seconds: Option<i64>)
    ensures
        seconds == parsed_seconds(text@),
{
    text.parse::<i64>().ok()
}

/// Whether a text holds another, by `str::contains`, which the standard
/// library documents as true exactly where the pattern matches a sub-slice
/// of the text.
#[verifier::external_body]
fn holds_text(text: &str, part: &str) -> (held: bool)
    ensures
        held == occurs_in(part@, text@),
{
    text.contains(part)
}

/// Writes a moment after a pattern, with `chrono::DateTime::from_timestamp`
/// and `chrono::NaiveDateTime::format`. The first returns nothing for a
/// number of seconds outside the range that `chrono` represents, and
/// writing what the second returns fails for a pattern that `chrono` cannot
/// follow. The text depends on the number of seconds and the pattern alone,
/// and the contract gives it its name.
#[verifier::external_body]
fn write_build_time(seconds: i64, pattern: &str) -> (text: Option<String>)
    ensures
        text is Some == build_time_text(seconds, pattern@) is Some,
        text matches Some(t) ==> build_time_text(seconds, pattern@) == Some(t@),
{
    match chrono::DateTime::from_timestamp(seconds, 0) {
        Some(moment) => {
            let mut text = String::new();
            match write!(text, "{}", moment.naive_utc().format(pattern)) {
                Ok(()) => Some(text),
                Err(_) => None,
            }
        },
        None => None,
    }
}

/// Puts a version together from the written build time and the commit.
pub fn compose_version(build_time: &str, commit: &str) -> (version: String)
    ensures
        version@ == version_text(build_time@, commit@),
{
    if holds_text(commit, "dirty") {
        commit.to_owned()
    } else {
        let mut version: String = build_time.to_owned();
        version.append(" ");
        version.append(commit);
        version
    }
}

/// The version of a build from what the build recorded: the time of the
/// build, as a number of seconds written in digits, and the commit. A time
/// that is no number counts as zero, and the time is written after
/// `BUILD_TIME_PATTERN`. There is no version where the time lies outside the
/// range that `chrono` represents.
pub fn version(build_timestamp: &str, commit: &str) -> (version: Option<String>)
    ensures
        version is Some == build_time_text(
            seconds_of(build_timestamp@),
            BUILD_TIME_PATTERN@,
        ) is Some,
        version matches Some(v) ==> v@ == version_text(
            build_time_text(seconds_of(build_timestamp@), BUILD_TIME_PATTERN@).unwrap(),
            commit@,
        ),
{
    let seconds: i64 = match parse_seconds(build_timestamp) {
        Some(seconds) => seconds,
        None => 0,
    };
    match write_build_time(seconds, BUILD_TIME_PATTERN) {
        Some(build_time) => Some(compose_version(build_time.as_str(), commit)),
        None => None,
    }
}

} // verus!
