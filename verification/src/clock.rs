//! The time of day, for names and ratings.
use crate::text::concat2;
use vstd::prelude::*;
use vstd::string::*;

verus! {

/// `chrono::Local::now` written with the format `%H:%M %m/%d`. It depends on the
/// clock and the time zone of the machine, so nothing is said of the text.
#[verifier::external_body]
fn local_stamp() -> (s: String) {
    chrono::Local::now().format("%H:%M %m/%d").to_string()
}

/// `chrono::Utc::now`, in seconds since 1970. It depends on the clock, so nothing
/// is said of the number.
#[verifier::external_body]
pub(crate) fn utc_seconds() -> (t: i64) {
    chrono::Utc::now().timestamp()
}

/// The name proposed for a new playlist made at a time.
pub open spec fn playlist_name_at(stamp: Seq<char>) -> Seq<char> {
    "mixr "@ + stamp
}

pub fn playlist_name(stamp: &str) -> (s: String)
    ensures
        s@ == playlist_name_at(stamp@),
{
    concat2("mixr ", stamp)
}

/// The name proposed for a new playlist now.
pub fn new_playlist_name() -> (s: String)
    ensures
        exists|stamp: Seq<char>| s@ == playlist_name_at(stamp),
{
    let stamp: String = local_stamp();
    playlist_name(stamp.as_str())
}

} // verus!
