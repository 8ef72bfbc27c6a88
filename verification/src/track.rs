//! A track as the screens show it.
use crate::text::{concat3, decimal, round_div, rounded_div};
use vstd::prelude::*;
use vstd::string::*;

verus! {

/// Someone or something of the catalogue, with its name.
pub struct Named {
    pub id: i64,
    pub name: String,
}

pub struct Track {
    pub id: i64,
    pub artist: String,
    /// Name and mix name.
    pub title: String,
    pub remixers: Vec<String>,
    /// Playing time as text.
    pub duration: String,
    /// Tempo in thousandths of a beat per minute.
    pub bpm: Option<u32>,
    /// Camelot key.
    pub key: Option<String>,
    pub label_name: Option<String>,
    pub genre_name: Option<String>,
    pub release_date: Option<String>,
    pub artists: Vec<Named>,
    /// The remixers, to look them up.
    pub remixer_links: Vec<Named>,
    pub label_id: Option<i64>,
    pub genre_id: Option<i64>,
    pub genre_slug: Option<String>,
    pub release_id: Option<i64>,
}

/// A tempo in whole beats per minute.
pub open spec fn bpm_whole(bpm: u32) -> Seq<char> {
    decimal(round_div(bpm as nat, 1000))
}

/// A tempo with one decimal.
pub open spec fn bpm_tenths(bpm: u32) -> Seq<char> {
    let t = round_div(bpm as nat, 100);
    decimal(t / 10) + "."@ + decimal(t % 10)
}

pub fn bpm_whole_str(bpm: u32) -> (s: String)
    ensures
        s@ == bpm_whole(bpm),
{
    crate::text::wide_decimal_str(rounded_div(bpm as u128, 1000))
}

pub fn bpm_tenths_str(bpm: u32) -> (s: String)
    ensures
        s@ == bpm_tenths(bpm),
{
    let t: u128 = rounded_div(bpm as u128, 100);
    concat3(
        crate::text::wide_decimal_str(t / 10).as_str(),
        ".",
        crate::text::wide_decimal_str(t % 10).as_str(),
    )
}

/// `artist - title`.
pub open spec fn track_name(t: Track) -> Seq<char> {
    t.artist@ + " - "@ + t.title@
}

impl Track {
    pub fn name(&self) -> (s: String)
        ensures
            s@ == track_name(*self),
    {
        concat3(self.artist.as_str(), " - ", self.title.as_str())
    }
}

/// The tempo in whole beats per minute and the key, `?` for what is unknown.
pub open spec fn bpm_slash_key(t: Track) -> Seq<char> {
    (match t.bpm {
        Some(b) => bpm_whole(b),
        None => "?"@,
    }) + "/"@ + (match t.key {
        Some(k) => k@,
        None => "?"@,
    })
}

pub fn bpm_slash_key_str(t: &Track) -> (s: String)
    ensures
        s@ == bpm_slash_key(*t),
{
    let b: String = match t.bpm {
        Some(x) => bpm_whole_str(x),
        None => "?".to_owned(),
    };
    match &t.key {
        Some(k) => concat3(b.as_str(), "/", k.as_str()),
        None => concat3(b.as_str(), "/", "?"),
    }
}

} // verus!
