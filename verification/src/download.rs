//! The parts of the download pipeline that decide: names, file formats, and
//! which analysis result is kept.
use crate::keymap::{ascii_lower, lower_all};
use crate::text::{chars_of, concat2, str_eq};
use crate::track::{track_name, Track};
use vstd::prelude::*;
use vstd::string::*;
use vstd::utf8::{encode_utf8, is_char_boundary};

verus! {

/// A name whose byte form can be cut after 37 bytes.
pub open spec fn can_shorten(name: Seq<char>) -> bool {
    encode_utf8(name).len() > 40 ==> is_char_boundary(encode_utf8(name), 37)
}

/// The name of a track in messages: cut to 37 bytes and three dots where it
/// has more than 40.
pub fn short_name(track: &Track) -> (s: String)
    requires
        can_shorten(track_name(*track)),
        encode_utf8(track_name(*track)).len() <= usize::MAX,
    ensures
        ({
            let name = track_name(*track);
            if encode_utf8(name).len() > 40 {
                exists|cut: Seq<char>|
                    #[trigger] encode_utf8(cut) == encode_utf8(name).subrange(0, 37) && s@ == cut
                        + "..."@
            } else {
                s@ == name
            }
        }),
{
    let full: String = track.name();
    if full.as_str().len() > 40 {
        let (head, _rest): (&str, &str) = full.as_str().split_at(37);
        assert(encode_utf8(head@) == encode_utf8(track_name(*track)).subrange(0, 37));
        concat2(head, "...")
    } else {
        full
    }
}

/// The decoder for a file, from its extension in lower case; an unknown or
/// missing one is tried as FLAC.
pub open spec fn format_of(ext: Option<Seq<char>>) -> &'static str {
    match ext {
        Some(e) => {
            let l = lower_all(e);
            if l == "aac"@ {
                "aac"
            } else if l == "m4a"@ {
                "m4a"
            } else if l == "mp3"@ {
                "mp3"
            } else if l == "wav"@ {
                "wav"
            } else if l == "ogg"@ || l == "opus"@ {
                "ogg"
            } else {
                "flac"
            }
        },
        None => "flac",
    }
}

/// The decoder for a file with the given extension.
pub fn decoder_for(ext: &Option<String>) -> (f: &'static str)
    ensures
        f == format_of(
            match *ext {
                Some(e) => Some(e@),
                None => None,
            },
        ),
{
    match ext {
        Some(e) => {
            let v: Vec<char> = chars_of(e.as_str());
            let mut l: String = String::new();
            let mut i: usize = 0;
            while i < v.len()
                invariant
                    i <= v.len(),
                    v@ == e@,
                    l@ == lower_all(e@).take(i as int),
                decreases v.len() - i,
            {
                l.push(ascii_lower(v[i]));
                i += 1;
                assert(lower_all(e@).take(i as int) == lower_all(e@).take(i - 1).push(
                    lower_all(e@)[i - 1],
                ));
            }
            assert(lower_all(e@).take(i as int) == lower_all(e@));
            let l: &str = l.as_str();
            if str_eq(l, "aac") {
                "aac"
            } else if str_eq(l, "m4a") {
                "m4a"
            } else if str_eq(l, "mp3") {
                "mp3"
            } else if str_eq(l, "wav") {
                "wav"
            } else if str_eq(l, "ogg") || str_eq(l, "opus") {
                "ogg"
            } else {
                "flac"
            }
        },
        None => "flac",
    }
}

#[derive(Debug, Clone, Copy, PartialEq, Eq, Structural)]
pub enum PhraseType {
    Drop,
    Buildup,
    Breakdown,
    Intro,
    Outro,
}

pub open spec fn phrase_type(label: Seq<char>) -> PhraseType {
    if label == "buildup"@ {
        PhraseType::Buildup
    } else if label == "breakdown"@ {
        PhraseType::Breakdown
    } else if label == "intro"@ {
        PhraseType::Intro
    } else if label == "outro"@ {
        PhraseType::Outro
    } else {
        PhraseType::Drop
    }
}

/// The type of a detected phrase; an unknown label is a drop.
pub fn phrase_type_of(label: &str) -> (t: PhraseType)
    ensures
        t == phrase_type(label@),
{
    if str_eq(label, "buildup") {
        PhraseType::Buildup
    } else if str_eq(label, "breakdown") {
        PhraseType::Breakdown
    } else if str_eq(label, "intro") {
        PhraseType::Intro
    } else if str_eq(label, "outro") {
        PhraseType::Outro
    } else {
        PhraseType::Drop
    }
}

/// The phrases detected take the place of those computed when there are at
/// least as many.
pub fn detected_phrases_win(detected: usize, computed: usize) -> (b: bool)
    ensures
        b == (detected > 0 && detected >= computed),
{
    detected > 0 && detected >= computed
}

/// A refined first beat counts when it moves the grid by more than a
/// millisecond. Times are in microseconds.
pub fn refined_beat(old_us: i64, refined_us: i64) -> (t: i64)
    ensures
        t == (if -1000 <= refined_us - old_us <= 1000 {
            old_us
        } else {
            refined_us
        }),
{
    let d: i128 = refined_us as i128 - old_us as i128;
    if -1000 <= d && d <= 1000 {
        old_us
    } else {
        refined_us
    }
}

/// The first beat after a grid check: a correction of more than three
/// milliseconds is applied.
pub fn corrected_beat(first_us: i64, correction_us: Option<i64>) -> (t: i64)
    requires
        correction_us matches Some(c) ==> i64::MIN <= first_us + c <= i64::MAX,
    ensures
        t == (match correction_us {
            Some(c) => if -3000 <= c <= 3000 {
                first_us as int
            } else {
                first_us + c
            },
            None => first_us as int,
        }),
{
    match correction_us {
        Some(c) => if -3000 <= c && c <= 3000 {
            first_us
        } else {
            first_us + c
        },
        None => first_us,
    }
}

/// The tempo after a grid check: another one counts when it differs by more
/// than a tenth of a beat per minute. Tempos are in thousandths.
pub fn corrected_bpm(bpm: u32, correction: Option<u32>) -> (b: u32)
    ensures
        b == (match correction {
            Some(c) => if -100 <= c - bpm <= 100 {
                bpm
            } else {
                c
            },
            None => bpm,
        }),
{
    match correction {
        Some(c) => {
            let d: i64 = c as i64 - bpm as i64;
            if -100 <= d && d <= 100 {
                bpm
            } else {
                c
            }
        },
        None => bpm,
    }
}

} // verus!
