//! Which searches are refused because they look for something that a search by
//! title cannot find: a genre, a tempo or a key.
use crate::keymap::{lower_all, lowered};
use crate::text::{
    chars_of, concat3, contains, has_text, is_digit, is_space, parse_below, parse_unsigned, space,
    string_of,
};
use vstd::prelude::*;
use vstd::string::*;

verus! {

/// Words that name a genre.
pub const GENRE_TERMS: [&'static str; 24] = [
    "house",
    "techno",
    "trance",
    "bass",
    "drum",
    "ambient",
    "minimal",
    "progressive",
    "melodic",
    "afro",
    "electro",
    "breaks",
    "dnb",
    "jungle",
    "garage",
    "psytrance",
    "hardcore",
    "disco",
    "funk",
    "soul",
    "indie",
    "industrial",
    "footwork",
    "uk",
];

/// A word of the list is in the text.
pub open spec fn names_genre(lower: Seq<char>) -> bool {
    exists|i: int| 0 <= i < 24 && contains(lower, #[trigger] GENRE_TERMS@[i]@)
}

pub open spec fn has_digit(s: Seq<char>) -> bool {
    exists|i: int| 0 <= i < s.len() && is_digit(#[trigger] s[i])
}

/// A Camelot key: a number from 1 to 12 and a letter, `a` or `b`.
pub open spec fn is_camelot(word: Seq<char>) -> bool {
    word.len() > 0 && (word.last() == 'a' || word.last() == 'b') && match parse_unsigned(
        word.drop_last(),
        256,
    ) {
        Some(n) => 1 <= n <= 12,
        None => false,
    }
}

/// `from..to` is a word: between spaces, and without one.
pub open spec fn is_word(s: Seq<char>, from: int, to: int) -> bool {
    &&& 0 <= from < to <= s.len()
    &&& forall|k: int| from <= k < to ==> !is_space(#[trigger] s[k])
    &&& from == 0 || is_space(s[from - 1])
    &&& to == s.len() || is_space(s[to])
}

pub open spec fn has_camelot(s: Seq<char>) -> bool {
    exists|from: int, to: int| #[trigger] is_word(s, from, to) && is_camelot(s.subrange(from, to))
}

/// What a query looks for that a search by title cannot find.
#[derive(Debug, Clone, Copy, PartialEq, Eq, Structural)]
pub enum Refusal {
    Genre,
    Bpm,
    Key,
}

pub open spec fn refusal(query: Seq<char>) -> Option<Refusal> {
    let lower = lower_all(query);
    if names_genre(lower) {
        Some(Refusal::Genre)
    } else if contains(lower, "bpm"@) && has_digit(query) {
        Some(Refusal::Bpm)
    } else if has_camelot(lower) {
        Some(Refusal::Key)
    } else {
        None
    }
}

fn is_camelot_word(v: &Vec<char>, from: usize, to: usize) -> (b: bool)
    requires
        from < to <= v@.len(),
    ensures
        b == is_camelot(v@.subrange(from as int, to as int)),
{
    let last: char = v[to - 1];
    let ghost word = v@.subrange(from as int, to as int);
    assert(word.last() == last);
    if last != 'a' && last != 'b' {
        return false;
    }
    let number: String = string_of(v, from, to - 1);
    assert(number@ =~= word.drop_last());
    match parse_below(number.as_str(), 256) {
        Some(n) => 1 <= n && n <= 12,
        None => false,
    }
}

fn genre_in(lower: &str) -> (b: bool)
    ensures
        b == names_genre(lower@),
{
    let mut i: usize = 0;
    while i < 24
        invariant
            i <= 24,
            forall|k: int| 0 <= k < i ==> !contains(lower@, #[trigger] GENRE_TERMS@[k]@),
        decreases 24 - i,
    {
        let term: &str = GENRE_TERMS[i];
        assert(term@ == GENRE_TERMS@[i as int]@);
        if has_text(lower, term) {
            return true;
        }
        i += 1;
    }
    false
}

fn digit_in(v: &Vec<char>) -> (b: bool)
    ensures
        b == has_digit(v@),
{
    let mut i: usize = 0;
    while i < v.len()
        invariant
            i <= v.len(),
            forall|k: int| 0 <= k < i ==> !is_digit(#[trigger] v@[k]),
        decreases v.len() - i,
    {
        let c: char = v[i];
        if c >= '0' && c <= '9' {
            assert(is_digit(v@[i as int]));
            return true;
        }
        i += 1;
    }
    false
}

/// The end of the run without spaces that starts at `from`.
fn word_end(v: &Vec<char>, from: usize) -> (to: usize)
    requires
        from < v@.len(),
    ensures
        from <= to <= v@.len(),
        forall|k: int| from <= k < to ==> !is_space(#[trigger] v@[k]),
        to == v@.len() || is_space(v@[to as int]),
{
    let mut to: usize = from;
    while to < v.len()
        invariant_except_break
            from <= to <= v.len(),
            forall|k: int| from <= k < to ==> !is_space(#[trigger] v@[k]),
        ensures
            from <= to <= v.len(),
            forall|k: int| from <= k < to ==> !is_space(#[trigger] v@[k]),
            to == v.len() || is_space(v@[to as int]),
        decreases v.len() - to,
    {
        if space(v[to]) {
            break;
        }
        to += 1;
    }
    to
}

fn camelot_in(v: &Vec<char>) -> (b: bool)
    ensures
        b == has_camelot(v@),
{
    let s: Ghost<Seq<char>> = Ghost(v@);
    let mut i: usize = 0;
    while i < v.len()
        invariant
            i <= v.len(),
            s@ == v@,
            i == 0 || i == v.len() || is_space(s@[i - 1]) || is_space(s@[i as int]),
            forall|from: int, to: int|
                #[trigger] is_word(s@, from, to) && from < i ==> !is_camelot(
                    s@.subrange(from, to),
                ),
        decreases v.len() - i,
    {
        if space(v[i]) {
            assert forall|from: int, to: int| #[trigger]
                is_word(s@, from, to) && from < i + 1 implies !is_camelot(s@.subrange(from, to)) by {
                if from == i {
                    assert(!is_space(s@[from]));
                }
            }
            i += 1;
        } else {
            let end: usize = word_end(v, i);
            assert(end > i) by {
                if end == i {
                    assert(is_space(v@[i as int]));
                }
            }
            assert(is_word(s@, i as int, end as int));
            if is_camelot_word(v, i, end) {
                return true;
            }
            assert forall|from: int, to: int| #[trigger]
                is_word(s@, from, to) && from < end implies !is_camelot(s@.subrange(from, to)) by {
                if from > i {
                    assert(is_space(s@[from - 1]));
                    assert(!is_space(s@[from - 1]));
                } else if from == i {
                    if to < end {
                        assert(is_space(s@[to]));
                        assert(!is_space(s@[to]));
                    } else if to > end {
                        assert(is_space(s@[end as int]));
                        assert(!is_space(s@[end as int]));
                    }
                }
            }
            i = end;
        }
    }
    assert(!has_camelot(s@)) by {
        if has_camelot(s@) {
            let (from, to) = choose|from: int, to: int| #[trigger]
                is_word(s@, from, to) && is_camelot(s@.subrange(from, to));
            assert(is_word(s@, from, to) && from < i);
        }
    }
    false
}

/// Whether a query is refused, and why.
pub fn refuse_search(query: &str) -> (r: Option<Refusal>)
    ensures
        r == refusal(query@),
{
    let lower: String = lowered(query);
    if genre_in(lower.as_str()) {
        return Some(Refusal::Genre);
    }
    let v: Vec<char> = chars_of(query);
    if has_text(lower.as_str(), "bpm") && digit_in(&v) {
        return Some(Refusal::Bpm);
    }
    let low: Vec<char> = chars_of(lower.as_str());
    if camelot_in(&low) {
        Some(Refusal::Key)
    } else {
        None
    }
}

pub open spec fn refusal_reason(r: Refusal) -> Seq<char> {
    match r {
        Refusal::Genre => "looks like a genre name"@,
        Refusal::Bpm => "looks like a BPM number"@,
        Refusal::Key => "looks like a Camelot key"@,
    }
}

/// What the DJ is told of a search that was refused.
pub open spec fn refusal_text(query: Seq<char>, r: Refusal) -> Seq<char> {
    "REFUSED: '"@ + query + "' "@ + refusal_reason(r)
        + ". search_tracks matches track TITLES, not genre/BPM/key metadata — you'd get tracks with those words in their names. Use the browse tree for genre (go_back to root, then Genres > [Genre] > Charts/Top 100). BPM/key compatibility is reported inline by queue_track. Search is for ARTIST or TRACK TITLE only."@
}

pub fn refusal_reply(query: &str, r: Refusal) -> (s: String)
    ensures
        s@ == refusal_text(query@, r),
{
    let why: &str = match r {
        Refusal::Genre => "looks like a genre name",
        Refusal::Bpm => "looks like a BPM number",
        Refusal::Key => "looks like a Camelot key",
    };
    let head: String = concat3("REFUSED: '", query, "' ");
    concat3(
        head.as_str(),
        why,
        ". search_tracks matches track TITLES, not genre/BPM/key metadata — you'd get tracks with those words in their names. Use the browse tree for genre (go_back to root, then Genres > [Genre] > Charts/Top 100). BPM/key compatibility is reported inline by queue_track. Search is for ARTIST or TRACK TITLE only.",
    )
}

/// A query that is a Camelot key by itself is never searched for.
pub proof fn keys_are_refused(query: Seq<char>)
    requires
        is_camelot(lower_all(query)),
        forall|i: int| 0 <= i < query.len() ==> !is_space(#[trigger] query[i]),
    ensures
        refusal(query) is Some,
{
    let lower = lower_all(query);
    assert forall|k: int| 0 <= k < lower.len() implies !is_space(#[trigger] lower[k]) by {
        assert(!is_space(query[k]));
    }
    assert(is_word(lower, 0, lower.len() as int));
    assert(lower.subrange(0, lower.len() as int) =~= lower);
}

} // verus!
