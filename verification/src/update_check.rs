//! "Is there a newer release?": comparing version tags and announcing a newer
//! one once.
use crate::text::{
    chars_of, concat3, parse_below, parse_unsigned, split_on, split_text, string_of, strs,
};
use vstd::prelude::*;
use vstd::string::*;

verus! {

pub const REPO: &'static str = "chris-mclennan/mixr";

/// What was found out about releases, and whether it was announced.
pub struct UpdateCheck {
    pub latest_version: Option<String>,
    pub announced: bool,
}

/// What parsing a text as JSON and reading one field of the object as a string
/// gives.
pub uninterp spec fn json_string(body: Seq<char>, field: Seq<char>) -> Option<Seq<char>>;

/// Calls `serde_json::from_str` on the text, then `Value::get` and
/// `Value::as_str`: the string under `field` of a JSON object, and nothing for
/// a text that is no JSON, no object, or holds no string there. It depends on
/// the text and the name of the field alone.
#[verifier::external_body]
fn json_string_field(body: &str, field: &str) -> (r: Option<String>)
    ensures
        match r {
            Some(s) => json_string(body@, field@) == Some(s@),
            None => json_string(body@, field@) is None,
        },
{
    let parsed: serde_json::Value = serde_json::from_str(body).ok()?;
    parsed.get(field)?.as_str().map(str::to_owned)
}

/// Without any `v` in front.
pub open spec fn without_v(s: Seq<char>) -> Seq<char>
    decreases s.len(),
{
    if s.len() > 0 && s[0] == 'v' {
        without_v(s.skip(1))
    } else {
        s
    }
}

fn strip_v(s: &str) -> (r: String)
    ensures
        r@ == without_v(s@),
{
    let v: Vec<char> = chars_of(s);
    let mut from: usize = 0;
    assert(v@.skip(0) == v@);
    while from < v.len() && v[from] == 'v'
        invariant
            from <= v.len(),
            without_v(v@) == without_v(v@.skip(from as int)),
        decreases v.len() - from,
    {
        assert(v@.skip(from as int).skip(1) == v@.skip(from as int + 1));
        from += 1;
    }
    assert(v@.subrange(from as int, v@.len() as int) == v@.skip(from as int));
    string_of(&v, from, v.len())
}

/// The version that a tag names.
pub fn version_of_tag(tag: &Option<String>) -> (r: Option<String>)
    ensures
        match (*tag, r) {
            (Some(t), Some(v)) => v@ == without_v(t@),
            (None, None) => true,
            _ => false,
        },
{
    match tag {
        Some(t) => Some(strip_v(t.as_str())),
        None => None,
    }
}

/// The version in the answer of the release service: its `tag_name`.
pub fn latest_tag(body: &str) -> (r: Option<String>)
    ensures
        match r {
            Some(v) => json_string(body@, "tag_name"@) matches Some(t) && v@ == without_v(t),
            None => json_string(body@, "tag_name"@) is None,
        },
{
    version_of_tag(&json_string_field(body, "tag_name"))
}

/// The text before the first `-` or `+`.
pub open spec fn release_part(s: Seq<char>) -> Seq<char> {
    split_on(split_on(s, '-')[0], '+')[0]
}

pub open spec fn number(s: Seq<char>) -> Option<nat> {
    parse_unsigned(s, 0x1_0000_0000_0000_0000)
}

/// The `k`-th number of a version; zero where it is missing.
pub open spec fn part(pieces: Seq<Seq<char>>, k: int) -> nat {
    if k < pieces.len() {
        number(pieces[k])->0
    } else {
        0
    }
}

/// The three numbers of a version; none where one that is there is no number.
pub open spec fn version(s: Seq<char>) -> Option<(nat, nat, nat)> {
    let pieces = split_on(release_part(without_v(s)), '.');
    if forall|k: int| 0 <= k < 3 && k < pieces.len() ==> number(#[trigger] pieces[k]) is Some {
        Some((part(pieces, 0), part(pieces, 1), part(pieces, 2)))
    } else {
        None
    }
}

/// The first version is above the second one.
pub open spec fn above(a: (nat, nat, nat), b: (nat, nat, nat)) -> bool {
    a.0 > b.0 || (a.0 == b.0 && (a.1 > b.1 || (a.1 == b.1 && a.2 > b.2)))
}

/// Both are versions, and the first is strictly newer.
pub open spec fn newer(remote: Seq<char>, local: Seq<char>) -> bool {
    match (version(remote), version(local)) {
        (Some(r), Some(l)) => above(r, l),
        _ => false,
    }
}

fn number_of(s: &str) -> (n: Option<u64>)
    ensures
        match n {
            Some(x) => number(s@) == Some(x as nat),
            None => number(s@) is None,
        },
{
    parse_below(s, 0x1_0000_0000_0000_0000)
}

fn number_at(pieces: &Vec<String>, k: usize) -> (n: Option<u64>)
    ensures
        match n {
            Some(x) => x == part(strs(pieces@), k as int) && (k < pieces@.len() ==> number(
                strs(pieces@)[k as int],
            ) is Some),
            None => k < pieces@.len() && number(strs(pieces@)[k as int]) is None,
        },
{
    if k < pieces.len() {
        assert(strs(pieces@)[k as int] == pieces@[k as int]@);
        number_of(pieces[k].as_str())
    } else {
        Some(0)
    }
}

fn first_piece(s: &str, sep: char) -> (r: String)
    ensures
        r@ == split_on(s@, sep)[0],
{
    let pieces: Vec<String> = split_text(s, sep);
    proof {
        crate::text::lemma_split_some(s@, sep);
        assert(strs(pieces@).len() == pieces@.len());
        assert(strs(pieces@)[0] == pieces@[0]@);
    }
    pieces[0].clone()
}

fn parts(s: &str) -> (r: Option<(u64, u64, u64)>)
    ensures
        match r {
            Some((a, b, c)) => version(s@) == Some((a as nat, b as nat, c as nat)),
            None => version(s@) is None,
        },
{
    let bare: String = strip_v(s);
    let release: String = first_piece(first_piece(bare.as_str(), '-').as_str(), '+');
    let pieces: Vec<String> = split_text(release.as_str(), '.');
    proof {
        crate::text::lemma_split_some(release@, '.');
        assert(strs(pieces@).len() == pieces@.len());
    }
    match (number_at(&pieces, 0), number_at(&pieces, 1), number_at(&pieces, 2)) {
        (Some(major), Some(minor), Some(patch)) => Some((major, minor, patch)),
        _ => None,
    }
}

/// Compares two versions number by number. Missing numbers count as zero;
/// where one that is there is no number, nothing is newer.
pub fn is_newer(remote: &str, local: &str) -> (b: bool)
    ensures
        b == newer(remote@, local@),
{
    match (parts(remote), parts(local)) {
        (Some(r), Some(l)) => r.0 > l.0 || (r.0 == l.0 && (r.1 > l.1 || (r.1 == l.1 && r.2
            > l.2))),
        _ => false,
    }
}

impl UpdateCheck {
    /// Nothing known yet.
    pub fn new() -> (u: UpdateCheck)
        ensures
            u.latest_version is None,
            !u.announced,
    {
        UpdateCheck { latest_version: None, announced: false }
    }

    /// Remembers a release that is strictly newer than the running version.
    pub fn found(&mut self, latest: String, current: &str)
        ensures
            final(self).announced == old(self).announced,
            final(self).latest_version == (if newer(latest@, current@) {
                Some(latest)
            } else {
                old(self).latest_version
            }),
    {
        if is_newer(latest.as_str(), current) {
            self.latest_version = Some(latest);
        }
    }

    /// The version to announce: once, when a newer one is known.
    pub fn take_pending_announcement(&mut self) -> (r: Option<String>)
        ensures
            final(self).latest_version == old(self).latest_version,
            if old(self).announced || old(self).latest_version is None {
                r is None && final(self).announced == old(self).announced
            } else {
                r == old(self).latest_version && final(self).announced
            },
    {
        if self.announced {
            return None;
        }
        match &self.latest_version {
            Some(v) => {
                let out: String = v.clone();
                self.announced = true;
                Some(out)
            },
            None => None,
        }
    }

    /// Where a release can be looked at.
    pub fn release_url(latest: &str) -> (s: String)
        ensures
            s@ == "https://github.com/"@ + REPO@ + "/releases/tag/v"@ + latest@,
    {
        let mut s: String = concat3("https://github.com/", REPO, "/releases/tag/v");
        s.append(latest);
        s
    }
}

/// Nothing is newer than itself, and of two versions at most one is the newer.
pub proof fn newer_is_strict(a: Seq<char>, b: Seq<char>)
    ensures
        !newer(a, a),
        newer(a, b) ==> !newer(b, a),
{
}

/// Newer than a newer version is newer.
pub proof fn newer_is_transitive(a: Seq<char>, b: Seq<char>, c: Seq<char>)
    requires
        newer(a, b),
        newer(b, c),
    ensures
        newer(a, c),
{
}

} // verus!
