//! Ratings of the mixes that were played.
use crate::boxes::opt_str;
use crate::clock::utc_seconds;
use crate::deck::{HistoryEntry, NowPlaying};
use crate::effects::{
    act_and_toast, add_act, add_toast, fx_view, no_effects, only_act, only_toast, Act, Effect,
    EffectV,
};
use crate::text::{concat3, owned};
use crate::track::{track_name, Track};
use vstd::prelude::*;
use vstd::string::*;

verus! {

/// A mix from one track into the next.
pub struct MixEntry {
    pub pair: String,
    /// The tempos, in thousandths of a beat per minute.
    pub bpm: Option<(u32, u32)>,
    pub key: Option<String>,
    pub transition: Option<String>,
    pub note: Option<String>,
    pub rated_at: Option<i64>,
}

#[verifier::ext_equal]
pub struct MixEntryV {
    pub pair: Seq<char>,
    pub bpm: Option<(u32, u32)>,
    pub key: Option<Seq<char>>,
    pub transition: Option<Seq<char>>,
    pub note: Option<Seq<char>>,
    pub rated_at: Option<i64>,
}

impl View for MixEntry {
    type V = MixEntryV;

    open spec fn view(&self) -> MixEntryV {
        MixEntryV {
            pair: self.pair@,
            bpm: self.bpm,
            key: opt_str(self.key),
            transition: opt_str(self.transition),
            note: opt_str(self.note),
            rated_at: self.rated_at,
        }
    }
}

/// A mix of the history, whether it was rated, and when. The time finds the
/// rating again when it is taken back.
pub struct HistoryMix {
    pub entry: MixEntry,
    pub rated: Option<bool>,
    pub rated_at: Option<i64>,
}

/// Whether the DJ takes ratings.
#[derive(Debug, Clone, Copy, PartialEq, Eq, Structural)]
pub enum DjMemory {
    Absent,
    /// At work on a call.
    Busy,
    Ready,
}

pub open spec fn rated_message(good: bool) -> Seq<char> {
    if good {
        "Mix rated: 👍 saved to DJ memory"@
    } else {
        "Mix rated: 👎 saved to DJ memory"@
    }
}

fn rated_text(good: bool) -> (s: &'static str)
    ensures
        s@ == rated_message(good),
{
    if good {
        "Mix rated: 👍 saved to DJ memory"
    } else {
        "Mix rated: 👎 saved to DJ memory"
    }
}

pub open spec fn taken_back_message(good: bool) -> Seq<char> {
    if good {
        "Removed 👍 — entry unrated"@
    } else {
        "Removed 👎 — entry unrated"@
    }
}

pub open spec fn flipped_message(good: bool) -> Seq<char> {
    if good {
        "Mix re-rated: 👎 → 👍"@
    } else {
        "Mix re-rated: 👍 → 👎"@
    }
}

/// Taking back the rating that was saved at a time.
pub open spec fn unrate_effects(at: Option<i64>, good: bool) -> Seq<EffectV> {
    match at {
        Some(t) => seq![EffectV::Do(Act::Unrate { at: t, good })],
        None => Seq::empty(),
    }
}

/// A rating of a mix at a time: the same one again takes it back, the other one
/// replaces it.
pub open spec fn rating_step(
    rated: Option<bool>,
    rated_at: Option<i64>,
    index: usize,
    good: bool,
    now: i64,
) -> (Option<bool>, Option<i64>, Seq<EffectV>) {
    match rated {
        Some(prev) => if prev == good {
            (
                None,
                None,
                unrate_effects(rated_at, prev) + seq![
                    EffectV::Toast(taken_back_message(good), 1500),
                ],
            )
        } else {
            (
                Some(good),
                Some(now),
                unrate_effects(rated_at, prev) + seq![
                    EffectV::Do(Act::Rate { index, good, at: now }),
                    EffectV::Toast(flipped_message(good), 1500),
                ],
            )
        },
        None => (
            Some(good),
            Some(now),
            seq![
                EffectV::Do(Act::Rate { index, good, at: now }),
                EffectV::Toast(rated_message(good), 1500),
            ],
        ),
    }
}

/// Rating twice the same way leaves the mix unrated, and takes back exactly the
/// rating that was saved.
pub proof fn same_rating_twice_is_undone(index: usize, good: bool, now: i64, later: i64)
    ensures
        ({
            let (rated, at, saved) = rating_step(None, None, index, good, now);
            let (rated2, at2, undone) = rating_step(rated, at, index, good, later);
            &&& rated2 is None
            &&& at2 is None
            &&& saved[0] == EffectV::Do(Act::Rate { index, good, at: now })
            &&& undone[0] == EffectV::Do(Act::Unrate { at: now, good })
        }),
{
}

/// Changing a rating takes the old one back before it saves the new one.
pub proof fn flipping_leaves_one_rating(index: usize, good: bool, at: i64, now: i64)
    ensures
        ({
            let (rated, stamp, fx) = rating_step(Some(!good), Some(at), index, good, now);
            &&& rated == Some(good)
            &&& stamp == Some(now)
            &&& fx[0] == EffectV::Do(Act::Unrate { at, good: !good })
            &&& fx[1] == EffectV::Do(Act::Rate { index, good, at: now })
        }),
{
}

fn unrate(at: Option<i64>, good: bool) -> (fx: Vec<Effect>)
    ensures
        fx_view(fx@) == unrate_effects(at, good),
{
    match at {
        Some(t) => only_act(Act::Unrate { at: t, good }),
        None => no_effects(),
    }
}

fn rate_mix(m: HistoryMix, index: usize, good: bool, now: i64) -> (r: (HistoryMix, Vec<Effect>))
    ensures
        r.0.entry == m.entry,
        (r.0.rated, r.0.rated_at, fx_view(r.1@)) == rating_step(
            m.rated,
            m.rated_at,
            index,
            good,
            now,
        ),
{
    match m.rated {
        Some(prev) => {
            let mut fx: Vec<Effect> = unrate(m.rated_at, prev);
            let ghost first = fx_view(fx@);
            if prev == good {
                let text: &str = if good {
                    "Removed 👍 — entry unrated"
                } else {
                    "Removed 👎 — entry unrated"
                };
                add_toast(&mut fx, text, 1500);
                assert(fx_view(fx@) =~= first + seq![
                    EffectV::Toast(taken_back_message(good), 1500),
                ]);
                (HistoryMix { entry: m.entry, rated: None, rated_at: None }, fx)
            } else {
                let text: &str = if good {
                    "Mix re-rated: 👎 → 👍"
                } else {
                    "Mix re-rated: 👍 → 👎"
                };
                add_act(&mut fx, Act::Rate { index, good, at: now });
                add_toast(&mut fx, text, 1500);
                assert(fx_view(fx@) =~= first + seq![
                    EffectV::Do(Act::Rate { index, good, at: now }),
                    EffectV::Toast(flipped_message(good), 1500),
                ]);
                (HistoryMix { entry: m.entry, rated: Some(good), rated_at: Some(now) }, fx)
            }
        },
        None => (
            HistoryMix { entry: m.entry, rated: Some(good), rated_at: Some(now) },
            act_and_toast(Act::Rate { index, good, at: now }, rated_text(good), 1500),
        ),
    }
}

/// Rating an entry of the history at a time: what becomes of the ratings, and
/// what is done.
pub open spec fn rate_step(
    mixes: Seq<Option<HistoryMix>>,
    index: usize,
    good: bool,
    dj: DjMemory,
    now: i64,
) -> (Seq<Option<HistoryMix>>, Seq<EffectV>) {
    if index >= mixes.len() {
        (mixes, seq![EffectV::Toast("No mix data for this entry"@, 1500)])
    } else {
        match mixes[index as int] {
            None => (mixes, seq![EffectV::Toast("Opening track — no mix to rate"@, 1500)]),
            Some(m) => match dj {
                DjMemory::Absent => (
                    mixes,
                    seq![EffectV::Toast("AI DJ not initialized"@, 1500)],
                ),
                DjMemory::Busy => (mixes, Seq::empty()),
                DjMemory::Ready => {
                    let (rated, rated_at, fx) = rating_step(m.rated, m.rated_at, index, good, now);
                    (
                        mixes.update(
                            index as int,
                            Some(HistoryMix { entry: m.entry, rated, rated_at }),
                        ),
                        fx,
                    )
                },
            },
        }
    }
}

/// Rates an entry of the history at a time.
pub fn rate_entry_at(
    mixes: &mut Vec<Option<HistoryMix>>,
    index: usize,
    good: bool,
    dj: DjMemory,
    now: i64,
) -> (fx: Vec<Effect>)
    ensures
        (final(mixes)@, fx_view(fx@)) == rate_step(old(mixes)@, index, good, dj, now),
{
    if index >= mixes.len() {
        return only_toast("No mix data for this entry", 1500);
    }
    if mixes[index].is_none() {
        return only_toast("Opening track — no mix to rate", 1500);
    }
    match dj {
        DjMemory::Absent => only_toast("AI DJ not initialized", 1500),
        DjMemory::Busy => no_effects(),
        DjMemory::Ready => {
            let mut slot: Option<HistoryMix> = None;
            std::mem::swap(&mut slot, &mut mixes[index]);
            match slot {
                Some(m) => {
                    let (next, fx): (HistoryMix, Vec<Effect>) = rate_mix(m, index, good, now);
                    mixes.set(index, Some(next));
                    assert(mixes@ =~= rate_step(old(mixes)@, index, good, dj, now).0);
                    fx
                },
                None => no_effects(),
            }
        },
    }
}

/// Rates an entry of the history now.
pub fn rate_history_entry(
    mixes: &mut Vec<Option<HistoryMix>>,
    index: usize,
    good: bool,
    dj: DjMemory,
) -> (fx: Vec<Effect>)
    ensures
        exists|now: i64|
            (final(mixes)@, fx_view(fx@)) == #[trigger] rate_step(
                old(mixes)@,
                index,
                good,
                dj,
                now,
            ),
{
    let now: i64 = utc_seconds();
    rate_entry_at(mixes, index, good, dj, now)
}

/// Rating the last mix at a time.
pub open spec fn rate_last_effects(mixed: bool, good: bool, dj: DjMemory, now: i64) -> Seq<EffectV> {
    if !mixed {
        seq![EffectV::Toast("No recent mix to rate"@, 1500)]
    } else {
        match dj {
            DjMemory::Absent => seq![EffectV::Toast("AI DJ not initialized"@, 1500)],
            DjMemory::Busy => Seq::empty(),
            DjMemory::Ready => seq![
                EffectV::Do(Act::RateLast { good, at: now }),
                EffectV::Toast(rated_message(good), 1500),
            ],
        }
    }
}

/// Rates the last mix at a time, where there was one.
pub fn rate_last_at(mixed: bool, good: bool, dj: DjMemory, now: i64) -> (fx: Vec<Effect>)
    ensures
        fx_view(fx@) == rate_last_effects(mixed, good, dj, now),
{
    if !mixed {
        return only_toast("No recent mix to rate", 1500);
    }
    match dj {
        DjMemory::Absent => only_toast("AI DJ not initialized", 1500),
        DjMemory::Busy => no_effects(),
        DjMemory::Ready => act_and_toast(
            Act::RateLast { good, at: now },
            rated_text(good),
            1500,
        ),
    }
}

/// Rates the last mix now.
pub fn rate_last(mixed: bool, good: bool, dj: DjMemory) -> (fx: Vec<Effect>)
    ensures
        exists|now: i64| fx_view(fx@) == #[trigger] rate_last_effects(mixed, good, dj, now),
{
    let now: i64 = utc_seconds();
    rate_last_at(mixed, good, dj, now)
}

/// A mix that was finished: from a track, at a tempo, into what plays now.
pub open spec fn finished_mix(out: Track, bpm: u32, now: NowPlaying) -> MixEntryV {
    MixEntryV {
        pair: track_name(out) + " → "@ + (match now.playing_track {
            Some(t) => track_name(t),
            None => "?"@,
        }),
        bpm: Some(
            (
                bpm,
                match now.playing_bpm {
                    Some(b) => b,
                    None => 0,
                },
            ),
        ),
        key: match now.playing_track {
            Some(t) => match (out.key, t.key) {
                (Some(a), Some(b)) => Some(a@ + "→"@ + b@),
                _ => None,
            },
            None => None,
        },
        transition: Some(now.transition_type_name@),
        note: None,
        rated_at: None,
    }
}

pub fn mix_entry(out: &Track, bpm: u32, now: &NowPlaying) -> (e: MixEntry)
    ensures
        e@ == finished_mix(*out, bpm, *now),
{
    let from: String = out.name();
    let into: String = match &now.playing_track {
        Some(t) => t.name(),
        None => owned("?"),
    };
    let key: Option<String> = match &now.playing_track {
        Some(t) => match (&out.key, &t.key) {
            (Some(a), Some(b)) => Some(concat3(a.as_str(), "→", b.as_str())),
            _ => None,
        },
        None => None,
    };
    let second: u32 = match now.playing_bpm {
        Some(b) => b,
        None => 0,
    };
    let e: MixEntry = MixEntry {
        pair: concat3(from.as_str(), " → ", into.as_str()),
        bpm: Some((bpm, second)),
        key,
        transition: Some(owned(now.transition_type_name.as_str())),
        note: None,
        rated_at: None,
    };
    assert(e@ =~= finished_mix(*out, bpm, *now));
    e
}

/// The mixes caught up with the history: an entry that was mixed into takes the
/// oldest mix that waits, an opening track has none.
pub open spec fn synced(
    mixes: Seq<Option<HistoryMix>>,
    waiting: Seq<MixEntry>,
    history: Seq<HistoryEntry>,
) -> (Seq<Option<HistoryMix>>, Seq<MixEntry>)
    decreases history.len() - mixes.len(),
{
    if mixes.len() >= history.len() {
        (mixes, waiting)
    } else if history[mixes.len() as int].mix_score is Some && waiting.len() > 0 {
        synced(
            mixes.push(Some(HistoryMix { entry: waiting[0], rated: None, rated_at: None })),
            waiting.skip(1),
            history,
        )
    } else {
        synced(mixes.push(None), waiting, history)
    }
}

/// The mixes catch up with the history, and those that were rated stay as they
/// are.
pub proof fn sync_keeps_ratings(
    mixes: Seq<Option<HistoryMix>>,
    waiting: Seq<MixEntry>,
    history: Seq<HistoryEntry>,
)
    ensures
        synced(mixes, waiting, history).0.len() >= history.len(),
        mixes.len() <= synced(mixes, waiting, history).0.len(),
        forall|i: int|
            0 <= i < mixes.len() ==> #[trigger] synced(mixes, waiting, history).0[i] == mixes[i],
    decreases history.len() - mixes.len(),
{
    if mixes.len() < history.len() {
        if history[mixes.len() as int].mix_score is Some && waiting.len() > 0 {
            let more = mixes.push(
                Some(HistoryMix { entry: waiting[0], rated: None, rated_at: None }),
            );
            sync_keeps_ratings(more, waiting.skip(1), history);
            assert forall|i: int| 0 <= i < mixes.len() implies #[trigger] synced(
                mixes,
                waiting,
                history,
            ).0[i] == mixes[i] by {
                assert(synced(more, waiting.skip(1), history).0[i] == more[i]);
            }
        } else {
            let more = mixes.push(None);
            sync_keeps_ratings(more, waiting, history);
            assert forall|i: int| 0 <= i < mixes.len() implies #[trigger] synced(
                mixes,
                waiting,
                history,
            ).0[i] == mixes[i] by {
                assert(synced(more, waiting, history).0[i] == more[i]);
            }
        }
    }
}

/// Catches the mixes up with the history.
pub fn sync_mixes(
    mixes: &mut Vec<Option<HistoryMix>>,
    waiting: &mut Vec<MixEntry>,
    history: &Vec<HistoryEntry>,
)
    ensures
        (final(mixes)@, final(waiting)@) == synced(old(mixes)@, old(waiting)@, history@),
{
    while mixes.len() < history.len()
        invariant
            synced(old(mixes)@, old(waiting)@, history@) == synced(mixes@, waiting@, history@),
        decreases history.len() - mixes.len(),
    {
        let at: usize = mixes.len();
        let ghost before = waiting@;
        if history[at].mix_score.is_some() && waiting.len() > 0 {
            let entry: MixEntry = waiting.remove(0);
            assert(waiting@ =~= before.skip(1));
            mixes.push(Some(HistoryMix { entry, rated: None, rated_at: None }));
        } else {
            mixes.push(None);
        }
    }
}

} // verus!
