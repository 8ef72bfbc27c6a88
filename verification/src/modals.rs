//! What takes the keys before anything else: the MIDI mapping flow, the yes/no
//! confirmation, the command palette, the command prompt, the resume prompt.
use crate::effects::{
    act_and_toast, add_toast, fx_view, no_effects, only_act, only_toast, Act, Effect, EffectV,
};
use crate::key::KeyCode;
use crate::midi_learn::Action;
use crate::mixer::{mixer_reset, reset_all_mixer_controls};
use crate::text::{
    char_count, chars_of, concat2, concat3, decimal, min_of, minus, pop_char, sat_sub, shortened,
    string_of, trim, trimmed,
};
use crate::track::Track;
use vstd::prelude::*;
use vstd::string::*;

verus! {

/// What asks for a confirmation before it is done.
#[derive(Debug, Clone, Copy, PartialEq, Eq, Structural)]
pub enum ConfirmAction {
    ResetAllMixerControls,
    ClearQueue,
}

/// What a key says to a pending confirmation.
#[derive(Debug, Clone, Copy, PartialEq, Eq, Structural)]
pub enum ConfirmDecision {
    Commit,
    Cancel,
    Ignore,
}

pub open spec fn confirm_decision(code: KeyCode) -> ConfirmDecision {
    match code {
        KeyCode::Char(c) => if c == 'y' || c == 'Y' {
            ConfirmDecision::Commit
        } else if c == 'n' || c == 'N' {
            ConfirmDecision::Cancel
        } else {
            ConfirmDecision::Ignore
        },
        KeyCode::Esc => ConfirmDecision::Cancel,
        _ => ConfirmDecision::Ignore,
    }
}

pub fn route_confirm_key(code: KeyCode) -> (d: ConfirmDecision)
    ensures
        d == confirm_decision(code),
{
    match code {
        KeyCode::Char(c) => if c == 'y' || c == 'Y' {
            ConfirmDecision::Commit
        } else if c == 'n' || c == 'N' {
            ConfirmDecision::Cancel
        } else {
            ConfirmDecision::Ignore
        },
        KeyCode::Esc => ConfirmDecision::Cancel,
        _ => ConfirmDecision::Ignore,
    }
}

/// Only `y` and `Y` commit, only `n`, `N` and Esc cancel.
pub proof fn confirmation_needs_a_clear_answer(code: KeyCode)
    ensures
        confirm_decision(code) == ConfirmDecision::Commit <==> code == KeyCode::Char('y') || code
            == KeyCode::Char('Y'),
        confirm_decision(code) == ConfirmDecision::Cancel <==> code == KeyCode::Char('n') || code
            == KeyCode::Char('N') || code == KeyCode::Esc,
{
}

/// What a key does to a pending confirmation: what is pending after it, and what
/// is done.
pub open spec fn confirm_step(action: ConfirmAction, code: KeyCode) -> (
    Option<ConfirmAction>,
    Seq<EffectV>,
) {
    match confirm_decision(code) {
        ConfirmDecision::Commit => (
            None,
            match action {
                ConfirmAction::ResetAllMixerControls => mixer_reset(),
                ConfirmAction::ClearQueue => seq![
                    EffectV::Do(Act::ClearQueue),
                    EffectV::Toast("Queue cleared"@, 1000),
                ],
            },
        ),
        ConfirmDecision::Cancel => (None, seq![EffectV::Toast("Cancelled"@, 600)]),
        ConfirmDecision::Ignore => (Some(action), Seq::empty()),
    }
}

pub fn confirm_key(action: ConfirmAction, code: KeyCode) -> (r: (Option<ConfirmAction>, Vec<Effect>))
    ensures
        (r.0, fx_view(r.1@)) == confirm_step(action, code),
{
    match route_confirm_key(code) {
        ConfirmDecision::Commit => match action {
            ConfirmAction::ResetAllMixerControls => (None, reset_all_mixer_controls()),
            ConfirmAction::ClearQueue => (
                None,
                act_and_toast(Act::ClearQueue, "Queue cleared", 1000),
            ),
        },
        ConfirmDecision::Cancel => (None, only_toast("Cancelled", 600)),
        ConfirmDecision::Ignore => (Some(action), no_effects()),
    }
}

/// A MIDI mapping in the making: the control on the screen, and the controller
/// event that was caught for it.
pub struct PendingMidiMap {
    pub action: Action,
    pub action_label: String,
    /// The caught event, by its label.
    pub captured: Option<String>,
}

#[verifier::ext_equal]
pub struct MidiMapV {
    pub action: Action,
    pub action_label: Seq<char>,
    pub captured: Option<Seq<char>>,
}

impl View for PendingMidiMap {
    type V = MidiMapV;

    open spec fn view(&self) -> MidiMapV {
        MidiMapV {
            action: self.action,
            action_label: self.action_label@,
            captured: crate::boxes::opt_str(self.captured),
        }
    }
}

pub open spec fn midi_map_view(m: Option<PendingMidiMap>) -> Option<MidiMapV> {
    match m {
        Some(p) => Some(p@),
        None => None,
    }
}

/// What a key does to a mapping in the making: it is saved once an event was
/// caught, dropped at any time, and every other key is swallowed.
pub open spec fn midi_map_step(m: MidiMapV, code: KeyCode) -> (Option<MidiMapV>, Seq<EffectV>) {
    if code == KeyCode::Char('y') || code == KeyCode::Char('Y') || code == KeyCode::Enter {
        if m.captured is Some {
            (None, seq![EffectV::Do(Act::BindCaptured(m.action))])
        } else {
            (Some(m), seq![EffectV::Toast("Move a controller first, then press Y"@, 1500)])
        }
    } else if code == KeyCode::Esc || code == KeyCode::Char('n') || code == KeyCode::Char('N') {
        (None, seq![EffectV::Toast("Mapping cancelled"@, 600)])
    } else {
        (Some(m), Seq::empty())
    }
}

pub fn midi_map_key(m: PendingMidiMap, code: KeyCode) -> (r: (Option<PendingMidiMap>, Vec<Effect>))
    ensures
        (midi_map_view(r.0), fx_view(r.1@)) == midi_map_step(m@, code),
{
    let yes: bool = code == KeyCode::Char('y') || code == KeyCode::Char('Y') || code
        == KeyCode::Enter;
    let no: bool = code == KeyCode::Esc || code == KeyCode::Char('n') || code == KeyCode::Char('N');
    if yes {
        if m.captured.is_some() {
            (None, only_act(Act::BindCaptured(m.action)))
        } else {
            (Some(m), only_toast("Move a controller first, then press Y", 1500))
        }
    } else if no {
        (None, only_toast("Mapping cancelled", 600))
    } else {
        (Some(m), no_effects())
    }
}

/// What is said of a mapping that was saved, or could not be.
pub open spec fn bind_message(event: Seq<char>, action: Seq<char>, error: Option<Seq<char>>) -> EffectV {
    match error {
        Some(e) => EffectV::Toast("Save failed: "@ + e, 3000),
        None => EffectV::Toast("Bound: "@ + event + " → "@ + action, 2000),
    }
}

pub fn bind_toast(event: &str, action: &str, error: &Option<String>) -> (e: Effect)
    ensures
        e@ == bind_message(event@, action@, crate::boxes::opt_str(*error)),
{
    match error {
        Some(m) => Effect::Toast(concat2("Save failed: ", m.as_str()), 3000),
        None => {
            let head: String = concat3("Bound: ", event, " → ");
            Effect::Toast(concat2(head.as_str(), action), 2000)
        },
    }
}

/// The command palette: the filter with its cursor, and the row picked.
pub struct Palette {
    pub filter: String,
    pub cursor: usize,
    pub selected: usize,
}

#[verifier::ext_equal]
pub struct PaletteV {
    pub filter: Seq<char>,
    pub cursor: usize,
    pub selected: usize,
}

impl View for Palette {
    type V = PaletteV;

    open spec fn view(&self) -> PaletteV {
        PaletteV { filter: self.filter@, cursor: self.cursor, selected: self.selected }
    }
}

impl PaletteV {
    /// The cursor stands in the filter.
    pub open spec fn wf(self) -> bool {
        self.cursor <= self.filter.len()
    }

    pub open spec fn typed(self, c: char) -> PaletteV {
        PaletteV {
            filter: self.filter.insert(self.cursor as int, c),
            cursor: (self.cursor + 1) as usize,
            selected: 0,
        }
    }

    pub open spec fn erased(self) -> PaletteV {
        if self.cursor == 0 {
            self
        } else {
            PaletteV {
                filter: self.filter.remove(self.cursor - 1),
                cursor: (self.cursor - 1) as usize,
                selected: self.selected,
            }
        }
    }

    pub open spec fn moved(self, down: bool, visible: nat) -> PaletteV {
        PaletteV {
            selected: if down {
                min_of(self.selected + 1, minus(visible as int, 1) as int) as usize
            } else {
                minus(self.selected as int, 1) as usize
            },
            ..self
        }
    }

    /// The row picked is one of those shown.
    pub open spec fn clamped(self, visible: nat) -> PaletteV {
        PaletteV {
            selected: if visible == 0 {
                0
            } else if self.selected >= visible {
                (visible - 1) as usize
            } else {
                self.selected
            },
            ..self
        }
    }
}

/// Typing a character and erasing it leaves the filter as it was.
pub proof fn erase_undoes_typing(p: PaletteV, c: char)
    requires
        p.wf(),
        p.cursor < usize::MAX,
    ensures
        p.typed(c).erased().filter == p.filter,
        p.typed(c).erased().cursor == p.cursor,
{
    assert(p.typed(c).erased().filter =~= p.filter);
}

impl Palette {
    /// Types a character at the cursor; the pick goes back to the top.
    pub fn type_char(&mut self, c: char)
        requires
            old(self)@.wf(),
            old(self).cursor < usize::MAX,
        ensures
            final(self)@ == old(self)@.typed(c),
            final(self)@.wf(),
    {
        let v: Vec<char> = chars_of(self.filter.as_str());
        let mut s: String = string_of(&v, 0, self.cursor);
        s.push(c);
        let tail: String = string_of(&v, self.cursor, v.len());
        self.filter = concat2(s.as_str(), tail.as_str());
        assert(self.filter@ =~= old(self).filter@.insert(self.cursor as int, c));
        self.cursor = self.cursor + 1;
        self.selected = 0;
    }

    /// Erases the character before the cursor.
    pub fn erase(&mut self)
        requires
            old(self)@.wf(),
        ensures
            final(self)@ == old(self)@.erased(),
            final(self)@.wf(),
    {
        if self.cursor > 0 {
            let v: Vec<char> = chars_of(self.filter.as_str());
            let head: String = string_of(&v, 0, self.cursor - 1);
            let tail: String = string_of(&v, self.cursor, v.len());
            self.filter = concat2(head.as_str(), tail.as_str());
            assert(self.filter@ =~= old(self).filter@.remove(self.cursor - 1));
            self.cursor = self.cursor - 1;
        }
    }

    /// Moves the pick among the rows shown.
    pub fn move_pick(&mut self, down: bool, visible: usize)
        requires
            old(self).selected < usize::MAX,
        ensures
            final(self)@ == old(self)@.moved(down, visible as nat),
    {
        if down {
            let last: usize = sat_sub(visible, 1);
            self.selected = if self.selected + 1 < last {
                self.selected + 1
            } else {
                last
            };
        } else {
            self.selected = sat_sub(self.selected, 1);
        }
    }

    /// Brings the pick back to the rows shown.
    pub fn clamp(&mut self, visible: usize)
        ensures
            final(self)@ == old(self)@.clamped(visible as nat),
    {
        if visible == 0 {
            self.selected = 0;
        } else if self.selected >= visible {
            self.selected = visible - 1;
        }
    }
}

/// What a key does to the command prompt: what is typed after it, and the line
/// to submit.
pub open spec fn prompt_step(buf: Seq<char>, code: KeyCode) -> (Option<Seq<char>>, Option<Seq<char>>) {
    match code {
        KeyCode::Esc => (None, None),
        KeyCode::Enter => (
            None,
            if trim(buf).len() > 0 {
                Some(trim(buf))
            } else {
                None
            },
        ),
        KeyCode::Backspace => (Some(shortened(buf)), None),
        KeyCode::Char(c) => (Some(buf.push(c)), None),
        _ => (Some(buf), None),
    }
}

pub fn prompt_key(buf: String, code: KeyCode) -> (r: (Option<String>, Option<String>))
    ensures
        (crate::boxes::opt_str(r.0), crate::boxes::opt_str(r.1)) == prompt_step(buf@, code),
{
    let mut buf: String = buf;
    match code {
        KeyCode::Esc => (None, None),
        KeyCode::Enter => {
            let line: String = trimmed(buf.as_str());
            if char_count(line.as_str()) > 0 {
                (None, Some(line))
            } else {
                (None, None)
            }
        },
        KeyCode::Backspace => {
            pop_char(&mut buf);
            (Some(buf), None)
        },
        KeyCode::Char(c) => {
            buf.push(c);
            (Some(buf), None)
        },
        _ => (Some(buf), None),
    }
}

/// A track with the place it was played at, in milliseconds.
pub struct SavedTrack {
    pub track: Track,
    pub position_ms: u64,
}

/// A session that was saved.
pub struct SessionSnapshot {
    pub playing: Option<SavedTrack>,
    pub incoming: Option<SavedTrack>,
    pub queue: Vec<Track>,
    pub saved_at: String,
}

/// How many tracks a saved session holds.
pub open spec fn session_size(s: SessionSnapshot) -> nat {
    s.queue@.len() + (if s.playing is Some {
        1nat
    } else {
        0nat
    }) + (if s.incoming is Some {
        1nat
    } else {
        0nat
    })
}

/// The question at the start.
pub open spec fn resume_question(s: SessionSnapshot) -> Seq<char> {
    "Resume last session ("@ + decimal(session_size(s)) + " tracks, "@ + s.saved_at@
        + ")? [Y]es / [N]o"@
}

fn session_size_of(s: &SessionSnapshot) -> (n: u128)
    ensures
        n == session_size(*s),
{
    let mut n: u128 = s.queue.len() as u128;
    if s.playing.is_some() {
        n = n + 1;
    }
    if s.incoming.is_some() {
        n = n + 1;
    }
    n
}

/// The question at the start, shown for ten minutes.
pub fn resume_toast(s: &SessionSnapshot) -> (e: Effect)
    ensures
        e@ == EffectV::Toast(resume_question(*s), 600_000),
{
    let n: String = crate::text::wide_decimal_str(session_size_of(s));
    let a: String = concat3("Resume last session (", n.as_str(), " tracks, ");
    let text: String = concat3(a.as_str(), s.saved_at.as_str(), ")? [Y]es / [N]o");
    Effect::Toast(text, 600_000)
}

/// The tracks of a saved session in the order they are queued: what played, what
/// was coming, then the queue.
pub open spec fn resume_order(s: SessionSnapshot) -> Seq<Track> {
    (match s.playing {
        Some(p) => seq![p.track],
        None => Seq::empty(),
    }) + (match s.incoming {
        Some(p) => seq![p.track],
        None => Seq::empty(),
    }) + s.queue@
}

/// Where the tracks that were on a deck go on, by their id.
pub open spec fn resume_positions(s: SessionSnapshot) -> Seq<(i64, u64)> {
    (match s.playing {
        Some(p) => seq![(p.track.id, p.position_ms)],
        None => Seq::empty(),
    }) + (match s.incoming {
        Some(p) => seq![(p.track.id, p.position_ms)],
        None => Seq::empty(),
    })
}

/// What taking up a saved session does.
pub struct ResumePlan {
    pub tracks: Vec<Track>,
    pub positions: Vec<(i64, u64)>,
    pub toast: Vec<Effect>,
}

/// Takes up a saved session.
pub fn apply_resume(s: SessionSnapshot) -> (p: ResumePlan)
    ensures
        p.tracks@ == resume_order(s),
        p.positions@ == resume_positions(s),
        fx_view(p.toast@) == (if session_size(s) > 0 {
            seq![EffectV::Toast("Resumed: "@ + decimal(session_size(s)) + " tracks"@, 2500)]
        } else {
            Seq::empty()
        }),
{
    let n: u128 = session_size_of(&s);
    let mut toast: Vec<Effect> = no_effects();
    if n > 0 {
        let text: String = concat3(
            "Resumed: ",
            crate::text::wide_decimal_str(n).as_str(),
            " tracks",
        );
        add_toast(&mut toast, text.as_str(), 2500);
        assert(fx_view(toast@) =~= seq![
            EffectV::Toast("Resumed: "@ + decimal(session_size(s)) + " tracks"@, 2500),
        ]);
    }
    let ghost whole = s;
    let mut tracks: Vec<Track> = Vec::new();
    let mut positions: Vec<(i64, u64)> = Vec::new();
    let SessionSnapshot { playing, incoming, queue, saved_at } = s;
    if let Some(p) = playing {
        positions.push((p.track.id, p.position_ms));
        tracks.push(p.track);
    }
    if let Some(p) = incoming {
        positions.push((p.track.id, p.position_ms));
        tracks.push(p.track);
    }
    let mut queue: Vec<Track> = queue;
    tracks.append(&mut queue);
    assert(tracks@ =~= resume_order(whole));
    assert(positions@ =~= resume_positions(whole));
    ResumePlan { tracks, positions, toast }
}

/// A saved session is taken up whole and in order: as many tracks are queued as
/// it holds, and each one that was on a deck goes on where it was.
pub proof fn resume_keeps_the_session(s: SessionSnapshot)
    ensures
        resume_order(s).len() == session_size(s),
        s.playing is Some ==> resume_order(s)[0] == s.playing->0.track && resume_positions(s)[0] == (
            s.playing->0.track.id,
            s.playing->0.position_ms,
        ),
        forall|i: int|
            0 <= i < s.queue@.len() ==> resume_order(s)[resume_order(s).len() - s.queue@.len() + i]
                == #[trigger] s.queue@[i],
{
}

/// Where a track starts that a session resumes: where it was, unless that is
/// within half a minute of its end; then at its first beat. All in milliseconds.
pub open spec fn resume_start(saved: int, total: int, first_beat: int) -> int {
    if saved > minus(total, 30_000) {
        first_beat
    } else {
        saved
    }
}

pub fn resume_start_ms(saved: u64, total: u64, first_beat: u64) -> (t: u64)
    ensures
        t == resume_start(saved as int, total as int, first_beat as int),
{
    let safe: u64 = if total > 30_000 {
        total - 30_000
    } else {
        0
    };
    if saved > safe {
        first_beat
    } else {
        saved
    }
}

/// What a key says to the question at the start.
#[derive(Debug, Clone, Copy, PartialEq, Eq, Structural)]
pub enum ResumeAnswer {
    Apply,
    Discard,
    NotAnswered,
}

pub open spec fn resume_answer(code: KeyCode) -> ResumeAnswer {
    match confirm_decision(code) {
        ConfirmDecision::Commit => ResumeAnswer::Apply,
        ConfirmDecision::Cancel => ResumeAnswer::Discard,
        ConfirmDecision::Ignore => ResumeAnswer::NotAnswered,
    }
}

pub fn resume_key(code: KeyCode) -> (a: ResumeAnswer)
    ensures
        a == resume_answer(code),
{
    match route_confirm_key(code) {
        ConfirmDecision::Commit => ResumeAnswer::Apply,
        ConfirmDecision::Cancel => ResumeAnswer::Discard,
        ConfirmDecision::Ignore => ResumeAnswer::NotAnswered,
    }
}

} // verus!
