//! Clickable places on the screen and what a click on them does.
use crate::controls::CtrlSection;
use crate::key::KeyCode;
use crate::midi_learn::Action;
use vstd::prelude::*;

verus! {

/// Which vertical strip a drag adjusts; the top row is the largest value.
#[derive(Debug, Clone, Copy, PartialEq, Eq, Structural)]
pub enum RangeControl {
    /// Playback rate.
    TempoA,
    TempoB,
    /// Channel fader.
    VolumeA,
    VolumeB,
}

#[derive(Debug, Clone, Copy, PartialEq, Eq, Structural)]
pub enum ClickAction {
    /// Set the crossfader from where in `x_min..x_max` the click was.
    SetCrossfaderRange { x_min: u16, x_max: u16 },
    /// Press a key.
    SimulateKey(KeyCode),
    /// Move the list cursor to a row.
    SetSelected(usize),
    /// Focus a control of the dashboard.
    FocusDashSection(CtrlSection),
    /// Select a row of the dashboard's mini-browser; a second click on it
    /// drills in.
    DashBrowseSelect(usize),
    /// Zoom the waveform of a deck, or close the zoom.
    WaveformZoom(bool),
    /// Cycle the number of bars a jump takes.
    CycleJumpBars,
    /// Loop so many beats on a deck.
    LoopEngageDeck { is_a: bool, beats: u32 },
    /// Release the loop of a deck.
    LoopOffDeck { is_a: bool },
    /// Set a vertical strip from where in `y_min..y_max` the click was.
    SetVerticalRange { control: RangeControl, y_min: u16, y_max: u16 },
}

/// A rectangle with an action to fire on a click.
#[derive(Debug, Clone, Copy)]
pub struct ClickTarget {
    pub x: u16,
    pub y: u16,
    pub w: u16,
    pub h: u16,
    pub action: ClickAction,
    /// Stable name for lookup by scripts.
    pub label: Option<&'static str>,
    /// The MIDI action that a right-click binds a controller to.
    pub midi_action: Option<Action>,
}

impl ClickTarget {
    /// Left and top edges belong to the target, right and bottom ones do not.
    pub open spec fn covers(self, col: int, row: int) -> bool {
        self.x <= col < self.x + self.w && self.y <= row < self.y + self.h
    }

    pub open spec fn spec_new(x: u16, y: u16, w: u16, h: u16, action: ClickAction) -> ClickTarget {
        ClickTarget { x, y, w, h, action, label: None, midi_action: None }
    }

    #[verifier::when_used_as_spec(spec_new)]
    pub fn new(x: u16, y: u16, w: u16, h: u16, action: ClickAction) -> (t: ClickTarget)
        ensures
            t == ClickTarget::spec_new(x, y, w, h, action),
    {
        ClickTarget { x, y, w, h, action, label: None, midi_action: None }
    }

    pub open spec fn spec_labeled(self, label: &'static str) -> ClickTarget {
        ClickTarget { label: Some(label), ..self }
    }

    /// Attaches a stable lookup name.
    #[verifier::when_used_as_spec(spec_labeled)]
    pub fn labeled(self, label: &'static str) -> (t: ClickTarget)
        ensures
            t == self.spec_labeled(label),
    {
        ClickTarget {
            x: self.x,
            y: self.y,
            w: self.w,
            h: self.h,
            action: self.action,
            label: Some(label),
            midi_action: self.midi_action,
        }
    }

    pub open spec fn spec_bindable(self, midi_action: Action) -> ClickTarget {
        ClickTarget { midi_action: Some(midi_action), ..self }
    }

    /// Marks the target as one that a right-click binds a MIDI controller to.
    #[verifier::when_used_as_spec(spec_bindable)]
    pub fn bindable(self, midi_action: Action) -> (t: ClickTarget)
        ensures
            t == self.spec_bindable(midi_action),
    {
        ClickTarget {
            x: self.x,
            y: self.y,
            w: self.w,
            h: self.h,
            action: self.action,
            label: self.label,
            midi_action: Some(midi_action),
        }
    }

    pub fn contains(&self, col: u16, row: u16) -> (b: bool)
        ensures
            b == self.covers(col as int, row as int),
    {
        let right: u32 = self.x as u32 + self.w as u32;
        let bottom: u32 = self.y as u32 + self.h as u32;
        col >= self.x && (col as u32) < right && row >= self.y && (row as u32) < bottom
    }
}

/// A target of no width or no height is never hit.
pub proof fn empty_target_is_never_hit(t: ClickTarget, col: int, row: int)
    requires
        t.w == 0 || t.h == 0,
    ensures
        !t.covers(col, row),
{
}

/// The last of the targets that covers a place.
pub open spec fn hit(targets: Seq<ClickTarget>, col: int, row: int) -> Option<ClickTarget>
    decreases targets.len(),
{
    if targets.len() == 0 {
        None
    } else if targets.last().covers(col, row) {
        Some(targets.last())
    } else {
        hit(targets.drop_last(), col, row)
    }
}

/// The target under a place; where several overlap, the one drawn last.
pub fn target_at(targets: &Vec<ClickTarget>, col: u16, row: u16) -> (t: Option<ClickTarget>)
    ensures
        t == hit(targets@, col as int, row as int),
{
    let mut i: usize = targets.len();
    assert(targets@.take(i as int) == targets@);
    while i > 0
        invariant
            i <= targets.len(),
            hit(targets@, col as int, row as int) == hit(
                targets@.take(i as int),
                col as int,
                row as int,
            ),
        decreases i,
    {
        assert(targets@.take(i as int).drop_last() == targets@.take(i - 1));
        if targets[i - 1].contains(col, row) {
            return Some(targets[i - 1]);
        }
        i -= 1;
    }
    None
}

/// A screen coordinate, held at the last column or row there can be.
pub open spec fn coord(n: int) -> u16 {
    if n > u16::MAX {
        u16::MAX
    } else if n < 0 {
        0
    } else {
        n as u16
    }
}

pub fn coord_of(n: u128) -> (c: u16)
    ensures
        c == coord(n as int),
{
    if n > 0xffff {
        u16::MAX
    } else {
        n as u16
    }
}

} // verus!
