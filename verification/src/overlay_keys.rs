//! Keys on the MIDI learn screen and on the mixer overlay.
use crate::deck::NowPlaying;
use crate::effects::{act_and_toast, fx_view, no_effects, only_toast, Act, Effect, EffectV};
use crate::inputs::ViewMode;
use crate::key::KeyCode;
use crate::midi_learn::Action;
use crate::mixer::{
    adjust_mixer_row, deck_label, deck_letter, reset_mixer_row, row_effects, row_reset, MixerRow,
};
use crate::modals::ConfirmAction;
use crate::text::{concat2, concat3, min_of, minus, owned, sat_sub};
use vstd::prelude::*;
use vstd::string::*;

verus! {

/// The MIDI learn screen: the action picked, and the controller event caught, by
/// its label.
pub struct LearnState {
    pub selected: usize,
    pub captured: Option<String>,
}

#[verifier::ext_equal]
pub struct LearnV {
    pub selected: usize,
    pub captured: Option<Seq<char>>,
}

impl View for LearnState {
    type V = LearnV;

    open spec fn view(&self) -> LearnV {
        LearnV { selected: self.selected, captured: crate::boxes::opt_str(self.captured) }
    }
}

/// What the MIDI listener and the list of actions hold at the time of a key.
pub struct LearnEnv {
    /// A listener is running.
    pub has_midi: bool,
    /// The last event it saw, by its label.
    pub latest: Option<String>,
    pub actions: usize,
    /// The action picked, and its label.
    pub picked: Option<(Action, String)>,
}

/// Keys on the MIDI learn screen; the latest event is taken over first.
pub open spec fn learn_step(s: LearnV, env: LearnEnv, code: KeyCode) -> (
    LearnV,
    ViewMode,
    Seq<EffectV>,
) {
    let stay = ViewMode::MidiLearn;
    let none = Seq::<EffectV>::empty();
    let now = LearnV {
        captured: match env.latest {
            Some(l) => Some(l@),
            None => s.captured,
        },
        ..s
    };
    if code == KeyCode::Esc {
        (now, ViewMode::Dashboard, none)
    } else if code == KeyCode::Up {
        (LearnV { selected: minus(s.selected as int, 1) as usize, ..now }, stay, none)
    } else if code == KeyCode::Down {
        (
            LearnV {
                selected: min_of(s.selected + 1, minus(env.actions as int, 1) as int) as usize,
                ..now
            },
            stay,
            none,
        )
    } else if code == KeyCode::Enter {
        match (now.captured, env.picked) {
            (Some(event), Some((action, label))) => if env.has_midi {
                (
                    LearnV { captured: None, ..now },
                    stay,
                    seq![
                        EffectV::Do(Act::BindPicked(action)),
                        EffectV::Toast("Bound "@ + event + " → "@ + label@, 1500),
                    ],
                )
            } else {
                (now, stay, none)
            },
            _ => (now, stay, seq![EffectV::Toast("Touch a control first"@, 1000)]),
        }
    } else if code == KeyCode::Char('u') || code == KeyCode::Char('U') {
        match now.captured {
            Some(event) => if env.has_midi {
                (
                    now,
                    stay,
                    seq![EffectV::Do(Act::Unbind), EffectV::Toast("Unbound "@ + event, 1000)],
                )
            } else {
                (now, stay, none)
            },
            None => (now, stay, none),
        }
    } else {
        (now, stay, none)
    }
}

impl LearnState {
    pub fn key(&mut self, env: &LearnEnv, code: KeyCode) -> (r: (ViewMode, Vec<Effect>))
        requires
            old(self).selected < usize::MAX,
        ensures
            (final(self)@, r.0, fx_view(r.1@)) == learn_step(old(self)@, *env, code),
    {
        if let Some(l) = &env.latest {
            self.captured = Some(owned(l.as_str()));
        }
        let ghost now = self@;
        if code == KeyCode::Esc {
            return (ViewMode::Dashboard, no_effects());
        }
        if code == KeyCode::Up {
            self.selected = sat_sub(self.selected, 1);
        } else if code == KeyCode::Down {
            let last: usize = sat_sub(env.actions, 1);
            self.selected = if self.selected + 1 < last {
                self.selected + 1
            } else {
                last
            };
        } else if code == KeyCode::Enter {
            let fx: Vec<Effect> = match (&self.captured, &env.picked) {
                (Some(event), Some((action, label))) => {
                    if env.has_midi {
                        let head: String = concat3("Bound ", event.as_str(), " → ");
                        let text: String = concat2(head.as_str(), label.as_str());
                        act_and_toast(Act::BindPicked(*action), text.as_str(), 1500)
                    } else {
                        no_effects()
                    }
                },
                _ => only_toast("Touch a control first", 1000),
            };
            let bound: bool = self.captured.is_some() && env.picked.is_some() && env.has_midi;
            if bound {
                self.captured = None;
            }
            return (ViewMode::MidiLearn, fx);
        } else if code == KeyCode::Char('u') || code == KeyCode::Char('U') {
            if let Some(event) = &self.captured {
                if env.has_midi {
                    return (
                        ViewMode::MidiLearn,
                        act_and_toast(
                            Act::Unbind,
                            concat2("Unbound ", event.as_str()).as_str(),
                            1000,
                        ),
                    );
                }
            }
        }
        (ViewMode::MidiLearn, no_effects())
    }
}

/// The mixer overlay: the deck worked on, and the row.
#[derive(Debug, Clone, Copy, PartialEq, Eq, Structural)]
pub struct MixerState {
    pub deck_is_a: bool,
    pub row: MixerRow,
}

/// What a key on the mixer overlay leads to.
#[verifier::ext_equal]
pub struct MixerOutV {
    pub state: MixerState,
    pub view: ViewMode,
    /// A confirmation asked for.
    pub confirm: Option<ConfirmAction>,
    pub effects: Seq<EffectV>,
}

/// Keys on the mixer overlay.
pub open spec fn mixer_step(s: MixerState, info: NowPlaying, code: KeyCode) -> MixerOutV {
    let stay = MixerOutV {
        state: s,
        view: ViewMode::Mixer,
        confirm: None,
        effects: Seq::empty(),
    };
    match code {
        KeyCode::Esc => MixerOutV { view: ViewMode::Dashboard, ..stay },
        KeyCode::Tab => MixerOutV {
            state: MixerState { deck_is_a: !s.deck_is_a, ..s },
            effects: seq![EffectV::Toast("Deck "@ + deck_letter(!s.deck_is_a), 500)],
            ..stay
        },
        KeyCode::Up => MixerOutV { state: MixerState { row: s.row.spec_prev(), ..s }, ..stay },
        KeyCode::Down => MixerOutV { state: MixerState { row: s.row.spec_next(), ..s }, ..stay },
        KeyCode::Left => MixerOutV { effects: row_effects(info, s.deck_is_a, s.row, -1), ..stay },
        KeyCode::Right => MixerOutV { effects: row_effects(info, s.deck_is_a, s.row, 1), ..stay },
        KeyCode::Char(c) => if c == 'z' || c == 'Z' {
            MixerOutV { view: ViewMode::Dashboard, ..stay }
        } else if c == 'r' {
            MixerOutV { effects: row_reset(s.deck_is_a, s.row), ..stay }
        } else if c == '0' || c == 'R' {
            MixerOutV {
                confirm: Some(ConfirmAction::ResetAllMixerControls),
                effects: seq![EffectV::Toast("Reset ALL mixer controls? Y/N"@, 5000)],
                ..stay
            }
        } else {
            stay
        },
        _ => stay,
    }
}

pub struct MixerOut {
    pub state: MixerState,
    pub view: ViewMode,
    pub confirm: Option<ConfirmAction>,
    pub effects: Vec<Effect>,
}

impl View for MixerOut {
    type V = MixerOutV;

    open spec fn view(&self) -> MixerOutV {
        MixerOutV {
            state: self.state,
            view: self.view,
            confirm: self.confirm,
            effects: fx_view(self.effects@),
        }
    }
}

fn mixer_out(state: MixerState, view: ViewMode, effects: Vec<Effect>) -> (o: MixerOut)
    ensures
        o@ == (MixerOutV { state, view, confirm: None, effects: fx_view(effects@) }),
{
    MixerOut { state, view, confirm: None, effects }
}

pub fn mixer_key(s: MixerState, info: &NowPlaying, code: KeyCode) -> (o: MixerOut)
    ensures
        o@ == mixer_step(s, *info, code),
{
    let here: ViewMode = ViewMode::Mixer;
    match code {
        KeyCode::Esc => mixer_out(s, ViewMode::Dashboard, no_effects()),
        KeyCode::Tab => {
            let next: MixerState = MixerState { deck_is_a: !s.deck_is_a, row: s.row };
            let text: String = concat2("Deck ", deck_label(next.deck_is_a));
            mixer_out(next, here, only_toast(text.as_str(), 500))
        },
        KeyCode::Up => mixer_out(
            MixerState { deck_is_a: s.deck_is_a, row: s.row.prev() },
            here,
            no_effects(),
        ),
        KeyCode::Down => mixer_out(
            MixerState { deck_is_a: s.deck_is_a, row: s.row.next() },
            here,
            no_effects(),
        ),
        KeyCode::Left => mixer_out(s, here, adjust_mixer_row(info, s.deck_is_a, s.row, -1)),
        KeyCode::Right => mixer_out(s, here, adjust_mixer_row(info, s.deck_is_a, s.row, 1)),
        KeyCode::Char(c) => {
            if c == 'z' || c == 'Z' {
                mixer_out(s, ViewMode::Dashboard, no_effects())
            } else if c == 'r' {
                mixer_out(s, here, reset_mixer_row(s.deck_is_a, s.row))
            } else if c == '0' || c == 'R' {
                MixerOut {
                    state: s,
                    view: here,
                    confirm: Some(ConfirmAction::ResetAllMixerControls),
                    effects: only_toast("Reset ALL mixer controls? Y/N", 5000),
                }
            } else {
                mixer_out(s, here, no_effects())
            }
        },
        _ => mixer_out(s, here, no_effects()),
    }
}

/// The key that resets the whole mixer only asks whether to: what it does is to
/// show the question, and every other key asks nothing.
pub proof fn reset_all_asks_first(s: MixerState, info: NowPlaying, code: KeyCode)
    ensures
        ({
            let out = mixer_step(s, info, code);
            let asks = code == KeyCode::Char('0') || code == KeyCode::Char('R');
            &&& asks <==> out.confirm is Some
            &&& asks ==> out.effects.len() == 1 && out.effects[0] is Toast && out.state == s
        }),
{
}

} // verus!
