//! The mouse: the wheel, clicks, right-clicks and drags.
use crate::app::{App, DashState, KeyEnv};
use crate::app_keys::key_done;
use crate::clicks::{hit, target_at, ClickAction, ClickTarget};
use crate::config::AppConfig;
use crate::controls::DashFocus;
use crate::deck::NowPlaying;
use crate::effects::{
    act_and_toast, add_act, add_toast, fx_view, no_effects, only_act, only_toast, Act, Effect,
    EffectV,
};
use crate::key::{KeyCode, KeyEvent, KeyModifiers};
use crate::midi_learn::Action;
use crate::mixer::{
    apply_vertical_drag, crossfader_at, crossfader_position, deck_label, deck_letter, strip_effects,
    strip_section, strip_section_of,
};
use crate::modals::{midi_map_view, MidiMapV, PendingMidiMap};
use crate::nav::{entered, entered_at, item_step, BrowseStep, Cursor, Nav, NavV};
use crate::numbers::{signed2, signed2_str};
use crate::rules::RuleConfig;
use crate::text::{concat2, concat3, decimal, decimal_str, min_of, owned};
use vstd::prelude::*;
use vstd::string::*;

verus! {

#[derive(Debug, Clone, Copy, PartialEq, Eq, Structural)]
pub enum MouseKind {
    ScrollUp,
    ScrollDown,
    ScrollLeft,
    ScrollRight,
    LeftDown,
    RightDown,
    LeftDrag,
    Other,
}

/// One event of the mouse.
#[derive(Debug, Clone, Copy)]
pub struct MouseEvent {
    pub kind: MouseKind,
    pub column: u16,
    pub row: u16,
    pub modifiers: KeyModifiers,
}

/// The key that the wheel stands for.
pub open spec fn wheel_key(kind: MouseKind) -> Option<KeyCode> {
    match kind {
        MouseKind::ScrollUp => Some(KeyCode::Up),
        MouseKind::ScrollDown => Some(KeyCode::Down),
        MouseKind::ScrollLeft => Some(KeyCode::Left),
        MouseKind::ScrollRight => Some(KeyCode::Right),
        _ => None,
    }
}

pub fn wheel_key_of(kind: MouseKind) -> (k: Option<KeyCode>)
    ensures
        k == wheel_key(kind),
{
    match kind {
        MouseKind::ScrollUp => Some(KeyCode::Up),
        MouseKind::ScrollDown => Some(KeyCode::Down),
        MouseKind::ScrollLeft => Some(KeyCode::Left),
        MouseKind::ScrollRight => Some(KeyCode::Right),
        _ => None,
    }
}

/// A key pressed with nothing held.
pub open spec fn plain_key(code: KeyCode) -> KeyEvent {
    KeyEvent { code, modifiers: KeyModifiers::spec_none() }
}

/// A click with Shift on a hot cue sets it, as the shifted digit does.
pub open spec fn cue_set_char(action: ClickAction) -> Option<char> {
    match action {
        ClickAction::SimulateKey(KeyCode::Char(d)) => if d == '1' {
            Some('!')
        } else if d == '2' {
            Some('@')
        } else if d == '3' {
            Some('#')
        } else if d == '4' {
            Some('$')
        } else {
            None
        },
        _ => None,
    }
}

fn cue_set_char_of(action: ClickAction) -> (c: Option<char>)
    ensures
        c == cue_set_char(action),
{
    match action {
        ClickAction::SimulateKey(KeyCode::Char(d)) => {
            if d == '1' {
                Some('!')
            } else if d == '2' {
                Some('@')
            } else if d == '3' {
                Some('#')
            } else if d == '4' {
                Some('$')
            } else {
                None
            }
        },
        _ => None,
    }
}

pub open spec fn shift_only() -> KeyModifiers {
    KeyModifiers { shift: true, ..KeyModifiers::spec_none() }
}

/// What a click leads to: a key, something else, or nothing.
pub enum Click {
    Miss,
    Key(KeyEvent),
    Do(ClickAction),
}

pub open spec fn click_at(targets: Seq<ClickTarget>, col: u16, row: u16, shift: bool) -> Click {
    match hit(targets, col as int, row as int) {
        None => Click::Miss,
        Some(t) => if shift && cue_set_char(t.action) is Some {
            Click::Key(
                KeyEvent {
                    code: KeyCode::Char(cue_set_char(t.action)->0),
                    modifiers: shift_only(),
                },
            )
        } else {
            match t.action {
                ClickAction::SimulateKey(code) => Click::Key(plain_key(code)),
                other => Click::Do(other),
            }
        },
    }
}

/// What a click at a place leads to.
pub fn resolve_click(targets: &Vec<ClickTarget>, col: u16, row: u16, shift: bool) -> (c: Click)
    ensures
        c == click_at(targets@, col, row, shift),
{
    match target_at(targets, col, row) {
        None => Click::Miss,
        Some(t) => {
            if shift {
                if let Some(c) = cue_set_char_of(t.action) {
                    return Click::Key(
                        KeyEvent {
                            code: KeyCode::Char(c),
                            modifiers: KeyModifiers {
                                shift: true,
                                ctrl: false,
                                alt: false,
                                logo: false,
                                hyper: false,
                                meta: false,
                            },
                        },
                    );
                }
            }
            match t.action {
                ClickAction::SimulateKey(code) => Click::Key(
                    KeyEvent { code, modifiers: KeyModifiers::none() },
                ),
                other => Click::Do(other),
            }
        },
    }
}

/// The next number of bars a jump takes.
pub open spec fn next_jump(bars: u32) -> u32 {
    if bars == 4 {
        8
    } else if bars == 8 {
        16
    } else if bars == 16 {
        32
    } else {
        4
    }
}

/// Four clicks come back to the same number of bars, from each that is offered.
pub proof fn jump_bars_cycle(bars: u32)
    requires
        bars == 4 || bars == 8 || bars == 16 || bars == 32,
    ensures
        next_jump(next_jump(next_jump(next_jump(bars)))) == bars,
{
}

#[verifier::opaque]
pub open spec fn with_jump(c: AppConfig, bars: u32) -> AppConfig {
    AppConfig { jump_bars: bars, ..c }
}

fn set_jump(c: &mut AppConfig, bars: u32)
    ensures
        *final(c) == with_jump(*old(c), bars),
{
    proof {
        reveal(with_jump);
    }
    c.jump_bars = bars;
}

/// The mini-browser on a row, or, on the row it is on already, inside it.
pub open spec fn dash_row_clicked(a: App, index: usize) -> (DashState, NavV, bool) {
    let dash = DashState { focus: DashFocus::Browse, ..a.dash };
    let at = NavV { cursor: Cursor { dash: index, ..a.nav.cursor }, ..a.nav@ };
    if a.dash.focus is Browse && a.nav.cursor.dash == index {
        (dash, entered(NavV { cursor: Cursor { selected: index, ..at.cursor }, ..at }), true)
    } else {
        (dash, at, false)
    }
}

/// What a click does that is no key: the application after it, what is done, and
/// the step into the browser it asks for.
pub open spec fn click_done(
    a: App,
    b: App,
    fx: Seq<EffectV>,
    step: BrowseStep,
    action: ClickAction,
    col: u16,
    row: u16,
) -> bool {
    let nothing = step is Nothing;
    match action {
        ClickAction::SetCrossfaderRange { x_min, x_max } => b == a && nothing && fx == (if x_max
            <= x_min {
            Seq::empty()
        } else {
            let pos = crossfader_at(col as int, x_min as int, x_max as int);
            seq![
                EffectV::Do(Act::SetCrossfader(pos as i64)),
                EffectV::Toast("Crossfader → "@ + signed2(pos), 600),
            ]
        }),
        ClickAction::SetVerticalRange { control, y_min, y_max } => nothing && b == (if y_max
            <= y_min {
            a
        } else {
            App {
                dash: DashState {
                    section: strip_section(control),
                    focus: DashFocus::Controller,
                    ..a.dash
                },
                ..a
            }
        }) && fx == strip_effects(
            control,
            row as int,
            y_min as int,
            y_max as int,
            a.config.tempo_range as int,
            true,
        ),
        ClickAction::CycleJumpBars => {
            let n = next_jump(a.config.jump_bars);
            nothing && b == App { config: with_jump(a.config, n), ..a } && fx == seq![
                EffectV::Do(Act::SaveConfig),
                EffectV::Do(Act::SetJumpBars(n)),
                EffectV::Toast("Jump "@ + decimal(n as nat) + " bars"@, 1000),
            ]
        },
        ClickAction::LoopEngageDeck { is_a, beats } => nothing && b == a && fx == seq![
            EffectV::Do(Act::LoopEngage { is_a, beats }),
            EffectV::Toast(
                "Deck "@ + deck_letter(is_a) + " loop "@ + decimal(beats as nat) + " beats"@,
                1000,
            ),
        ],
        ClickAction::LoopOffDeck { is_a } => nothing && b == a && fx == seq![
            EffectV::Do(Act::LoopDisengage { is_a }),
            EffectV::Toast("Deck "@ + deck_letter(is_a) + " loop off"@, 800),
        ],
        ClickAction::FocusDashSection(section) => nothing && fx.len() == 0 && b == App {
            dash: DashState { section, focus: DashFocus::Controller, ..a.dash },
            ..a
        },
        ClickAction::DashBrowseSelect(index) => {
            let (dash, nav, inside) = dash_row_clicked(a, index);
            &&& fx.len() == 0
            &&& b == App { dash, nav: b.nav, ..a }
            &&& b.nav@ == nav
            &&& if inside {
                let at = NavV {
                    cursor: Cursor { dash: index, selected: index, ..a.nav.cursor },
                    ..a.nav@
                };
                step@ == item_step(at.screen(), entered_at(at), at.cursor.column as int)
            } else {
                nothing
            }
        },
        ClickAction::WaveformZoom(is_a) => nothing && fx.len() == 0 && b == App {
            dash: DashState {
                zoom: if a.dash.zoom == Some(is_a) {
                    None
                } else {
                    Some(is_a)
                },
                ..a.dash
            },
            ..a
        },
        ClickAction::SetSelected(index) => nothing && fx.len() == 0 && b == App {
            nav: Nav {
                cursor: Cursor {
                    selected: index,
                    scroll: min_of(a.nav.cursor.scroll as int, index as int) as usize,
                    ..a.nav.cursor
                },
                ..a.nav
            },
            ..a
        },
        ClickAction::SimulateKey(_) => nothing && fx.len() == 0 && b == a,
    }
}

/// Zooming the same waveform twice closes the zoom, where it was closed before.
pub proof fn zoom_toggles(a: App, b: App, c: App, is_a: bool, col: u16, row: u16)
    requires
        a.dash.zoom is None,
        click_done(
            a,
            b,
            Seq::empty(),
            BrowseStep::Nothing,
            ClickAction::WaveformZoom(is_a),
            col,
            row,
        ),
        click_done(
            b,
            c,
            Seq::empty(),
            BrowseStep::Nothing,
            ClickAction::WaveformZoom(is_a),
            col,
            row,
        ),
    ensures
        b.dash.zoom == Some(is_a),
        c == a,
{
}

/// What comes of a click or a key that a click stands for.
pub struct ClickOut {
    pub effects: Vec<Effect>,
    pub step: BrowseStep,
}

fn only_effects(effects: Vec<Effect>) -> (o: ClickOut)
    ensures
        o.effects == effects,
        o.step is Nothing,
{
    ClickOut { effects, step: BrowseStep::Nothing }
}

fn crossfader_click(col: u16, x_min: u16, x_max: u16, click: bool) -> (fx: Vec<Effect>)
    ensures
        fx_view(fx@) == (if x_max <= x_min {
            Seq::empty()
        } else {
            let pos = crossfader_at(col as int, x_min as int, x_max as int);
            if click {
                seq![
                    EffectV::Do(Act::SetCrossfader(pos as i64)),
                    EffectV::Toast("Crossfader → "@ + signed2(pos), 600),
                ]
            } else {
                seq![EffectV::Do(Act::SetCrossfader(pos as i64))]
            }
        }),
{
    if x_max <= x_min {
        return no_effects();
    }
    let pos: i64 = crossfader_position(col, x_min, x_max);
    if click {
        let text: String = concat2("Crossfader → ", signed2_str(pos).as_str());
        act_and_toast(Act::SetCrossfader(pos), text.as_str(), 600)
    } else {
        only_act(Act::SetCrossfader(pos))
    }
}

fn jump_bars_click(n: u32) -> (fx: Vec<Effect>)
    ensures
        fx_view(fx@) == seq![
            EffectV::Do(Act::SaveConfig),
            EffectV::Do(Act::SetJumpBars(n)),
            EffectV::Toast("Jump "@ + decimal(n as nat) + " bars"@, 1000),
        ],
{
    let text: String = concat3("Jump ", decimal_str(n as u64).as_str(), " bars");
    let mut fx: Vec<Effect> = only_act(Act::SaveConfig);
    add_act(&mut fx, Act::SetJumpBars(n));
    add_toast(&mut fx, text.as_str(), 1000);
    assert(fx_view(fx@) =~= seq![
        EffectV::Do(Act::SaveConfig),
        EffectV::Do(Act::SetJumpBars(n)),
        EffectV::Toast("Jump "@ + decimal(n as nat) + " bars"@, 1000),
    ]);
    fx
}

/// What a drag at a place does: only the crossfader and the vertical strips
/// follow it.
pub open spec fn drag_effects(targets: Seq<ClickTarget>, col: u16, row: u16, tempo_range: u32) -> Seq<
    EffectV,
> {
    match hit(targets, col as int, row as int) {
        Some(t) => match t.action {
            ClickAction::SetCrossfaderRange { x_min, x_max } => if x_max > x_min {
                seq![
                    EffectV::Do(
                        Act::SetCrossfader(
                            crossfader_at(col as int, x_min as int, x_max as int) as i64,
                        ),
                    ),
                ]
            } else {
                Seq::empty()
            },
            ClickAction::SetVerticalRange { control, y_min, y_max } => strip_effects(
                control,
                row as int,
                y_min as int,
                y_max as int,
                tempo_range as int,
                false,
            ),
            _ => Seq::empty(),
        },
        None => Seq::empty(),
    }
}

/// A drag says nothing: it shows no message.
pub proof fn drags_are_silent(targets: Seq<ClickTarget>, col: u16, row: u16, tempo_range: u32)
    ensures
        drag_effects(targets, col, row, tempo_range).len() <= 1,
        forall|i: int|
            0 <= i < drag_effects(targets, col, row, tempo_range).len() ==> #[trigger] drag_effects(
                targets,
                col,
                row,
                tempo_range,
            )[i] is Do,
{
}

/// Follows a drag.
pub fn handle_mouse_drag(targets: &Vec<ClickTarget>, col: u16, row: u16, tempo_range: u32) -> (fx:
    Vec<Effect>)
    ensures
        fx_view(fx@) == drag_effects(targets@, col, row, tempo_range),
{
    match target_at(targets, col, row) {
        Some(t) => match t.action {
            ClickAction::SetCrossfaderRange { x_min, x_max } => crossfader_click(
                col,
                x_min,
                x_max,
                false,
            ),
            ClickAction::SetVerticalRange { control, y_min, y_max } => apply_vertical_drag(
                control,
                row,
                y_min,
                y_max,
                tempo_range,
                false,
            ),
            _ => no_effects(),
        },
        None => no_effects(),
    }
}

/// The action that a right-click at a place binds a controller to.
pub open spec fn bindable_at(targets: Seq<ClickTarget>, col: u16, row: u16) -> Option<Action> {
    match hit(targets, col as int, row as int) {
        Some(t) => t.midi_action,
        None => None,
    }
}

pub fn right_click_action(targets: &Vec<ClickTarget>, col: u16, row: u16) -> (a: Option<Action>)
    ensures
        a == bindable_at(targets@, col, row),
{
    match target_at(targets, col, row) {
        Some(t) => t.midi_action,
        None => None,
    }
}

/// What is said, and forgotten, when a binding starts.
pub open spec fn begin_effects(label: Seq<char>) -> Seq<EffectV> {
    seq![
        EffectV::Toast("Move a controller to bind: "@ + label + " (Esc to cancel)"@, 4000),
        EffectV::Do(Act::ForgetMidiEvent),
    ]
}

impl App {
    /// Starts to bind a controller to an action; events from before do not count.
    pub fn begin_midi_map(&mut self, action: Action, label: &str) -> (fx: Vec<Effect>)
        requires
            old(self).wf(),
        ensures
            final(self).wf(),
            *final(self) == (App { midi_map: final(self).midi_map, ..*old(self) }),
            midi_map_view(final(self).midi_map) == Some(
                MidiMapV { action, action_label: label@, captured: None },
            ),
            fx_view(fx@) == begin_effects(label@),
    {
        self.midi_map = Some(
            PendingMidiMap { action, action_label: owned(label), captured: None },
        );
        let text: String = concat3("Move a controller to bind: ", label, " (Esc to cancel)");
        let mut fx: Vec<Effect> = only_toast(text.as_str(), 4000);
        add_act(&mut fx, Act::ForgetMidiEvent);
        assert(fx_view(fx@) =~= begin_effects(label@));
        fx
    }

    fn dash_row_click(&mut self, index: usize) -> (step: BrowseStep)
        requires
            old(self).wf(),
        ensures
            final(self).wf(),
            click_done(
                *old(self),
                *final(self),
                Seq::empty(),
                step,
                ClickAction::DashBrowseSelect(index),
                0,
                0,
            ),
    {
        let inside: bool = self.dash.focus == DashFocus::Browse && self.nav.cursor.dash == index;
        self.dash.focus = DashFocus::Browse;
        self.nav.cursor.dash = index;
        if inside {
            self.nav.cursor.selected = index;
            let ghost at = NavV {
                cursor: Cursor { dash: index, selected: index, ..old(self).nav.cursor },
                ..old(self).nav@
            };
            assert(self.nav@ =~= at);
            let step: BrowseStep = self.nav.handle_browse_enter();
            step
        } else {
            assert(self.nav@ =~= dash_row_clicked(*old(self), index).1);
            BrowseStep::Nothing
        }
    }

    fn select_row(&mut self, index: usize)
        requires
            old(self).wf(),
        ensures
            final(self).wf(),
            click_done(
                *old(self),
                *final(self),
                Seq::empty(),
                BrowseStep::Nothing,
                ClickAction::SetSelected(index),
                0,
                0,
            ),
    {
        self.nav.cursor.selected = index;
        if self.nav.cursor.scroll > index {
            self.nav.cursor.scroll = index;
        }
    }

    /// Puts the mini-browser back on its first row, once a step into a row of it was
    /// made.
    pub fn leave_dash_row(&mut self)
        requires
            old(self).wf(),
        ensures
            final(self).wf(),
            *final(self) == (App { nav: final(self).nav, ..*old(self) }),
            final(self).nav@ == (NavV {
                cursor: Cursor { dash: 0, ..old(self).nav.cursor },
                ..old(self).nav@
            }),
    {
        self.nav.cursor.dash = 0;
    }

    /// Does what a click on a place does that stands for no key.
    pub fn dispatch_click_action(&mut self, action: ClickAction, col: u16, row: u16) -> (o: ClickOut)
        requires
            old(self).wf(),
        ensures
            final(self).wf(),
            click_done(
                *old(self),
                *final(self),
                fx_view(o.effects@),
                o.step,
                action,
                col,
                row,
            ),
    {
        match action {
            ClickAction::SetCrossfaderRange { x_min, x_max } => only_effects(
                crossfader_click(col, x_min, x_max, true),
            ),
            ClickAction::SetVerticalRange { control, y_min, y_max } => {
                let fx: Vec<Effect> = apply_vertical_drag(
                    control,
                    row,
                    y_min,
                    y_max,
                    self.config.tempo_range,
                    true,
                );
                if y_max > y_min {
                    self.dash.section = strip_section_of(control);
                    self.dash.focus = DashFocus::Controller;
                }
                only_effects(fx)
            },
            ClickAction::CycleJumpBars => {
                let now: u32 = self.config.jump_bars;
                let n: u32 = if now == 4 {
                    8
                } else if now == 8 {
                    16
                } else if now == 16 {
                    32
                } else {
                    4
                };
                set_jump(&mut self.config, n);
                only_effects(jump_bars_click(n))
            },
            ClickAction::LoopEngageDeck { is_a, beats } => {
                let head: String = concat3("Deck ", deck_label(is_a), " loop ");
                let text: String = concat3(
                    head.as_str(),
                    decimal_str(beats as u64).as_str(),
                    " beats",
                );
                only_effects(act_and_toast(Act::LoopEngage { is_a, beats }, text.as_str(), 1000))
            },
            ClickAction::LoopOffDeck { is_a } => {
                let text: String = concat3("Deck ", deck_label(is_a), " loop off");
                only_effects(act_and_toast(Act::LoopDisengage { is_a }, text.as_str(), 800))
            },
            ClickAction::FocusDashSection(section) => {
                self.dash.section = section;
                self.dash.focus = DashFocus::Controller;
                only_effects(no_effects())
            },
            ClickAction::DashBrowseSelect(index) => {
                let step: BrowseStep = self.dash_row_click(index);
                ClickOut { effects: no_effects(), step }
            },
            ClickAction::WaveformZoom(is_a) => {
                let same: bool = match self.dash.zoom {
                    Some(z) => z == is_a,
                    None => false,
                };
                self.dash.zoom = if same {
                    None
                } else {
                    Some(is_a)
                };
                only_effects(no_effects())
            },
            ClickAction::SetSelected(index) => {
                self.select_row(index);
                only_effects(no_effects())
            },
            ClickAction::SimulateKey(_) => only_effects(no_effects()),
        }
    }

    /// A click at a place. A second click on the row that is selected stands for
    /// Enter.
    pub fn handle_mouse_click(
        &mut self,
        col: u16,
        row: u16,
        shift: bool,
        env: &KeyEnv,
        info: &NowPlaying,
        defaults: RuleConfig,
    ) -> (o: ClickOut)
        requires
            old(self).wf(),
        ensures
            final(self).wf(),
            mouse_click_done(
                *old(self),
                *final(self),
                fx_view(o.effects@),
                o.step,
                col,
                row,
                shift,
                *env,
                *info,
                defaults,
            ),
    {
        match resolve_click(&self.targets, col, row, shift) {
            Click::Miss => only_effects(no_effects()),
            Click::Key(key) => only_effects(self.handle_key(key, env, info, defaults)),
            Click::Do(action) => {
                if let ClickAction::SetSelected(index) = action {
                    if self.nav.cursor.selected == index {
                        let enter: KeyEvent = KeyEvent {
                            code: KeyCode::Enter,
                            modifiers: KeyModifiers::none(),
                        };
                        return only_effects(self.handle_key(enter, env, info, defaults));
                    }
                }
                self.dispatch_click_action(action, col, row)
            },
        }
    }
}

/// What a mouse event does. The label is that of the action under the pointer.
pub open spec fn mouse_done(
    a: App,
    b: App,
    fx: Seq<EffectV>,
    step: BrowseStep,
    m: MouseEvent,
    label: Seq<char>,
    env: KeyEnv,
    info: NowPlaying,
    defaults: RuleConfig,
) -> bool {
    match m.kind {
        MouseKind::LeftDown => mouse_click_done(
            a,
            b,
            fx,
            step,
            m.column,
            m.row,
            m.modifiers.shift,
            env,
            info,
            defaults,
        ),
        MouseKind::LeftDrag => b == a && step is Nothing && fx == drag_effects(
            a.targets@,
            m.column,
            m.row,
            a.config.tempo_range,
        ),
        MouseKind::RightDown => step is Nothing && match bindable_at(a.targets@, m.column, m.row) {
            Some(action) => {
                &&& b == App { midi_map: b.midi_map, ..a }
                &&& midi_map_view(b.midi_map) == Some(
                    MidiMapV { action, action_label: label, captured: None },
                )
                &&& fx == begin_effects(label)
            },
            None => b == a && fx.len() == 0,
        },
        MouseKind::Other => b == a && fx.len() == 0 && step is Nothing,
        _ => key_done(a, b, fx, plain_key(wheel_key(m.kind)->0), env, info, defaults)
            && step is Nothing,
    }
}

impl App {
    /// Handles a mouse event. The wheel works like the arrow keys on every screen.
    pub fn handle_mouse(
        &mut self,
        m: MouseEvent,
        label: &str,
        env: &KeyEnv,
        info: &NowPlaying,
        defaults: RuleConfig,
    ) -> (o: ClickOut)
        requires
            old(self).wf(),
        ensures
            final(self).wf(),
            mouse_done(
                *old(self),
                *final(self),
                fx_view(o.effects@),
                o.step,
                m,
                label@,
                *env,
                *info,
                defaults,
            ),
    {
        if let Some(code) = wheel_key_of(m.kind) {
            let key: KeyEvent = KeyEvent { code, modifiers: KeyModifiers::none() };
            return only_effects(self.handle_key(key, env, info, defaults));
        }
        match m.kind {
            MouseKind::LeftDown => self.handle_mouse_click(
                m.column,
                m.row,
                m.modifiers.shift,
                env,
                info,
                defaults,
            ),
            MouseKind::LeftDrag => only_effects(
                handle_mouse_drag(&self.targets, m.column, m.row, self.config.tempo_range),
            ),
            MouseKind::RightDown => match right_click_action(&self.targets, m.column, m.row) {
                Some(action) => only_effects(self.begin_midi_map(action, label)),
                None => only_effects(no_effects()),
            },
            _ => only_effects(no_effects()),
        }
    }
}

/// What a click at a place does.
pub open spec fn mouse_click_done(
    a: App,
    b: App,
    fx: Seq<EffectV>,
    step: BrowseStep,
    col: u16,
    row: u16,
    shift: bool,
    env: KeyEnv,
    info: NowPlaying,
    defaults: RuleConfig,
) -> bool {
    match click_at(a.targets@, col, row, shift) {
        Click::Miss => b == a && fx.len() == 0 && step is Nothing,
        Click::Key(key) => key_done(a, b, fx, key, env, info, defaults) && step is Nothing,
        Click::Do(action) => if action == ClickAction::SetSelected(a.nav.cursor.selected) {
            key_done(a, b, fx, plain_key(KeyCode::Enter), env, info, defaults) && step is Nothing
        } else {
            click_done(a, b, fx, step, action, col, row)
        },
    }
}

} // verus!
