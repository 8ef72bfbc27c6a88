//! Keys on the settings screen, and what follows from a changed setting.
use crate::config::{AppConfig, ClaudeDjMode};
use crate::effects::{
    act_and_toast, add_act, add_text, add_toast, fx_view, no_effects, only_act, only_toast, Act,
    Effect, EffectV, TextAct,
};
use crate::inputs::ViewMode;
use crate::key::{KeyCode, KeyEvent, KeyModifiers};
use crate::settings::{
    apply_setting, setting_items, setting_of, ItemV, RowV, SettingsEnv, RESET_ALL_KEY,
};
use crate::settings_list::{
    focusable, settings_row_count, settings_row_entry_at, SettingsRowEntry,
};
use crate::text::{concat3, min_of, minus, owned, pop_char, sat_sub, shortened, str_eq, strs};
use vstd::prelude::*;
use vstd::string::*;

verus! {

/// What a key on the settings screen asks for.
pub enum SettingsCmd {
    Nothing,
    Select(usize),
    Leave(ViewMode),
    /// The text being typed.
    Edit(String),
    StopEditing,
    /// A text to keep: the key of its row, the label, the text.
    SaveText(&'static str, &'static str, String),
    ResetAll,
    /// A choice: the key of its row, and the option.
    Apply(&'static str, usize),
}

#[verifier::ext_equal]
pub enum SettingsCmdV {
    Nothing,
    Select(usize),
    Leave(ViewMode),
    Edit(Seq<char>),
    StopEditing,
    SaveText(&'static str, &'static str, Seq<char>),
    ResetAll,
    Apply(&'static str, usize),
}

impl View for SettingsCmd {
    type V = SettingsCmdV;

    open spec fn view(&self) -> SettingsCmdV {
        match *self {
            SettingsCmd::Nothing => SettingsCmdV::Nothing,
            SettingsCmd::Select(i) => SettingsCmdV::Select(i),
            SettingsCmd::Leave(v) => SettingsCmdV::Leave(v),
            SettingsCmd::Edit(s) => SettingsCmdV::Edit(s@),
            SettingsCmd::StopEditing => SettingsCmdV::StopEditing,
            SettingsCmd::SaveText(k, l, s) => SettingsCmdV::SaveText(k, l, s@),
            SettingsCmd::ResetAll => SettingsCmdV::ResetAll,
            SettingsCmd::Apply(k, i) => SettingsCmdV::Apply(k, i),
        }
    }
}

/// Keys while a text is typed. A character typed with Ctrl, Alt or Meta held is
/// no text.
pub open spec fn editing_cmd(buf: Seq<char>, row: Option<ItemV>, key: KeyEvent) -> SettingsCmdV {
    let m = key.modifiers;
    match key.code {
        KeyCode::Esc => SettingsCmdV::StopEditing,
        KeyCode::Enter => match row {
            Some(ItemV::TextRow(r)) => SettingsCmdV::SaveText(r.key, r.label, buf),
            _ => SettingsCmdV::StopEditing,
        },
        KeyCode::Backspace => SettingsCmdV::Edit(shortened(buf)),
        KeyCode::Char(c) => if !m.ctrl && !m.alt && !m.meta {
            SettingsCmdV::Edit(buf.push(c))
        } else {
            SettingsCmdV::Nothing
        },
        _ => SettingsCmdV::Nothing,
    }
}

/// The next option of a row, from the last one on to the first.
pub open spec fn next_option(r: RowV) -> usize {
    ((r.current_idx + 1) % (r.options.len() as int)) as usize
}

pub open spec fn previous_option(r: RowV) -> usize {
    if r.current_idx == 0 {
        (r.options.len() - 1) as usize
    } else {
        (r.current_idx - 1) as usize
    }
}

pub open spec fn is_reset_row(r: RowV) -> bool {
    r.key@ == RESET_ALL_KEY@
}

/// Enter or the right arrow on a row.
pub open spec fn activate_cmd(row: Option<ItemV>) -> SettingsCmdV {
    match row {
        Some(ItemV::TextRow(r)) => SettingsCmdV::Edit(r.value),
        Some(ItemV::Row(r)) => if is_reset_row(r) {
            SettingsCmdV::ResetAll
        } else if r.options.len() > 0 {
            SettingsCmdV::Apply(r.key, next_option(r))
        } else {
            SettingsCmdV::Nothing
        },
        _ => SettingsCmdV::Nothing,
    }
}

/// A plain key: no modifier held.
pub open spec fn plain_char_cmd(row: Option<ItemV>, c: char) -> SettingsCmdV {
    if c == ',' || c == 'd' {
        SettingsCmdV::Leave(ViewMode::Dashboard)
    } else if c == 'b' {
        SettingsCmdV::Leave(ViewMode::Browse)
    } else if c == 'q' {
        SettingsCmdV::Leave(ViewMode::Queue)
    } else if c == 'h' {
        SettingsCmdV::Leave(ViewMode::History)
    } else if c == 'r' {
        match row {
            Some(ItemV::Row(r)) => if !is_reset_row(r) && r.current_idx != r.default_idx {
                SettingsCmdV::Apply(r.key, r.default_idx as usize)
            } else {
                SettingsCmdV::Nothing
            },
            _ => SettingsCmdV::Nothing,
        }
    } else {
        SettingsCmdV::Nothing
    }
}

/// Keys on the settings list.
pub open spec fn browsing_cmd(count: nat, row: Option<ItemV>, selected: usize, key: KeyEvent) -> SettingsCmdV {
    let plain = key.modifiers == KeyModifiers::spec_none();
    match key.code {
        KeyCode::Up => SettingsCmdV::Select(minus(selected as int, 1) as usize),
        KeyCode::Down => SettingsCmdV::Select(
            if selected + 1 < count {
                (selected + 1) as usize
            } else {
                selected
            },
        ),
        KeyCode::Home => SettingsCmdV::Select(0),
        KeyCode::End => SettingsCmdV::Select(minus(count as int, 1) as usize),
        KeyCode::PageUp => SettingsCmdV::Select(minus(selected as int, 10) as usize),
        KeyCode::PageDown => SettingsCmdV::Select(
            min_of(selected + 10, minus(count as int, 1) as int) as usize,
        ),
        KeyCode::Enter | KeyCode::Right => activate_cmd(row),
        KeyCode::Left => match row {
            Some(ItemV::Row(r)) => if !is_reset_row(r) && r.options.len() > 0 {
                SettingsCmdV::Apply(r.key, previous_option(r))
            } else {
                SettingsCmdV::Nothing
            },
            _ => SettingsCmdV::Nothing,
        },
        KeyCode::Esc => if plain {
            SettingsCmdV::Leave(ViewMode::Dashboard)
        } else {
            SettingsCmdV::Nothing
        },
        KeyCode::Char(c) => if plain {
            plain_char_cmd(row, c)
        } else {
            SettingsCmdV::Nothing
        },
        _ => SettingsCmdV::Nothing,
    }
}

pub open spec fn row_at(c: AppConfig, env: SettingsEnv, selected: int) -> Option<ItemV> {
    let rows = focusable(setting_items(c, env));
    if selected < rows.len() {
        Some(rows[selected])
    } else {
        None
    }
}

/// What a key on the settings screen asks for.
pub open spec fn settings_cmd(
    c: AppConfig,
    env: SettingsEnv,
    selected: usize,
    editing: Option<Seq<char>>,
    key: KeyEvent,
) -> SettingsCmdV {
    let row = row_at(c, env, selected as int);
    match editing {
        Some(buf) => editing_cmd(buf, row, key),
        None => browsing_cmd(focusable(setting_items(c, env)).len(), row, selected, key),
    }
}

fn activate(entry: Option<SettingsRowEntry>) -> (cmd: SettingsCmd)
    ensures
        cmd@ == activate_cmd(
            match entry {
                Some(e) => Some(e.item()),
                None => None,
            },
        ),
{
    match entry {
        Some(SettingsRowEntry::Text(r)) => SettingsCmd::Edit(r.value),
        Some(SettingsRowEntry::Choice(r)) => {
            assert(strs(r.options@).len() == r.options@.len());
            if str_eq(r.key, RESET_ALL_KEY) {
                SettingsCmd::ResetAll
            } else if r.options.len() > 0 {
                let n: u128 = r.options.len() as u128;
                let next: u128 = (r.current_idx as u128 + 1) % n;
                SettingsCmd::Apply(r.key, next as usize)
            } else {
                SettingsCmd::Nothing
            }
        },
        None => SettingsCmd::Nothing,
    }
}

fn step_back(entry: Option<SettingsRowEntry>) -> (cmd: SettingsCmd)
    ensures
        cmd@ == (match entry {
            Some(SettingsRowEntry::Choice(r)) => if !is_reset_row(r@) && r@.options.len() > 0 {
                SettingsCmdV::Apply(r.key, previous_option(r@))
            } else {
                SettingsCmdV::Nothing
            },
            _ => SettingsCmdV::Nothing,
        }),
{
    match entry {
        Some(SettingsRowEntry::Choice(r)) => {
            assert(strs(r.options@).len() == r.options@.len());
            if !str_eq(r.key, RESET_ALL_KEY) && r.options.len() > 0 {
                let prev: usize = if r.current_idx == 0 {
                    r.options.len() - 1
                } else {
                    r.current_idx - 1
                };
                SettingsCmd::Apply(r.key, prev)
            } else {
                SettingsCmd::Nothing
            }
        },
        _ => SettingsCmd::Nothing,
    }
}

fn plain_char(entry: Option<SettingsRowEntry>, c: char) -> (cmd: SettingsCmd)
    ensures
        cmd@ == plain_char_cmd(
            match entry {
                Some(e) => Some(e.item()),
                None => None,
            },
            c,
        ),
{
    if c == ',' || c == 'd' {
        SettingsCmd::Leave(ViewMode::Dashboard)
    } else if c == 'b' {
        SettingsCmd::Leave(ViewMode::Browse)
    } else if c == 'q' {
        SettingsCmd::Leave(ViewMode::Queue)
    } else if c == 'h' {
        SettingsCmd::Leave(ViewMode::History)
    } else if c == 'r' {
        match entry {
            Some(SettingsRowEntry::Choice(r)) => {
                if !str_eq(r.key, RESET_ALL_KEY) && r.current_idx != r.default_idx {
                    SettingsCmd::Apply(r.key, r.default_idx)
                } else {
                    SettingsCmd::Nothing
                }
            },
            _ => SettingsCmd::Nothing,
        }
    } else {
        SettingsCmd::Nothing
    }
}

fn edit_key(buf: String, entry: Option<SettingsRowEntry>, key: KeyEvent) -> (cmd: SettingsCmd)
    ensures
        cmd@ == editing_cmd(
            buf@,
            match entry {
                Some(e) => Some(e.item()),
                None => None,
            },
            key,
        ),
{
    let mut buf: String = buf;
    match key.code {
        KeyCode::Esc => SettingsCmd::StopEditing,
        KeyCode::Enter => match entry {
            Some(SettingsRowEntry::Text(r)) => SettingsCmd::SaveText(r.key, r.label, buf),
            _ => SettingsCmd::StopEditing,
        },
        KeyCode::Backspace => {
            pop_char(&mut buf);
            SettingsCmd::Edit(buf)
        },
        KeyCode::Char(c) => {
            if !key.modifiers.ctrl && !key.modifiers.alt && !key.modifiers.meta {
                buf.push(c);
                SettingsCmd::Edit(buf)
            } else {
                SettingsCmd::Nothing
            }
        },
        _ => SettingsCmd::Nothing,
    }
}

fn list_key(count: usize, entry: Option<SettingsRowEntry>, selected: usize, key: KeyEvent) -> (cmd:
    SettingsCmd)
    ensures
        cmd@ == browsing_cmd(
            count as nat,
            match entry {
                Some(e) => Some(e.item()),
                None => None,
            },
            selected,
            key,
        ),
{
    let plain: bool = key.modifiers == KeyModifiers::none();
    match key.code {
        KeyCode::Up => SettingsCmd::Select(sat_sub(selected, 1)),
        KeyCode::Down => SettingsCmd::Select(
            if selected < count && count - selected > 1 {
                selected + 1
            } else {
                selected
            },
        ),
        KeyCode::Home => SettingsCmd::Select(0),
        KeyCode::End => SettingsCmd::Select(sat_sub(count, 1)),
        KeyCode::PageUp => SettingsCmd::Select(sat_sub(selected, 10)),
        KeyCode::PageDown => {
            let last: usize = sat_sub(count, 1);
            SettingsCmd::Select(
                if selected >= last || last - selected <= 10 {
                    last
                } else {
                    selected + 10
                },
            )
        },
        KeyCode::Enter | KeyCode::Right => activate(entry),
        KeyCode::Left => step_back(entry),
        KeyCode::Esc => if plain {
            SettingsCmd::Leave(ViewMode::Dashboard)
        } else {
            SettingsCmd::Nothing
        },
        KeyCode::Char(c) => if plain {
            plain_char(entry, c)
        } else {
            SettingsCmd::Nothing
        },
        _ => SettingsCmd::Nothing,
    }
}

/// What a key on the settings screen asks for.
pub fn settings_key(
    config: &AppConfig,
    env: &SettingsEnv,
    selected: usize,
    editing: Option<String>,
    key: KeyEvent,
) -> (cmd: SettingsCmd)
    ensures
        cmd@ == settings_cmd(*config, *env, selected, crate::boxes::opt_str(editing), key),
{
    let entry: Option<SettingsRowEntry> = settings_row_entry_at(config, env, selected);
    match editing {
        Some(buf) => edit_key(buf, entry, key),
        None => {
            let count: usize = settings_row_count(config, env);
            list_key(count, entry, selected, key)
        },
    }
}

/// One key resets a whole configuration only on the row made for it, and a
/// character with a modifier held changes nothing on the list.
pub proof fn settings_are_not_reset_by_accident(
    c: AppConfig,
    env: SettingsEnv,
    selected: usize,
    key: KeyEvent,
)
    ensures
        settings_cmd(c, env, selected, None, key) == SettingsCmdV::ResetAll ==> (key.code
            == KeyCode::Enter || key.code == KeyCode::Right) && row_at(
            c,
            env,
            selected as int,
        ) is Some,
        key.code is Char && key.modifiers != KeyModifiers::spec_none() ==> settings_cmd(
            c,
            env,
            selected,
            None,
            key,
        ) == SettingsCmdV::Nothing,
{
}

pub open spec fn mode_name(m: ClaudeDjMode) -> Seq<char> {
    match m {
        ClaudeDjMode::Auto => "Auto"@,
        ClaudeDjMode::Assist => "Assist"@,
        ClaudeDjMode::Manual => "Manual"@,
    }
}

pub fn mode_name_of(m: ClaudeDjMode) -> (s: &'static str)
    ensures
        s@ == mode_name(m),
{
    match m {
        ClaudeDjMode::Auto => "Auto",
        ClaudeDjMode::Assist => "Assist",
        ClaudeDjMode::Manual => "Manual",
    }
}

/// Asking for the genres to pick from.
pub open spec fn genre_picker_effects(favorites: bool, signed_in: bool) -> Seq<EffectV> {
    if signed_in {
        seq![
            EffectV::Toast("Loading genres..."@, 2000),
            EffectV::Do(Act::LoadGenres { favorites }),
        ]
    } else {
        seq![EffectV::Toast("Not authenticated"@, 2000)]
    }
}

pub fn open_genre_picker(favorites: bool, signed_in: bool) -> (fx: Vec<Effect>)
    ensures
        fx_view(fx@) == genre_picker_effects(favorites, signed_in),
{
    if signed_in {
        let mut fx: Vec<Effect> = only_toast("Loading genres...", 2000);
        add_act(&mut fx, Act::LoadGenres { favorites });
        assert(fx_view(fx@) =~= genre_picker_effects(favorites, true));
        fx
    } else {
        only_toast("Not authenticated", 2000)
    }
}

/// What a changed setting asks for by itself, after the change.
pub open spec fn follow_up(action: Seq<char>, c: AppConfig) -> Seq<EffectV> {
    if action == "logout"@ {
        seq![
            EffectV::Do(Act::LogOut),
            EffectV::Do(Act::ClearBrowseCache),
            EffectV::Toast("Logged out — restart mixr to sign in again"@, 4000),
        ]
    } else if action == "transitions_changed"@ {
        seq![EffectV::Do(Act::SyncTransitions)]
    } else if action == "pitch_stretch_changed"@ {
        seq![EffectV::Do(Act::SetPitchStretch(c.pitch_stretch_engine))]
    } else if action == "train_wreck_changed"@ {
        seq![EffectV::Do(Act::SyncTrainWreck)]
    } else if action == "rubberband_unavailable"@ {
        seq![
            EffectV::Toast("Installing rubberband — this may take a minute…"@, 8000),
            EffectV::Do(Act::InstallRubberband),
        ]
    } else if action == "timestretch_unavailable"@ {
        seq![EffectV::Toast("Timestretch needs `cargo build --features timestretch`"@, 3000)]
    } else if action == "crossfade_bars_changed"@ {
        seq![
            EffectV::Do(Act::SetCrossfadeBars(c.crossfade_bars)),
            EffectV::Do(Act::SetCrossfadeBarsAuto(c.crossfade_bars_auto)),
        ]
    } else if action == "quantize_changed"@ {
        seq![EffectV::Do(Act::SetQuantize { on: c.quantize_on, step: c.quantize_beats })]
    } else if action == "jump_bars_changed"@ {
        seq![EffectV::Do(Act::SetJumpBars(c.jump_bars))]
    } else if action == "stratum_fallback"@ {
        seq![
            EffectV::Toast(
                "Stratum not compiled — falling back to built-in. Rebuild with `--features stratum` to use it."@,
                4000,
            ),
        ]
    } else if action == "master_limiter_changed"@ {
        seq![EffectV::Do(Act::SyncLimiter)]
    } else if action == "claudedj_changed"@ {
        seq![
            EffectV::Do(Act::SyncClaudeDj),
            EffectV::Toast("AI DJ: "@ + mode_name(c.claude_dj.mode) + " mode"@, 1500),
        ]
    } else if action == "monitor_device_changed"@ {
        seq![
            EffectV::Do(Act::SaveConfig),
            EffectV::Toast("Monitor device changed — restarting to apply…"@, 3000),
            EffectV::With(TextAct::WriteCommand, "{\"restart\":1}"@),
        ]
    } else if action == "output_device_changed"@ {
        seq![
            EffectV::Do(Act::SaveConfig),
            EffectV::Toast("Output device changed — restarting to apply…"@, 3000),
            EffectV::With(TextAct::WriteCommand, "{\"restart\":1}"@),
        ]
    } else {
        Seq::empty()
    }
}

/// What follows from a changed setting: whether another screen takes over, and
/// what is done. Where none does, the configuration is saved.
pub open spec fn setting_effects(action: Option<Seq<char>>, c: AppConfig, signed_in: bool) -> (
    bool,
    Seq<EffectV>,
) {
    let saved = seq![EffectV::Do(Act::SaveConfig), EffectV::Toast("Setting changed"@, 500)];
    match action {
        Some(a) => if a == "pick_genre"@ {
            (true, genre_picker_effects(false, signed_in))
        } else if a == "pick_favorites"@ {
            (true, genre_picker_effects(true, signed_in))
        } else if a == "open_rules_editor"@ {
            (true, seq![EffectV::Do(Act::OpenRulesEditor)])
        } else {
            (false, follow_up(a, c) + saved)
        },
        None => (false, saved),
    }
}

fn two(a: Effect, b: Effect) -> (fx: Vec<Effect>)
    ensures
        fx_view(fx@) == seq![a@, b@],
{
    let mut fx: Vec<Effect> = Vec::new();
    fx.push(a);
    fx.push(b);
    assert(fx_view(fx@) =~= seq![a@, b@]);
    fx
}

fn device_follow_up(text: &str) -> (fx: Vec<Effect>)
    ensures
        fx_view(fx@) == seq![
            EffectV::Do(Act::SaveConfig),
            EffectV::Toast(text@, 3000),
            EffectV::With(TextAct::WriteCommand, "{\"restart\":1}"@),
        ],
{
    let mut fx: Vec<Effect> = act_and_toast(Act::SaveConfig, text, 3000);
    add_text(&mut fx, TextAct::WriteCommand, "{\"restart\":1}");
    assert(fx_view(fx@) =~= seq![
        EffectV::Do(Act::SaveConfig),
        EffectV::Toast(text@, 3000),
        EffectV::With(TextAct::WriteCommand, "{\"restart\":1}"@),
    ]);
    fx
}

fn follow(action: &str, c: &AppConfig) -> (fx: Vec<Effect>)
    ensures
        fx_view(fx@) == follow_up(action@, *c),
{
    if str_eq(action, "logout") {
        let mut fx: Vec<Effect> = two(Effect::Do(Act::LogOut), Effect::Do(Act::ClearBrowseCache));
        add_toast(&mut fx, "Logged out — restart mixr to sign in again", 4000);
        assert(fx_view(fx@) =~= follow_up(action@, *c));
        fx
    } else if str_eq(action, "transitions_changed") {
        only_act(Act::SyncTransitions)
    } else if str_eq(action, "pitch_stretch_changed") {
        only_act(Act::SetPitchStretch(c.pitch_stretch_engine))
    } else if str_eq(action, "train_wreck_changed") {
        only_act(Act::SyncTrainWreck)
    } else if str_eq(action, "rubberband_unavailable") {
        two(
            Effect::Toast(owned("Installing rubberband — this may take a minute…"), 8000),
            Effect::Do(Act::InstallRubberband),
        )
    } else if str_eq(action, "timestretch_unavailable") {
        only_toast("Timestretch needs `cargo build --features timestretch`", 3000)
    } else if str_eq(action, "crossfade_bars_changed") {
        two(
            Effect::Do(Act::SetCrossfadeBars(c.crossfade_bars)),
            Effect::Do(Act::SetCrossfadeBarsAuto(c.crossfade_bars_auto)),
        )
    } else if str_eq(action, "quantize_changed") {
        only_act(Act::SetQuantize { on: c.quantize_on, step: c.quantize_beats })
    } else if str_eq(action, "jump_bars_changed") {
        only_act(Act::SetJumpBars(c.jump_bars))
    } else if str_eq(action, "stratum_fallback") {
        only_toast(
            "Stratum not compiled — falling back to built-in. Rebuild with `--features stratum` to use it.",
            4000,
        )
    } else if str_eq(action, "master_limiter_changed") {
        only_act(Act::SyncLimiter)
    } else if str_eq(action, "claudedj_changed") {
        let text: String = concat3("AI DJ: ", mode_name_of(c.claude_dj.mode), " mode");
        act_and_toast(Act::SyncClaudeDj, text.as_str(), 1500)
    } else if str_eq(action, "monitor_device_changed") {
        device_follow_up("Monitor device changed — restarting to apply…")
    } else if str_eq(action, "output_device_changed") {
        device_follow_up("Output device changed — restarting to apply…")
    } else {
        no_effects()
    }
}

pub open spec fn action_text(a: Option<&'static str>) -> Option<Seq<char>> {
    match a {
        Some(s) => Some(s@),
        None => None,
    }
}

fn settle(action: Option<&'static str>, c: &AppConfig, signed_in: bool) -> (r: (bool, Vec<Effect>))
    ensures
        (r.0, fx_view(r.1@)) == setting_effects(action_text(action), *c, signed_in),
{
    let mut fx: Vec<Effect> = no_effects();
    if let Some(a) = action {
        if str_eq(a, "pick_genre") {
            return (true, open_genre_picker(false, signed_in));
        }
        if str_eq(a, "pick_favorites") {
            return (true, open_genre_picker(true, signed_in));
        }
        if str_eq(a, "open_rules_editor") {
            return (true, only_act(Act::OpenRulesEditor));
        }
        fx = follow(a, c);
    }
    let ghost first = fx_view(fx@);
    add_act(&mut fx, Act::SaveConfig);
    add_toast(&mut fx, "Setting changed", 500);
    assert(fx_view(fx@) =~= first + seq![
        EffectV::Do(Act::SaveConfig),
        EffectV::Toast("Setting changed"@, 500),
    ]);
    assert(action is None ==> first + seq![
        EffectV::Do(Act::SaveConfig),
        EffectV::Toast("Setting changed"@, 500),
    ] =~= seq![EffectV::Do(Act::SaveConfig), EffectV::Toast("Setting changed"@, 500)]);
    (false, fx)
}

/// Applies a choice and says what follows from it; true where another screen
/// takes over.
pub fn apply_and_sync_setting(
    config: &mut AppConfig,
    env: &SettingsEnv,
    key: &str,
    option_idx: usize,
    signed_in: bool,
) -> (r: (bool, Vec<Effect>))
    ensures
        match setting_of(key@) {
            Some(s) => s.applied(option_idx, *env, *old(config), *final(config)) && (
                r.0,
                fx_view(r.1@),
            ) == setting_effects(
                action_text(s.effect(option_idx, *env)),
                *final(config),
                signed_in,
            ),
            None => *final(config) == *old(config) && (r.0, fx_view(r.1@)) == setting_effects(
                None,
                *final(config),
                signed_in,
            ),
        },
{
    let action: Option<&'static str> = apply_setting(config, key, option_idx, env);
    settle(action, config, signed_in)
}

/// Everything the engine and the DJ take from the configuration, handed to
/// them again; then it is saved.
pub open spec fn resync_effects(c: AppConfig) -> Seq<EffectV> {
    seq![
        EffectV::Do(Act::SyncTransitions),
        EffectV::Do(Act::SetPitchStretch(c.pitch_stretch_engine)),
        EffectV::Do(Act::SyncTrainWreck),
        EffectV::Do(Act::SetCrossfadeBars(c.crossfade_bars)),
        EffectV::Do(Act::SetCrossfadeBarsAuto(c.crossfade_bars_auto)),
        EffectV::Do(Act::SetQuantize { on: c.quantize_on, step: c.quantize_beats }),
        EffectV::Do(Act::SetJumpBars(c.jump_bars)),
        EffectV::Do(Act::SyncLimiter),
        EffectV::Do(Act::SyncClaudeDj),
        EffectV::Do(Act::SaveConfig),
    ]
}

pub fn resync_all_engine_settings(c: &AppConfig) -> (fx: Vec<Effect>)
    ensures
        fx_view(fx@) == resync_effects(*c),
{
    let mut fx: Vec<Effect> = no_effects();
    add_act(&mut fx, Act::SyncTransitions);
    add_act(&mut fx, Act::SetPitchStretch(c.pitch_stretch_engine));
    add_act(&mut fx, Act::SyncTrainWreck);
    add_act(&mut fx, Act::SetCrossfadeBars(c.crossfade_bars));
    add_act(&mut fx, Act::SetCrossfadeBarsAuto(c.crossfade_bars_auto));
    add_act(&mut fx, Act::SetQuantize { on: c.quantize_on, step: c.quantize_beats });
    add_act(&mut fx, Act::SetJumpBars(c.jump_bars));
    add_act(&mut fx, Act::SyncLimiter);
    add_act(&mut fx, Act::SyncClaudeDj);
    add_act(&mut fx, Act::SaveConfig);
    assert(fx_view(fx@) =~= resync_effects(*c));
    fx
}

} // verus!
