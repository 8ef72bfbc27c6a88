//! What keys, commands and answers lead to.
use crate::actions::{added_text, alignment_effects, kept_place, nudges, start_at, Decoded};
use crate::app_keys::{palette_step, ran};
use crate::command::{builtin, first_with, CommandRun, CommandV};
use crate::config::AnalyzerEngine;
use crate::deck::NowPlaying;
use crate::dispatch::{
    bail_message, command_effects, command_view, other_engine, rewind_effects, run_of,
    RewindOutcome,
};
use crate::effects::{Act, EffectV, TextAct};
use crate::inputs::{
    ask_step, fav_step, genre_step, playlist_name_step, playlist_step, search_step, GenreChoiceV,
    GenreV, PlaylistV, SearchV, ViewMode,
};
use crate::key::{KeyCode, KeyEvent};
use crate::meters::abs;
use crate::mixer::MixerRow;
use crate::modals::{
    confirm_step, midi_map_step, prompt_step, resume_order, resume_positions, resume_start,
    ConfirmAction, MidiMapV, PaletteV, SessionSnapshot,
};
use crate::overlay_keys::{learn_step, mixer_step, LearnEnv, LearnV, MixerState};
use crate::readings::decimal_reads_back;
use crate::settings::RowV;
use crate::settings_keys::{browsing_cmd, next_option, plain_char_cmd, previous_option, SettingsCmdV};
use crate::text::{decimal, digits_value, trim};
use vstd::prelude::*;

verus! {

/// The first act among some effects.
pub open spec fn first_act(fx: Seq<EffectV>) -> Option<Act> {
    if fx.len() > 0 {
        match fx[0] {
            EffectV::Do(a) => Some(a),
            _ => None,
        }
    } else {
        None
    }
}

/// What a command is called after is what it does.
pub open spec fn does_as_named(id: Seq<char>, run: CommandRun, engine: AnalyzerEngine) -> bool {
    let act = first_act(command_effects(run, engine));
    &&& id == "view.dashboard"@ ==> command_view(run) == Some(ViewMode::Dashboard) && act is None
    &&& id == "view.browse"@ ==> command_view(run) == Some(ViewMode::Browse) && act is None
    &&& id == "view.history"@ ==> command_view(run) == Some(ViewMode::History) && act is None
    &&& id == "view.settings"@ ==> command_view(run) == Some(ViewMode::Settings) && act is None
    &&& id == "view.queue"@ ==> command_view(run) == Some(ViewMode::Queue) && act is None
    &&& id == "view.help"@ ==> run is ToggleHelp && command_view(run) is None && act is None
    &&& id == "app.quit"@ ==> run is Quit && command_view(run) is None && act is None
    &&& id == "engine.bail_crossfade"@ ==> act == Some(Act::BailCrossfade)
    &&& id == "engine.mix_now"@ ==> act == Some(Act::MixNow)
    &&& id == "engine.toggle_split_cue"@ ==> act == Some(Act::ToggleSplitCue)
    &&& id == "engine.toggle_metronome"@ ==> act == Some(Act::ToggleMetronome)
    &&& id == "engine.pause"@ ==> act == Some(Act::Pause)
    &&& id == "engine.skip"@ ==> act == Some(Act::Skip)
    &&& id == "engine.teleport"@ ==> act == Some(Act::Teleport)
    &&& id == "engine.rewind_last"@ ==> act == Some(Act::RequestRewind)
    &&& id == "engine.cycle_analyzer"@ ==> command_effects(run, engine).contains(
        EffectV::Do(Act::Reanalyze(other_engine(engine))),
    )
}

proof fn lemma_ids_tell_apart(i: int, j: int)
    requires
        0 <= i < builtin().len(),
        0 <= j < builtin().len(),
        i != j,
    ensures
        builtin()[i].id@ != builtin()[j].id@,
{
    if i < j {
        crate::keymap_laws::command_ids_are_unique(i, j);
    } else {
        crate::keymap_laws::command_ids_are_unique(j, i);
    }
}

/// Every command does what its id says.
#[verifier::spinoff_prover]
#[verifier::rlimit(60)]
pub proof fn commands_do_as_named(i: int, engine: AnalyzerEngine)
    requires
        0 <= i < builtin().len(),
    ensures
        does_as_named(builtin()[i].id@, builtin()[i].run, engine),
{
    assert forall|j: int| 0 <= j < builtin().len() && j != i implies (#[trigger] builtin()[j]).id@
        != builtin()[i].id@ by {
        lemma_ids_tell_apart(j, i);
    }
    let fx = command_effects(builtin()[i].run, engine);
    if i == 15 {
        assert(fx.contains(fx[1]));
    }
    assert(builtin()[0].id@ == "view.dashboard"@);
    assert(builtin()[1].id@ == "view.browse"@);
    assert(builtin()[2].id@ == "view.history"@);
    assert(builtin()[3].id@ == "view.settings"@);
    assert(builtin()[4].id@ == "view.queue"@);
    assert(builtin()[5].id@ == "app.quit"@);
    assert(builtin()[6].id@ == "view.help"@);
    assert(builtin()[7].id@ == "engine.bail_crossfade"@);
    assert(builtin()[8].id@ == "engine.mix_now"@);
    assert(builtin()[9].id@ == "engine.toggle_split_cue"@);
    assert(builtin()[10].id@ == "engine.toggle_metronome"@);
    assert(builtin()[11].id@ == "engine.pause"@);
    assert(builtin()[12].id@ == "engine.skip"@);
    assert(builtin()[13].id@ == "engine.teleport"@);
    assert(builtin()[14].id@ == "engine.rewind_last"@);
    assert(builtin()[15].id@ == "engine.cycle_analyzer"@);
}

proof fn lemma_first_with(commands: Seq<CommandV>, i: int)
    requires
        0 <= i < commands.len(),
        forall|j: int| 0 <= j < i ==> (#[trigger] commands[j]).id@ != commands[i].id@,
    ensures
        first_with(commands, commands[i].id@) == Some(commands[i]),
    decreases commands.len(),
{
    if i > 0 {
        let rest = commands.skip(1);
        assert(commands[0].id@ != commands[i].id@);
        assert forall|j: int| 0 <= j < i - 1 implies (#[trigger] rest[j]).id@ != rest[i - 1].id@ by {
            assert(rest[j] == commands[j + 1]);
        }
        lemma_first_with(rest, i - 1);
    }
}

/// A command is found by its id.
pub proof fn commands_are_found_by_id(i: int)
    requires
        0 <= i < builtin().len(),
    ensures
        run_of(builtin()[i].id@) == Some(builtin()[i].run),
{
    assert forall|j: int| 0 <= j < i implies (#[trigger] builtin()[j]).id@ != builtin()[i].id@ by {
        lemma_ids_tell_apart(j, i);
    }
    lemma_first_with(builtin(), i);
}

/// A command shows its view and no other, and leaves everything else alone but the
/// analyzer engine where it is to be switched, the legend where it is to be shown.
pub proof fn commands_change_one_thing(a: crate::app::App, run: CommandRun)
    ensures
        command_view(run) matches Some(v) ==> ran(a, run).view == v,
        command_view(run) is None ==> ran(a, run).view == a.view,
        !(run is CycleAnalyzer) ==> ran(a, run).config == a.config,
        run is CycleAnalyzer ==> ran(a, run).config.analyzer_engine != a.config.analyzer_engine,
        run is ToggleHelp <==> ran(a, run).dash.help != a.dash.help,
{
    reveal(crate::app_keys::switched);
}

/// There are two analyzer engines, and switching twice comes back.
pub proof fn engines_alternate(e: AnalyzerEngine)
    ensures
        other_engine(e) != e,
        other_engine(other_engine(e)) == e,
{
}

/// A letter that leaves the settings leads where the same key leads elsewhere.
pub proof fn letters_lead_to_the_same_view(i: int, c: char)
    requires
        0 <= i < builtin().len(),
        command_view(builtin()[i].run) is Some,
        builtin()[i].keys.len() == 1,
        builtin()[i].keys[0]@ == seq![c],
        c != ',',
    ensures
        plain_char_cmd(None, c) == SettingsCmdV::Leave(command_view(builtin()[i].run)->0),
{
    reveal_strlit("d");
    reveal_strlit("b");
    reveal_strlit("h");
    reveal_strlit(",");
    reveal_strlit("q");
    assert(seq![c][0] == c);
    assert("d"@[0] == 'd' && "b"@[0] == 'b' && "h"@[0] == 'h' && ","@[0] == ',' && "q"@[0] == 'q');
}

/// Going to the next option and to the one before it are opposite ways round the
/// options of a row.
pub proof fn options_go_round(r: RowV)
    requires
        0 <= r.current_idx < r.options.len(),
        r.options.len() <= 0xffff,
    ensures
        next_option(r) < r.options.len(),
        previous_option(r) < r.options.len(),
        previous_option(RowV { current_idx: next_option(r) as int, ..r }) == r.current_idx,
        next_option(RowV { current_idx: previous_option(r) as int, ..r }) == r.current_idx,
        r.current_idx + 1 < r.options.len() ==> next_option(r) == r.current_idx + 1,
{
    let n = r.options.len() as int;
    if r.current_idx + 1 < n {
        assert((r.current_idx + 1) % n == r.current_idx + 1) by (nonlinear_arith)
            requires
                0 <= r.current_idx + 1 < n,
        ;
    } else {
        assert(n % n == 0) by (nonlinear_arith)
            requires
                n > 0,
        ;
        assert(((n - 1) + 1) % n == 0);
    }
    if r.current_idx > 0 {
        assert(r.current_idx % n == r.current_idx) by (nonlinear_arith)
            requires
                0 <= r.current_idx < n,
        ;
    }
}

/// The arrows move the cursor of the settings by one row, up and down, and stay on
/// the list.
pub proof fn settings_arrows_move_one_row(
    count: nat,
    row: Option<crate::settings::ItemV>,
    selected: usize,
    up: KeyEvent,
    down: KeyEvent,
)
    requires
        selected < count <= 0xffff,
        up.code is Up,
        down.code is Down,
    ensures
        browsing_cmd(count, row, selected, up) matches SettingsCmdV::Select(i) && (selected > 0
            ==> i == selected - 1) && (selected == 0 ==> i == 0),
        browsing_cmd(count, row, selected, down) matches SettingsCmdV::Select(i) && (selected + 1
            < count ==> i == selected + 1) && (selected + 1 == count ==> i == selected),
{
}

/// Picking a playlist adds the track to the one on that row: its id and its name
/// are of the same playlist.
pub proof fn picked_playlist_is_the_one_on_the_row(p: PlaylistV, proposed: Seq<char>)
    requires
        0 < p.selected <= p.playlists.len(),
    ensures
        ({
            let fx = playlist_step(p, KeyCode::Enter, true, proposed).2;
            let row = p.playlists[p.selected - 1];
            &&& fx.contains(EffectV::Do(Act::PickPlaylist { id: row.id, track: p.track }))
            &&& fx.contains(EffectV::With(TextAct::AddToPlaylist, row.name@))
        }),
{
    let fx = playlist_step(p, KeyCode::Enter, true, proposed).2;
    assert(fx.contains(fx[0]));
    assert(fx.contains(fx[1]));
}

/// A new playlist gets the name typed and the track picked.
pub proof fn new_playlist_gets_its_name(p: PlaylistV, c: char)
    ensures
        playlist_name_step(p, KeyCode::Char(c), true).0 matches Some(q) && q.new_name
            == p.new_name.push(c) && q.track == p.track,
        p.new_name.len() > 0 ==> playlist_name_step(p, KeyCode::Enter, true).2.contains(
            EffectV::With(TextAct::CreateAndAdd, p.new_name),
        ) && playlist_name_step(p, KeyCode::Enter, true).2.contains(
            EffectV::Do(Act::PickTrack(p.track)),
        ),
{
    let fx = playlist_name_step(p, KeyCode::Enter, true).2;
    if p.new_name.len() > 0 {
        assert(fx.contains(fx[0]));
        assert(fx.contains(fx[1]));
    }
}

/// A letter marks the track of the deck of that letter, where there is one.
pub proof fn favorite_is_of_the_deck_named(loaded_a: bool, loaded_b: bool)
    ensures
        loaded_a <==> first_act(fav_step(KeyCode::Char('a'), loaded_a, loaded_b).1) == Some(
            Act::ToggleFavorite { is_a: true },
        ),
        loaded_b <==> first_act(fav_step(KeyCode::Char('b'), loaded_a, loaded_b).1) == Some(
            Act::ToggleFavorite { is_a: false },
        ),
        fav_step(KeyCode::Char('A'), loaded_a, loaded_b) == fav_step(
            KeyCode::Char('a'),
            loaded_a,
            loaded_b,
        ),
        fav_step(KeyCode::Char('B'), loaded_a, loaded_b) == fav_step(
            KeyCode::Char('b'),
            loaded_a,
            loaded_b,
        ),
{
}

/// The genre on the row is the one that becomes the default, or whose mark changes;
/// the other choice stays.
pub proof fn genre_on_the_row_is_chosen(p: GenreV, c: GenreChoiceV)
    requires
        p.selected < p.genres.len(),
    ensures
        ({
            let name = p.genres[p.selected as int].name@;
            let as_default = genre_step(p, false, c, KeyCode::Enter).1;
            let as_favorite = genre_step(p, true, c, KeyCode::Enter).1;
            &&& as_default.default_genre == name && as_default.favorites == c.favorites
            &&& as_favorite.default_genre == c.default_genre
            &&& as_favorite.favorites.contains(name) <==> !c.favorites.contains(name)
        }),
{
    let name = p.genres[p.selected as int].name@;
    if c.favorites.contains(name) {
        lemma_without(c.favorites, name);
    } else {
        assert(c.favorites.push(name).last() == name);
        assert(c.favorites.push(name).contains(name));
    }
}

proof fn lemma_without(names: Seq<Seq<char>>, name: Seq<char>)
    ensures
        !crate::inputs::without(names, name).contains(name),
    decreases names.len(),
{
    if names.len() > 0 {
        let before = crate::inputs::without(names.drop_last(), name);
        lemma_without(names.drop_last(), name);
        if names.last() != name {
            let after = before.push(names.last());
            assert forall|i: int| 0 <= i < after.len() implies after[i] != name by {
                if i < before.len() {
                    assert(before.contains(before[i]));
                }
            }
        }
    }
}

/// What is searched for is what was typed.
pub proof fn search_is_for_what_was_typed(s: SearchV, selected: usize, c: char)
    ensures
        search_step(s, selected, KeyCode::Char(c), true).0.query == s.query.push(c),
        s.query.len() > 0 ==> search_step(s, selected, KeyCode::Enter, true).3.contains(
            EffectV::With(TextAct::Search, s.query),
        ),
        search_step(
            search_step(s, selected, KeyCode::Char(c), true).0,
            selected,
            KeyCode::Backspace,
            true,
        ).0.query == s.query,
{
    let fx = search_step(s, selected, KeyCode::Enter, true).3;
    if s.query.len() > 0 {
        assert(fx.contains(fx[1]));
    }
    assert(s.query.push(c).drop_last() =~= s.query);
}

/// The DJ is asked what was typed.
pub proof fn question_is_what_was_typed(buf: Seq<char>)
    requires
        buf.len() > 0,
    ensures
        ask_step(buf, KeyCode::Enter).0 is None,
        ask_step(buf, KeyCode::Enter).1.contains(EffectV::With(TextAct::SetPrompt, buf)),
        exists|text: Seq<char>|
            #[trigger] ask_step(buf, KeyCode::Enter).1.contains(
                EffectV::With(TextAct::TriggerDj, text),
            ) && crate::mixer_laws::ends_in(text, buf),
{
    let fx = ask_step(buf, KeyCode::Enter).1;
    assert(fx.contains(fx[0]));
    assert(fx.contains(fx[1]));
    let text = "User says: "@ + buf;
    assert(text.skip(text.len() - buf.len()) =~= buf);
    assert(fx[1] == EffectV::With(TextAct::TriggerDj, text));
}

/// What was confirmed is done, and nothing else; what was not is not.
pub proof fn only_what_was_confirmed_is_done(action: ConfirmAction, code: KeyCode, i: int)
    requires
        0 <= i < confirm_step(action, code).1.len(),
    ensures
        confirm_step(action, code).1[i] is Do ==> code == KeyCode::Char('y') || code
            == KeyCode::Char('Y'),
        confirm_step(action, code).1[i] == EffectV::Do(Act::ClearQueue) ==> action is ClearQueue,
        confirm_step(action, code).1[i] == EffectV::Do(Act::SetCrossfader(0)) ==> action
            is ResetAllMixerControls,
        confirm_step(action, KeyCode::Char('y')).0 is None,
{
}

/// Confirming that the queue is to be cleared clears it.
pub proof fn confirmed_queue_is_cleared(code: KeyCode)
    requires
        code == KeyCode::Char('y') || code == KeyCode::Char('Y'),
    ensures
        first_act(confirm_step(ConfirmAction::ClearQueue, code).1) == Some(Act::ClearQueue),
{
}

/// A mapping that is saved binds the action that it was made for, and only after an
/// event was caught.
pub proof fn mapping_binds_its_action(m: MidiMapV, code: KeyCode)
    ensures
        first_act(midi_map_step(m, code).1) matches Some(act) ==> act == Act::BindCaptured(m.action)
            && m.captured is Some && midi_map_step(m, code).0 is None,
        m.captured is Some ==> first_act(midi_map_step(m, KeyCode::Enter).1) == Some(
            Act::BindCaptured(m.action),
        ),
{
}

/// The learn screen binds the action picked.
pub proof fn learning_binds_the_action_picked(s: LearnV, env: LearnEnv, code: KeyCode)
    ensures
        first_act(learn_step(s, env, code).2) matches Some(Act::BindPicked(action)) ==> code is Enter
            && (env.picked matches Some((picked, _)) && picked == action),
        env.latest is Some && !(code is Enter) ==> learn_step(s, env, code).0.captured == Some(
            env.latest->0@,
        ),
        first_act(learn_step(s, env, code).2) == Some(Act::Unbind) ==> code == KeyCode::Char('u')
            || code == KeyCode::Char('U'),
{
}

/// The palette runs the command on the row picked.
pub proof fn palette_runs_the_row_picked(p: PaletteV, key: KeyEvent, shown: Seq<usize>, erased: usize)
    ensures
        palette_step(p, key, shown, erased).1 matches Some(i) ==> key.code is Enter && p.selected
            < shown.len() && i == shown[p.selected as int],
        key.code is Enter && p.selected < shown.len() ==> palette_step(p, key, shown, erased).1
            is Some,
{
}

/// The arrows of the mixer overlay raise and lower the row selected, on the deck
/// selected; Tab changes the deck, and up undoes down.
pub proof fn mixer_keys_work_on_what_is_selected(s: MixerState, info: NowPlaying)
    ensures
        mixer_step(s, info, KeyCode::Right).effects == crate::mixer::row_effects(
            info,
            s.deck_is_a,
            s.row,
            1,
        ),
        mixer_step(s, info, KeyCode::Left).effects == crate::mixer::row_effects(
            info,
            s.deck_is_a,
            s.row,
            -1,
        ),
        mixer_step(s, info, KeyCode::Tab).state == (MixerState { deck_is_a: !s.deck_is_a, ..s }),
        mixer_step(mixer_step(s, info, KeyCode::Up).state, info, KeyCode::Down).state == s,
        s.row is EqLow ==> mixer_step(s, info, KeyCode::Down).state.row == MixerRow::EqMid,
{
}

/// What is submitted is what was typed, without the space around it.
pub proof fn prompt_submits_what_was_typed(buf: Seq<char>, code: KeyCode)
    ensures
        prompt_step(buf, code).1 matches Some(line) ==> code is Enter && line == trim(buf)
            && line.len() > 0,
        trim(buf).len() > 0 ==> prompt_step(buf, KeyCode::Enter).1 is Some,
{
}

/// A track that was coming goes on where it was, behind the one that played.
pub proof fn coming_track_is_resumed(s: SessionSnapshot)
    ensures
        s.incoming matches Some(p) ==> {
            let at = if s.playing is Some {
                1int
            } else {
                0
            };
            resume_order(s)[at] == p.track && resume_positions(s)[at] == (
                p.track.id,
                p.position_ms,
            )
        },
{
}

/// A track goes on where it was as long as half a minute of it is left.
pub proof fn resumed_track_has_time_left(saved: int, total: int, first_beat: int)
    requires
        0 <= saved,
        0 <= first_beat,
        0 <= total,
    ensures
        saved + 30_000 <= total ==> resume_start(saved, total, first_beat) == saved,
        saved > 0 && saved + 30_000 > total ==> resume_start(saved, total, first_beat)
            == first_beat,
{
}

/// The place kept for a track is the one that was put down last, whatever was put
/// down for others.
pub proof fn last_place_is_kept(places: Seq<(i64, u64)>, id: i64, at: u64, other: i64)
    ensures
        kept_place(places.push((id, at)), id) == Some(at),
        other != id ==> kept_place(places.push((id, at)), other) == kept_place(places, other),
{
    assert(places.push((id, at)).drop_last() =~= places);
}

/// A track starts where it is resumed; else a coming one starts on its first beat,
/// unless it is echoed into, and the first one with its first sound.
pub proof fn loaded_track_starts_as_meant(d: Decoded, saved: u64)
    ensures
        saved + 30_000 <= d.total ==> start_at(d, Some(saved)) == saved,
        d.as_incoming && !d.echo_out ==> start_at(d, None) == d.first_beat,
        !d.as_incoming || d.echo_out ==> start_at(d, None) == d.first_audio,
{
}

/// A mix that is off is nudged against the way it is off, once for every five
/// milliseconds begun.
pub proof fn nudges_go_against_the_drift(us: i64, i: int)
    requires
        abs(us as int) > 2000,
        0 <= i < alignment_effects(us, false).len() - 1,
    ensures
        alignment_effects(us, false)[i] matches EffectV::Do(Act::Nudge(n)) && (us > 0 ==> n == -1)
            && (us < 0 ==> n == 1),
        alignment_effects(us, false).len() - 1 == nudges(us),
        nudges(us) * 5000 >= abs(us as int) || nudges(us) == 5,
        (nudges(us) - 1) * 5000 < abs(us as int),
        alignment_effects(us, true).len() == 1,
{
}

/// What a page added, and how many there are then, is what is said.
pub proof fn added_items_are_counted(count: nat, noun: Seq<char>, total: nat)
    ensures
        ({
            let text = added_text(count, noun, total);
            let c = decimal(count).len() as int;
            let t = 1 + c + 1 + noun.len() + 2;
            &&& text[0] == '+'
            &&& digits_value(text.subrange(1, 1 + c)) == count
            &&& digits_value(text.subrange(t, text.len() - 7)) == total
        }),
{
    reveal_strlit("+");
    reveal_strlit(" ");
    reveal_strlit(" (");
    reveal_strlit(" total)");
    decimal_reads_back(count);
    decimal_reads_back(total);
    let text = added_text(count, noun, total);
    let c = decimal(count).len() as int;
    let t = 1 + c + 1 + noun.len() + 2;
    assert("+"@.len() == 1 && " "@.len() == 1 && " ("@.len() == 2 && " total)"@.len() == 7);
    assert(text.subrange(1, 1 + c) =~= decimal(count));
    assert(text.subrange(t, text.len() - 7) =~= decimal(total));
}

/// An exit from a crossfade warns only where there was one; a track is loaded again
/// only where a rewind needs it.
pub proof fn answers_fit_what_happened(bailed: bool, o: RewindOutcome)
    ensures
        bail_message(true) != bail_message(false),
        first_act(rewind_effects(o)) is Some <==> o is NeedLoad,
        o is NeedLoad ==> first_act(rewind_effects(o)) == Some(
            Act::LoadNamed { as_incoming: true },
        ),
{
    reveal_strlit("⚠ Bailed to EchoOut");
    reveal_strlit("Nothing to bail (not crossfading)");
    assert("⚠ Bailed to EchoOut"@[0] == '⚠');
    assert("Nothing to bail (not crossfading)"@[0] == 'N');
}

} // verus!
