//! What remote commands make of the configuration, and of what they name.
use crate::app::{App, KeyEnv};
use crate::catalog::{BrowseScreen, Items};
use crate::config::PitchStretchEngine;
use crate::deck::NowPlaying;
use crate::effects::{Act, EffectV};
use crate::keymap::{lower_all, named_code};
use crate::nav::{BrowseStep, NavV};
use crate::remote::{
    key_named, layout, load_deck_effects, navigate_done, queue_track_effects, quantize_label,
    remote_done, source_named, stretch_label, stretch_named, track_with, IpcCommand,
    Library, RemoteEnv, RootMenu,
};
use crate::rules::RuleConfig;
use crate::sync_laws::agrees;
use crate::text::digits_value;
use crate::track::Track;
use vstd::prelude::*;

verus! {

/// A command that sets something of the configuration by itself.
pub open spec fn sets_config(cmd: IpcCommand) -> bool {
    cmd is SetCrossfade || cmd is PitchStretch || cmd is Quantize || cmd is SetQuality
        || cmd is DjSettings || cmd is MonitorDevice || cmd is LibraryPath
}

/// Whatever a command tells the engine of a setting is what the configuration holds
/// after it, and a configuration that changed is saved.
pub proof fn remote_settings_agree(
    a: App,
    b: App,
    fx: Seq<EffectV>,
    step: BrowseStep,
    root: Option<RootMenu>,
    cmd: IpcCommand,
    env: RemoteEnv,
    keys: KeyEnv,
    info: NowPlaying,
    defaults: RuleConfig,
    i: int,
)
    requires
        remote_done(a, b, fx, step, root, cmd, env, keys, info, defaults),
        sets_config(cmd),
        0 <= i < fx.len(),
    ensures
        fx[i] matches EffectV::Do(act) ==> agrees(act, b.config),
        b.config != a.config ==> fx.contains(EffectV::Do(Act::SaveConfig)),
        b == (App { config: b.config, ..a }),
{
    reveal(crate::remote::with_stretch);
    reveal(crate::remote::with_quantize);
    reveal(crate::dj_app::with_crossfade);
    assert(fx.contains(fx[0]));
}

/// Quantizing from afar sets what was asked for, with a step that is never nothing.
pub proof fn remote_quantizing_is_as_asked(
    a: App,
    b: App,
    fx: Seq<EffectV>,
    step: BrowseStep,
    root: Option<RootMenu>,
    on: bool,
    beats: u64,
    env: RemoteEnv,
    keys: KeyEnv,
    info: NowPlaying,
    defaults: RuleConfig,
)
    requires
        remote_done(
            a,
            b,
            fx,
            step,
            root,
            IpcCommand::Quantize { on, beats },
            env,
            keys,
            info,
            defaults,
        ),
    ensures
        b.config.quantize_on == on,
        beats >= 1000 ==> b.config.quantize_beats == beats,
        b.config.quantize_beats >= 1000,
        fx.contains(EffectV::Do(Act::SetQuantize { on, step: b.config.quantize_beats })),
{
    reveal(crate::remote::with_quantize);
    assert(fx.contains(fx[1]));
}

/// The path of a library goes to that library, and to no other.
pub proof fn library_path_is_of_the_library_named(
    a: App,
    b: App,
    fx: Seq<EffectV>,
    step: BrowseStep,
    root: Option<RootMenu>,
    which: Library,
    path: String,
    env: RemoteEnv,
    keys: KeyEnv,
    info: NowPlaying,
    defaults: RuleConfig,
)
    requires
        remote_done(
            a,
            b,
            fx,
            step,
            root,
            IpcCommand::LibraryPath(which, path),
            env,
            keys,
            info,
            defaults,
        ),
    ensures
        b.config.local_library_dir == (if which is Local {
            path
        } else {
            a.config.local_library_dir
        }),
        b.config.rekordbox_xml == (if which is Rekordbox {
            path
        } else {
            a.config.rekordbox_xml
        }),
        b.config.engine_dj_db == (if which is EngineDj {
            path
        } else {
            a.config.engine_dj_db
        }),
        b.config.serato_db == (if which is Serato {
            path
        } else {
            a.config.serato_db
        }),
        root matches Some(r) && (which is Local ==> (r.local <==> path@.len() > 0)) && (which
            is Rekordbox ==> (r.rekordbox <==> path@.len() > 0)) && (which is EngineDj ==> (r.engine
            <==> path@.len() > 0)) && (which is Serato ==> r.serato == Some(path@.len() > 0)),
{
    reveal(crate::remote::with_library);
}

/// A key goes by the same name from afar as in the table of keys.
pub proof fn keys_go_by_one_name(name: Seq<char>)
    ensures
        key_named(name) matches Some(code) ==> named_code(lower_all(name)) == Some(code),
{
    lemma_key_names();
}

/// Two marks that tell the names of keys apart.
#[verifier::opaque]
spec fn marks(s: Seq<char>) -> (char, char, nat) {
    (s[0], s[1], s.len())
}

proof fn lemma_key_names()
    ensures
        marks("up"@) == ('u', 'p', 2nat),
        marks("down"@) == ('d', 'o', 4nat),
        marks("left"@) == ('l', 'e', 4nat),
        marks("right"@) == ('r', 'i', 5nat),
        marks("enter"@) == ('e', 'n', 5nat),
        marks("return"@) == ('r', 'e', 6nat),
        marks("cr"@) == ('c', 'r', 2nat),
        marks("esc"@) == ('e', 's', 3nat),
        marks("escape"@) == ('e', 's', 6nat),
        marks("tab"@) == ('t', 'a', 3nat),
        marks("backtab"@) == ('b', 'a', 7nat),
        marks("space"@) == ('s', 'p', 5nat),
        marks("backspace"@) == ('b', 'a', 9nat),
        marks("bs"@) == ('b', 's', 2nat),
        marks("delete"@) == ('d', 'e', 6nat),
        marks("del"@) == ('d', 'e', 3nat),
        marks("insert"@) == ('i', 'n', 6nat),
        marks("ins"@) == ('i', 'n', 3nat),
        marks("home"@) == ('h', 'o', 4nat),
        marks("end"@) == ('e', 'n', 3nat),
        marks("pageup"@) == ('p', 'a', 6nat),
        marks("pgup"@) == ('p', 'g', 4nat),
        marks("pagedown"@) == ('p', 'a', 8nat),
        marks("pgdn"@) == ('p', 'g', 4nat),
        marks("pgdown"@) == ('p', 'g', 6nat),
        "pgup"@ != "pgdn"@,
{
    reveal(marks);
    reveal_strlit("up");
    reveal_strlit("down");
    reveal_strlit("left");
    reveal_strlit("right");
    reveal_strlit("enter");
    reveal_strlit("return");
    reveal_strlit("cr");
    reveal_strlit("esc");
    reveal_strlit("escape");
    reveal_strlit("tab");
    reveal_strlit("backtab");
    reveal_strlit("space");
    reveal_strlit("backspace");
    reveal_strlit("bs");
    reveal_strlit("delete");
    reveal_strlit("del");
    reveal_strlit("insert");
    reveal_strlit("ins");
    reveal_strlit("home");
    reveal_strlit("end");
    reveal_strlit("pageup");
    reveal_strlit("pgup");
    reveal_strlit("pagedown");
    reveal_strlit("pgdn");
    reveal_strlit("pgdown");
    assert("pgup"@[2] == 'u' && "pgdn"@[2] == 'd');
}

/// The engine that a word names is shown under that word.
pub proof fn stretch_engine_is_shown_as_named(name: Seq<char>)
    ensures
        stretch_named(name) is Rubberband ==> stretch_label(stretch_named(name)) == "Rubberband"@,
        stretch_named(name) is Timestretch ==> stretch_label(stretch_named(name))
            == "Timestretch"@,
        name == "rubberband"@ ==> stretch_named(name) == PitchStretchEngine::Rubberband,
        name == "timestretch"@ ==> stretch_named(name) == PitchStretchEngine::Timestretch,
        name == "off"@ ==> stretch_named(name) == PitchStretchEngine::Off,
{
    reveal_strlit("rubberband");
    reveal_strlit("rb");
    reveal_strlit("timestretch");
    reveal_strlit("ts");
    reveal_strlit("off");
    assert(lower_all("rubberband"@) =~= "rubberband"@);
    assert(lower_all("timestretch"@) =~= "timestretch"@);
    assert(lower_all("off"@) =~= "off"@);
    assert("rubberband"@.len() == 10 && "rb"@.len() == 2 && "timestretch"@.len() == 11
        && "ts"@.len() == 2 && "off"@.len() == 3);
}

/// The monitor listens to the deck named, or to the one that plays.
pub proof fn monitor_listens_to_what_is_named(playing_is_a: bool)
    ensures
        source_named("a"@, playing_is_a) == source_named("a"@, !playing_is_a),
        source_named("b"@, playing_is_a) == source_named("b"@, !playing_is_a),
        source_named("a"@, playing_is_a) != source_named("b"@, playing_is_a),
        source_named("playing"@, playing_is_a) == source_named(
            if playing_is_a {
                "a"@
            } else {
                "b"@
            },
            playing_is_a,
        ),
{
    reveal_strlit("a");
    reveal_strlit("b");
    reveal_strlit("playing");
    reveal_strlit("incoming");
    reveal_strlit("both");
    assert("a"@[0] == 'a' && "b"@[0] == 'b' && "playing"@[0] == 'p' && "incoming"@[0] == 'i');
    assert("a"@.len() == 1 && "b"@.len() == 1 && "both"@.len() == 4 && "playing"@.len() == 7);
}

/// The track that is loaded is the one selected, onto a deck that does not play.
pub proof fn selected_track_is_loaded(n: NavV, info: NowPlaying, is_a: bool, i: int)
    requires
        0 <= i < load_deck_effects(n, info, is_a).len(),
    ensures
        load_deck_effects(n, info, is_a)[i] matches EffectV::Do(act) ==> !(if is_a {
            info.deck_a.is_playing
        } else {
            info.deck_b.is_playing
        }) && (act matches Act::LoadDeck { index, as_incoming } && index == n.cursor.selected
            && as_incoming == (info.deck_a.is_playing || info.deck_b.is_playing)),
{
}

proof fn lemma_track_with(tracks: Seq<Track>, id: i64, from: int)
    requires
        0 <= from <= tracks.len(),
    ensures
        track_with(tracks, id, from) matches Some(i) ==> from <= i < tracks.len() && tracks[i].id
            == id && forall|j: int| from <= j < i ==> (#[trigger] tracks[j]).id != id,
        track_with(tracks, id, from) is None ==> forall|j: int|
            from <= j < tracks.len() ==> (#[trigger] tracks[j]).id != id,
    decreases tracks.len() - from,
{
    if from < tracks.len() && tracks[from].id != id {
        lemma_track_with(tracks, id, from + 1);
    }
}

/// A track is queued by its id: the one queued has that id, and one that is shown is
/// queued.
pub proof fn queued_track_has_the_id(screen: BrowseScreen, tracks: Seq<Track>, id: i64)
    requires
        screen.items matches Items::Tracks(v) && v@ == tracks,
        tracks.len() <= usize::MAX,
    ensures
        queue_track_effects(screen, id).len() == 1,
        queue_track_effects(screen, id)[0] matches EffectV::Do(act) ==> (act matches Act::Enqueue(i)
            && i < tracks.len() && tracks[i as int].id == id),
        (exists|j: int| 0 <= j < tracks.len() && (#[trigger] tracks[j]).id == id)
            ==> queue_track_effects(screen, id)[0] is Do,
{
    lemma_track_with(tracks, id, 0);
}

/// Up and down move the cursor by one row, back leads to the screen below, and enter
/// steps into the item.
pub proof fn moves_go_their_way(n: NavV, m: NavV, step: crate::nav::BrowseStepV)
    requires
        n.cursor.selected < n.screen().labels@.len(),
        n.screen().labels@.len() <= usize::MAX,
    ensures
        navigate_done(n, m, step, "up"@) && n.cursor.selected > 0 ==> m.cursor.selected
            == n.cursor.selected - 1 && m.stack == n.stack,
        navigate_done(n, m, step, "down"@) && n.cursor.selected + 1 < n.screen().labels@.len()
            ==> m.cursor.selected == n.cursor.selected + 1 && m.stack == n.stack,
        navigate_done(n, m, step, "back"@) ==> m == n.popped() && step is Nothing,
{
    lemma_key_names();
    reveal_strlit("back");
    reveal_strlit("up");
    reveal_strlit("down");
    reveal_strlit("enter");
    assert("back"@[0] == 'b' && "up"@[0] == 'u' && "down"@[0] == 'd' && "enter"@[0] == 'e');
}

/// The step of the quantizer reads as what it is.
pub proof fn quantizer_step_is_read(beats: nat)
    requires
        1 <= beats <= 64,
    ensures
        digits_value(quantize_label((beats * 1_000_000) as u64)) == beats,
        quantize_label(125_000) == "1/8"@,
        quantize_label(250_000) == "1/4"@,
        quantize_label(500_000) == "1/2"@,
{
    crate::readings::decimal_reads_back(beats);
}

/// Every place that has a name is listed where it is, in order.
pub proof fn named_places_are_listed(
    targets: Seq<crate::clicks::ClickTarget>,
    t: crate::clicks::ClickTarget,
)
    ensures
        t.label is None ==> layout(targets.push(t)) == layout(targets),
        t.label matches Some(l) ==> {
            let rows = layout(targets.push(t));
            &&& rows.drop_last() == layout(targets)
            &&& rows.last().label == l && rows.last().x == t.x && rows.last().y == t.y
                && rows.last().w == t.w && rows.last().h == t.h
        },
{
    assert(targets.push(t).drop_last() =~= targets);
    assert(targets.push(t).last() == t);
    if t.label is Some {
        assert(layout(targets.push(t)).drop_last() =~= layout(targets));
    }
}

} // verus!
