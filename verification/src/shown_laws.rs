//! What a key may change, and what the colours and bars show.
use crate::app::{route, App, KeyEnv};
use crate::app_keys::{key_done, resume_done, rules_done};
use crate::clicks::ClickAction;
use crate::controller::{compare_places, title_line};
use crate::controls::{CtrlSection, WaveformMode};
use crate::deck::NowPlaying;
use crate::effects::{Act, EffectV};
use crate::hints::outer_title;
use crate::inputs::ViewMode;
use crate::key::{KeyCode, KeyEvent};
use crate::meters::{
    abs, aligned_color, beat_span, filled, phase_color, progress_line, vu_span,
};
use crate::modals::confirm_decision;
use crate::panels::Area;
use crate::rules::RuleConfig;
use crate::style::{Color, SpanV, Style};
use vstd::prelude::*;

verus! {

/// A key changes the configuration only on the settings, on a genre picker or by a
/// command; it moves in the lists only where lists are shown; and what waits for
/// the answer to a question stays while another screen reads keys.
pub proof fn keys_change_what_they_go_to(
    a: App,
    b: App,
    fx: Seq<EffectV>,
    key: KeyEvent,
    env: KeyEnv,
    info: NowPlaying,
    defaults: RuleConfig,
)
    requires
        key_done(a, b, fx, key, env, info, defaults),
    ensures
        ({
            let to = route(a, key);
            let runs = to is Command || to is Palette;
            &&& b.config != a.config ==> runs || to is Settings || to is Genre
            &&& b.nav != a.nav ==> runs || to is Filter || to is Search || to is Settings
                || to is Scroll
            &&& b.to_queue@ != a.to_queue@ ==> runs || to is Resume
            &&& b.saved_rules != a.saved_rules ==> runs || to is Rules
            &&& b.mixer != a.mixer ==> runs || to is Mixer
            &&& b.playlist != a.playlist ==> runs || to is PlaylistName || to is Playlist
            &&& b.editing != a.editing ==> runs || to is Settings
        }),
{
}

/// Resuming queues the tracks of the session and counts them; declining deletes the
/// session and queues nothing.
pub proof fn session_is_resumed_or_deleted(a: App, b: App, fx: Seq<EffectV>, code: KeyCode)
    requires
        resume_done(a, b, fx, code),
    ensures
        confirm_decision(code) is Commit ==> !b.asks_resume && !fx.contains(
            EffectV::Do(Act::DeleteSession),
        ) && (a.session matches Some(s) ==> b.session is None && b.to_queue@.len()
            == a.to_queue@.len() + crate::modals::resume_order(s).len() && a.to_queue@
            == b.to_queue@.take(a.to_queue@.len() as int)),
        confirm_decision(code) is Cancel ==> !b.asks_resume && b.session is None && fx.contains(
            EffectV::Do(Act::DeleteSession),
        ) && b.to_queue == a.to_queue && b.positions == a.positions,
        confirm_decision(code) is Ignore ==> b == a && fx.len() == 0,
{
    if confirm_decision(code) is Cancel {
        assert(fx.contains(fx[0]));
    }
    if let Some(s) = a.session {
        if confirm_decision(code) is Commit {
            assert(b.to_queue@.take(a.to_queue@.len() as int) =~= a.to_queue@);
        }
    }
}

/// Rules go to the engine only when the editor closes with changes; it closes to the
/// settings.
pub proof fn rules_go_to_the_engine_when_changed(
    a: App,
    b: App,
    fx: Seq<EffectV>,
    code: KeyCode,
    defaults: RuleConfig,
)
    requires
        rules_done(a, b, fx, code, defaults),
    ensures
        fx.contains(EffectV::Do(Act::SyncRules)) ==> b.saved_rules is Some && b.rules is None,
        fx.len() > 0 ==> fx.contains(EffectV::Do(Act::SyncRules)),
        a.rules is Some && b.rules is None ==> b.view is Settings,
        b.rules is Some ==> b.view == a.view && b.saved_rules == a.saved_rules,
{
    if fx.len() > 0 {
        assert(fx.contains(fx[0]));
    }
}

/// How far off a colour is: the further, the worse.
pub open spec fn badness(c: Color) -> int {
    match c {
        Color::Green => 0,
        Color::Yellow => 1,
        _ => 2,
    }
}

/// The further two beats are apart, the worse the colour; ahead and behind are
/// shown alike, and a beat on the wrong count is never shown as good.
pub proof fn worse_phase_looks_worse(us: int, more: int)
    requires
        abs(us) <= abs(more),
    ensures
        badness(phase_color(us)) <= badness(phase_color(more)),
        phase_color(us) == phase_color(-us),
        phase_color(0) is Green,
        abs(more) >= 15000 ==> phase_color(more) is Red,
        badness(aligned_color(us, true)) <= badness(aligned_color(us, false)),
        badness(aligned_color(us, false)) > 0,
{
}

/// A level meter is lit from the bottom: what is below a lit row is lit, and red
/// shows only at the top.
pub proof fn meters_are_lit_from_the_bottom(row: int, below: int, lit: int, rows: int)
    requires
        0 <= below <= row < rows,
    ensures
        vu_span(row, lit, rows).text == "█"@ ==> vu_span(below, lit, rows).text == "█"@,
        vu_span(row, lit, rows).text == "█"@ <==> row < lit,
        vu_span(row, lit, rows).style.fg == Some(Color::Red) ==> row == rows - 1 && row < lit,
{
    reveal_strlit("█");
    reveal_strlit("░");
    assert("█"@[0] != "░"@[0]);
}

/// Every fourth dot stands for the first beat of a bar; while a deck plays, the dot
/// on the middle row is that of the beat it is on.
pub proof fn downbeats_are_filled(
    row: int,
    center: int,
    both: bool,
    us: int,
    beat: int,
    aligned: bool,
)
    ensures
        beat_span(center, center, true, true, both, us, beat, aligned).text == "●"@ <==> beat % 4
            == 0,
        beat_span(row, center, true, true, both, us, beat, aligned).text == beat_span(
            row + 4,
            center,
            true,
            true,
            both,
            us,
            beat,
            aligned,
        ).text,
        beat_span(row, center, true, true, both, us, beat + 1, aligned).text == beat_span(
            row + 1,
            center,
            true,
            true,
            both,
            us,
            beat,
            aligned,
        ).text,
        beat_span(center, center, false, true, both, us, beat, aligned).text == "●"@,
{
    reveal_strlit("●");
    reveal_strlit("○");
    assert("●"@[0] != "○"@[0]);
}

/// The width of a run of spans.
pub open spec fn width(s: Seq<SpanV>) -> nat
    decreases s.len(),
{
    if s.len() == 0 {
        0
    } else {
        width(s.drop_last()) + s.last().text.len()
    }
}

proof fn lemma_width_push(s: Seq<SpanV>, x: SpanV)
    ensures
        width(s.push(x)) == width(s) + x.text.len(),
{
    assert(s.push(x).drop_last() =~= s);
}

/// A progress bar without a mix is as wide as its place, and as much of it is filled
/// as was played.
pub proof fn progress_bar_fills_up(time: nat, total: nat, w: nat)
    requires
        0 < filled(time, total, w) < w,
    ensures
        ({
            let bar = progress_line(time, total, w, None);
            &&& bar.len() == 2
            &&& width(bar) == w
            &&& bar[0].text.len() == filled(time, total, w)
            &&& bar[0].style.fg == Some(Color::Green)
            &&& forall|i: int| 0 <= i < bar[0].text.len() ==> #[trigger] bar[0].text[i] == '█'
            &&& forall|i: int| 0 <= i < bar[1].text.len() ==> #[trigger] bar[1].text[i] == '░'
        }),
{
    let bar = progress_line(time, total, w, None);
    let none = Seq::<SpanV>::empty();
    lemma_width_push(none, bar[0]);
    lemma_width_push(none.push(bar[0]), bar[1]);
    assert(none.push(bar[0]).push(bar[1]) =~= bar);
    assert(width(none) == 0);
}

/// A click on the waveform of a deck zooms that of this deck, and only the one that
/// is shown can be clicked.
pub proof fn zoomed_waveform_is_the_one_clicked(
    info: NowPlaying,
    mode: WaveformMode,
    zoom: Option<bool>,
    area: Area,
    top: nat,
    i: int,
)
    requires
        0 <= i < compare_places(info, mode, zoom, area, top).len(),
    ensures
        ({
            let places = compare_places(info, mode, zoom, area, top);
            &&& zoom matches Some(is_a) ==> places.len() == 1 && places[0].action
                == ClickAction::WaveformZoom(is_a)
            &&& zoom is None ==> places.len() == 2 && places[i].action
                == ClickAction::WaveformZoom(i == 0)
        }),
{
}

/// The title of the controller ends in the name of the control that has the focus.
pub proof fn focus_is_named_in_the_title(s: CtrlSection, w: nat, border: Style)
    ensures
        title_line(Some(s), w, border).len() == 4,
        title_line(Some(s), w, border)[2].text == " "@ + ("active: "@ + s.spec_display_name()@)
            + " "@,
        title_line(None, w, border).len() == 3,
{
}

/// The screens have titles of their own.
pub proof fn screens_are_titled_by_their_view(
    crumb: Seq<char>,
    pos: Seq<char>,
    favorites: nat,
)
    ensures
        outer_title(ViewMode::Mixer, crumb, pos, favorites)[2] == 'i',
        outer_title(ViewMode::TransitionRules, crumb, pos, favorites)[1] == 'T',
        outer_title(ViewMode::ClaudeDj, crumb, pos, favorites)[2] == 'I',
        outer_title(ViewMode::MidiLearn, crumb, pos, favorites)[2] == 'I',
        outer_title(ViewMode::PlaylistPicker, crumb, pos, favorites)[2] == 'd',
        outer_title(ViewMode::PlaylistNameInput, crumb, pos, favorites)[1] == 'N',
        outer_title(ViewMode::Queue, crumb, pos, favorites)[1] == 'Q',
        outer_title(ViewMode::History, crumb, pos, favorites)[1] == 'H',
        outer_title(ViewMode::Dashboard, crumb, pos, favorites)[1] == 'D',
{
    reveal_strlit(" Mixer ");
    reveal_strlit(" Transition Rules ");
    reveal_strlit(" AI DJ ");
    reveal_strlit(" MIDI Learn ");
    reveal_strlit(" Add to Playlist ");
    reveal_strlit(" New Playlist Name ");
    reveal_strlit(" Queue");
    reveal_strlit(" History ");
    reveal_strlit(" Dashboard ");
    assert(" Queue"@.len() == 6);
}

} // verus!
