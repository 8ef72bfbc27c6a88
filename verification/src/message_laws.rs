//! What is said agrees with what is done.
use crate::act_kinds::{act_amount, act_deck};
use crate::app::App;
use crate::clicks::ClickAction;
use crate::config::{AnalyzerEngine, ClaudeDjMode};
use crate::control_rows::{mix_label, mix_status};
use crate::deck::NowPlaying;
use crate::dispatch::reanalyze_message;
use crate::dj_context::{phrase_at, phrase_report, remaining_ms};
use crate::effects::{Act, EffectV};
use crate::frame::incoming_text;
use crate::inputs::favorite_message;
use crate::mixer::{control_effects, deck_letter, jump_effects};
use crate::mixer_laws::ends_in;
use crate::modals::{resume_question, session_size, SessionSnapshot};
use crate::mouse::click_done;
use crate::nav::BrowseStep;
use crate::numbers::{plain1, plain2, plain3, signed2};
use crate::place_laws::click_deck;
use crate::readings::decimal_reads_back;
use crate::remote::{library_label, quantize_message, Library};
use crate::remote_deck::{deck_effects, DeckCommand};
use crate::report_laws::starts_with;
use crate::text::{decimal, digits_value, signed_decimal};
use crate::ticks::{call_reason, stalled_reason, sweep_target, DjCall};
use crate::track::{bpm_whole, track_name, Track};
use vstd::prelude::*;

verus! {

/// The message of some effects, where the last of them is one.
pub open spec fn said(fx: Seq<EffectV>) -> Seq<char> {
    fx.last()->Toast_0
}

proof fn lemma_ends_in(s: Seq<char>, tail: Seq<char>)
    ensures
        ends_in(s + tail, tail),
{
    let whole = s + tail;
    assert(whole.skip(whole.len() - tail.len()) =~= tail);
}

/// A message about an amount ends in the amount that was set.
#[verifier::spinoff_prover]
#[verifier::rlimit(40)]
pub proof fn remote_messages_give_the_amount(c: DeckCommand)
    ensures
        ({
            let text = said(deck_effects(c));
            match c {
                DeckCommand::SetCrossfader(pos) => ends_in(text, signed2(pos as int)),
                DeckCommand::MasterGain(g) => ends_in(text, plain2(g as int)),
                DeckCommand::SetDeckFilter { pos, .. } => ends_in(text, signed2(pos as int)),
                DeckCommand::SetChannelFader { level, .. } => ends_in(text, plain2(level as int)),
                DeckCommand::SetRate { rate, .. } => ends_in(text, plain3(rate as int)),
                DeckCommand::Extend(bars) => ends_in(text, signed_decimal(bars as int) + " bars"@),
                DeckCommand::SetMixIn(t) => ends_in(text, plain1(t as int) + "s"@),
                DeckCommand::SeekDeck { time, .. } => ends_in(text, plain1(time as int) + "s"@),
                DeckCommand::DelaySamples { samples, .. } => ends_in(text, decimal(samples as nat)),
                DeckCommand::DelayFeedback { value, .. } => ends_in(text, plain2(value as int)),
                _ => true,
            }
        }),
{
    let text = said(deck_effects(c));
    match c {
        DeckCommand::SetCrossfader(pos) => {
            lemma_ends_in("Crossfader: "@, signed2(pos as int));
        },
        DeckCommand::MasterGain(g) => {
            lemma_ends_in("Master gain: "@, plain2(g as int));
        },
        DeckCommand::SetDeckFilter { pos, .. } => {
            let tail = signed2(pos as int);
            assert(text.skip(text.len() - tail.len()) =~= tail);
        },
        DeckCommand::SetChannelFader { level, .. } => {
            let tail = plain2(level as int);
            assert(text.skip(text.len() - tail.len()) =~= tail);
        },
        DeckCommand::SetRate { rate, .. } => {
            let tail = plain3(rate as int);
            assert(text.skip(text.len() - tail.len()) =~= tail);
        },
        DeckCommand::Extend(bars) => {
            let tail = signed_decimal(bars as int) + " bars"@;
            assert(text.skip(text.len() - tail.len()) =~= tail);
        },
        DeckCommand::SetMixIn(t) => {
            let tail = plain1(t as int) + "s"@;
            assert(text.skip(text.len() - tail.len()) =~= tail);
        },
        DeckCommand::SeekDeck { time, .. } => {
            let tail = plain1(time as int) + "s"@;
            assert(text.skip(text.len() - tail.len()) =~= tail);
        },
        DeckCommand::DelaySamples { samples, .. } => {
            let tail = decimal(samples as nat);
            assert(text.skip(text.len() - tail.len()) =~= tail);
        },
        DeckCommand::DelayFeedback { value, .. } => {
            let tail = plain2(value as int);
            assert(text.skip(text.len() - tail.len()) =~= tail);
        },
        _ => {},
    }
}

/// A click on a button of a deck works on that deck, for as many beats as the button
/// stands for, and says so.
pub proof fn clicks_work_on_their_deck(
    a: App,
    b: App,
    fx: Seq<EffectV>,
    step: BrowseStep,
    action: ClickAction,
    col: u16,
    row: u16,
    i: int,
)
    requires
        click_done(a, b, fx, step, action, col, row),
        0 <= i < fx.len(),
    ensures
        fx[i] matches EffectV::Do(act) ==> (act_deck(act) is Some ==> act_deck(act) == click_deck(
            action,
        )),
        action matches ClickAction::LoopEngageDeck { is_a, beats } ==> fx[0] == EffectV::Do(
            (Act::LoopEngage { is_a, beats }),
        ) && starts_with(said(fx), "Deck "@ + deck_letter(is_a)) && ends_in(
            said(fx),
            decimal(beats as nat) + " beats"@,
        ),
        action matches ClickAction::LoopOffDeck { is_a } ==> fx[0] == EffectV::Do(
            (Act::LoopDisengage { is_a }),
        ) && starts_with(said(fx), "Deck "@ + deck_letter(is_a)),
        action is CycleJumpBars ==> fx.contains(EffectV::Do(Act::SetJumpBars(b.config.jump_bars))),
        action matches ClickAction::FocusDashSection(s) ==> b.dash.section == s,
        action matches ClickAction::SetSelected(k) ==> b.nav.cursor.selected == k,
{
    reveal(crate::mouse::with_jump);
    match action {
        ClickAction::LoopEngageDeck { is_a, beats } => {
            let text = said(fx);
            let head = "Deck "@ + deck_letter(is_a);
            let tail = decimal(beats as nat) + " beats"@;
            assert(text.take(head.len() as int) =~= head);
            assert(text.skip(text.len() - tail.len()) =~= tail);
        },
        ClickAction::LoopOffDeck { is_a } => {
            let text = said(fx);
            let head = "Deck "@ + deck_letter(is_a);
            assert(text.take(head.len() as int) =~= head);
        },
        ClickAction::CycleJumpBars => {
            assert(fx.contains(fx[1]));
        },
        _ => {},
    }
}

/// A jump says which deck it was asked on, which way it goes and how far.
pub proof fn jumps_say_which_way(is_a: bool, forward: bool, bars: int)
    requires
        1 <= bars <= 64,
    ensures
        ({
            let fx = jump_effects(
                is_a,
                if forward {
                    1
                } else {
                    -1
                },
                bars,
            );
            &&& fx[0] matches EffectV::Do(act) && act_amount(act) == Some(
                if forward {
                    bars
                } else {
                    -bars
                },
            )
            &&& starts_with(said(fx), deck_letter(is_a))
            &&& said(fx)[2] == (if forward {
                '▶'
            } else {
                '◀'
            })
            &&& ends_in(said(fx), decimal(bars as nat) + " bars"@)
        }),
{
    reveal_strlit("A");
    reveal_strlit("B");
    reveal_strlit(" ");
    reveal_strlit("▶▶");
    reveal_strlit("◀◀");
    let d: int = if forward {
        1
    } else {
        -1
    };
    let fx = jump_effects(is_a, d, bars);
    let text = said(fx);
    let tail = decimal(bars as nat) + " bars"@;
    assert("A"@.len() == 1 && "B"@.len() == 1 && " "@.len() == 1);
    assert(text.take(deck_letter(is_a).len() as int) =~= deck_letter(is_a));
    assert(text.skip(text.len() - tail.len()) =~= tail);
    assert(1 * bars == bars && (-1) * bars == -bars) by (nonlinear_arith);
}

/// A volume that is set from the controller is named after its deck and said to be
/// what it is.
pub proof fn volumes_are_said_as_set(
    info: NowPlaying,
    right: bool,
    jump_bars: int,
    tempo_range: int,
)
    ensures
        ({
            let d = if right {
                1
            } else {
                -1int
            };
            let va = said(control_effects(
                info,
                crate::controls::CtrlSection::VolumeA,
                d,
                jump_bars,
                tempo_range,
            ));
            let vb = said(control_effects(
                info,
                crate::controls::CtrlSection::VolumeB,
                d,
                jump_bars,
                tempo_range,
            ));
            &&& va[4] == 'A' && vb[4] == 'B'
            &&& va.len() == vb.len()
            &&& va[7] == (if right {
                '1'
            } else {
                '0'
            })
            &&& vb[7] == va[7]
        }),
{
    reveal_strlit("Vol A: 100%");
    reveal_strlit("Vol A: 0%");
    reveal_strlit("Vol B: 100%");
    reveal_strlit("Vol B: 0%");
    assert("Vol A: 100%"@.len() == 11 && "Vol A: 0%"@.len() == 9 && "Vol B: 100%"@.len() == 11
        && "Vol B: 0%"@.len() == 9);
}

/// A favourite that was added is starred in the message, one that was removed is not.
pub proof fn favorites_say_what_changed(name: Seq<char>, added: bool)
    ensures
        favorite_message(name, added)[0] == '★' <==> added,
        ends_in(favorite_message(name, added), name),
{
    reveal_strlit("★ ");
    reveal_strlit("Unfavorited: ");
    lemma_ends_in("★ "@, name);
    lemma_ends_in("Unfavorited: "@, name);
}

/// The engine that analysed again is named, with the tempo that it found.
pub proof fn reanalysis_names_the_engine(engine: AnalyzerEngine, compiled: bool, bpm: u32)
    ensures
        reanalyze_message(engine, compiled, Some(bpm)) matches EffectV::Toast(text, _) && (text[8]
            == 's' <==> engine is Stratum) && (text[8] == 'b' <==> engine is Builtin) && ends_in(
            text,
            crate::track::bpm_tenths(bpm) + " BPM"@,
        ),
{
    reveal_strlit("Engine: ");
    reveal_strlit("built-in");
    reveal_strlit("stratum");
    assert("Engine: "@.len() == 8);
    if let EffectV::Toast(text, _) = reanalyze_message(engine, compiled, Some(bpm)) {
        let tail = crate::track::bpm_tenths(bpm) + " BPM"@;
        assert(text.skip(text.len() - tail.len()) =~= tail);
    }
}

/// The stretch that is reported is one of the track that plays.
pub proof fn reported_phrase_is_of_what_plays(info: NowPlaying)
    ensures
        ({
            let deck = if info.playing_is_a {
                info.deck_a
            } else {
                info.deck_b
            };
            match deck.analysis {
                Some(x) => match phrase_at(x.phrases@, info.playing_time_ms) {
                    Some(p) => starts_with(phrase_report(info), p.kind@ + " (started "@),
                    None => phrase_report(info) == "unknown"@,
                },
                None => phrase_report(info) == "unknown"@,
            }
        }),
{
    let deck = if info.playing_is_a {
        info.deck_a
    } else {
        info.deck_b
    };
    if let Some(x) = deck.analysis {
        if let Some(p) = phrase_at(x.phrases@, info.playing_time_ms) {
            let head = p.kind@ + " (started "@;
            assert(phrase_report(info).take(head.len() as int) =~= head);
        }
    }
}

/// What is left of a track and what was played of it make up its length; as time goes
/// on less is left.
pub proof fn remaining_time_runs_down(info: NowPlaying, later: NowPlaying)
    requires
        info.playing_duration_ms == later.playing_duration_ms,
        info.playing_time_ms <= later.playing_time_ms,
    ensures
        remaining_ms(info) + info.playing_time_ms == info.playing_duration_ms,
        remaining_ms(later) <= remaining_ms(info),
{
}

/// The countdown is that to the mix point, at the tempo that plays.
pub proof fn countdown_is_to_the_mix_point(info: NowPlaying, m: u64)
    requires
        !info.crossfading,
        info.mix_point_ms == Some(m),
        m > info.playing_time_ms,
    ensures
        mix_status(info) == Some(
            mix_label((m - info.playing_time_ms) as nat, info.playing_bpm),
        ),
{
}

/// A track that is brought to another tempo shows its own tempo before that one.
pub proof fn tempo_change_leads_from_own_to_playing(
    inc: Track,
    native: u32,
    playing: u32,
    progress: u32,
)
    requires
        inc.bpm == Some(native),
        native > playing + 500 || playing > native + 500,
    ensures
        starts_with(
            incoming_text(inc, Some(playing), progress),
            "◀ "@ + track_name(inc) + "  "@ + bpm_whole(native) + "→"@ + bpm_whole(playing)
                + " BPM"@,
        ),
{
    let text = incoming_text(inc, Some(playing), progress);
    let head = "◀ "@ + track_name(inc) + "  "@ + bpm_whole(native) + "→"@ + bpm_whole(playing)
        + " BPM"@;
    assert(text.take(head.len() as int) =~= head);
}

/// The quantizer is said to be on when it is.
pub proof fn quantizing_is_said(on: bool, beats: u64)
    ensures
        quantize_message(on, beats)[10] == (if on {
            'n'
        } else {
            'f'
        }),
{
    reveal_strlit("Quantize ");
    reveal_strlit("on");
    reveal_strlit("off");
    assert("Quantize "@.len() == 9 && "on"@.len() == 2 && "off"@.len() == 3);
}

/// The libraries go by their own names.
pub proof fn libraries_go_by_their_name(which: Library)
    ensures
        library_label(which)[0] == 'L' <==> which is Local,
        library_label(which)[0] == 'R' <==> which is Rekordbox,
        library_label(which)[0] == 'E' <==> which is EngineDj,
        library_label(which)[0] == 'S' <==> which is Serato,
{
    reveal_strlit("Local library: ");
    reveal_strlit("Rekordbox XML: ");
    reveal_strlit("Engine DJ DB: ");
    reveal_strlit("Serato DB: ");
}

/// The question whether to resume counts the tracks of the session.
pub proof fn question_counts_the_session(s: SessionSnapshot)
    ensures
        ({
            let n = decimal(session_size(s)).len() as int;
            digits_value(resume_question(s).subrange(21, 21 + n)) == session_size(s)
        }),
{
    reveal_strlit("Resume last session (");
    decimal_reads_back(session_size(s));
    let n = decimal(session_size(s)).len() as int;
    assert("Resume last session ("@.len() == 21);
    assert(resume_question(s).subrange(21, 21 + n) =~= decimal(session_size(s)));
}

/// The DJ is told to sweep to the side of the deck that does not play: in the reason
/// for a crossfade that stalled, that is the last thing said.
pub proof fn stalled_crossfade_names_the_side(info: NowPlaying, mode: ClaudeDjMode)
    ensures
        call_reason(DjCall::Stalled, info, mode) == stalled_reason(info),
        ends_in(stalled_reason(info), sweep_target(info.playing_is_a) + "."@),
        starts_with(
            stalled_reason(info),
            "URGENT: crossfade stalled. Deck "@ + deck_letter(info.playing_is_a),
        ),
{
    let text = stalled_reason(info);
    let tail = sweep_target(info.playing_is_a) + "."@;
    let head = "URGENT: crossfade stalled. Deck "@ + deck_letter(info.playing_is_a);
    assert(text.skip(text.len() - tail.len()) =~= tail);
    assert(text.take(head.len() as int) =~= head);
}

/// What a control of a deck says names that deck.
pub proof fn tempo_controls_name_their_deck(
    info: NowPlaying,
    direction: int,
    jump_bars: int,
    tempo_range: int,
)
    ensures
        starts_with(
            said(control_effects(
                info,
                crate::controls::CtrlSection::TempoA,
                direction,
                jump_bars,
                tempo_range,
            )),
            "Tempo A: "@,
        ),
        starts_with(
            said(control_effects(
                info,
                crate::controls::CtrlSection::TempoB,
                direction,
                jump_bars,
                tempo_range,
            )),
            "Tempo B: "@,
        ),
{
    let ta = said(control_effects(
        info,
        crate::controls::CtrlSection::TempoA,
        direction,
        jump_bars,
        tempo_range,
    ));
    let tb = said(control_effects(
        info,
        crate::controls::CtrlSection::TempoB,
        direction,
        jump_bars,
        tempo_range,
    ));
    assert(ta.take("Tempo A: "@.len() as int) =~= "Tempo A: "@);
    assert(tb.take("Tempo B: "@.len() as int) =~= "Tempo B: "@);
}

} // verus!
