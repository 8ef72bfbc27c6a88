//! What the DJ is answered is what was done.
use crate::act_kinds::{act_amount, act_deck};
use crate::app::App;
use crate::deck::NowPlaying;
use crate::dj_app::{tool_done, ToolOutV};
use crate::dj_laws::{lemma_tool_marks, named_deck};
use crate::dj_tools::{AnswerV, ToolCall};
use crate::effects::EffectV;
use crate::mixer::deck_letter;
use crate::mixer_laws::ends_in;
use crate::numbers::{plain2, shortest, signed2, signed_whole_number};
use crate::report_laws::starts_with;
use crate::text::{decimal, signed_decimal};
use vstd::prelude::*;

verus! {

/// The act that a tool comes to, where it comes to just one.
pub open spec fn only_act(o: ToolOutV) -> crate::effects::Act {
    o.effects[0]->Do_0
}

/// An answer in words names the deck that was worked on, where the act names one.
#[verifier::spinoff_prover]
#[verifier::rlimit(60)]
pub proof fn answers_name_the_deck(
    a: App,
    b: App,
    o: ToolOutV,
    tool: ToolCall,
    info: NowPlaying,
    signed_in: bool,
    deck: bool,
)
    requires
        tool_done(a, b, o, tool, info, signed_in),
        o.effects.len() == 1,
        o.effects[0] is Do,
        act_deck(only_act(o)) == Some(deck),
    ensures
        match o.answer {
            AnswerV::Text(text) => starts_with(text, "EQ "@ + deck_letter(deck)) || starts_with(
                text,
                "Filter "@ + deck_letter(deck),
            ) || starts_with(text, "Loop "@ + deck_letter(deck)) || starts_with(
                text,
                "Deck "@ + deck_letter(deck),
            ) || ends_in(text, "deck "@ + deck_letter(deck)) || ends_in(
                text,
                "("@ + deck_letter(deck) + ")"@,
            ),
            AnswerV::SeekNamed(d, _) => d == deck,
            AnswerV::Preview(d) => d == deck,
            AnswerV::Play(d) => d == deck,
            _ => false,
        },
{
    lemma_tool_marks();
    let l = deck_letter(deck);
    reveal_strlit("Preview stopped: deck ");
    reveal_strlit("deck ");
    assert("Preview stopped: deck "@.len() == 22 && "deck "@.len() == 5);
    reveal_strlit(" (");
    reveal_strlit("(");
    assert(" ("@.len() == 2 && "("@.len() == 1);
    if let AnswerV::Text(text) = o.answer {
        let name = tool.name@;
        if name == "set_eq"@ {
            let head = "EQ "@ + l;
            assert(text.take(head.len() as int) =~= head);
        } else if name == "set_filter"@ {
            let head = "Filter "@ + l;
            assert(text.take(head.len() as int) =~= head);
        } else if name == "loop_beats"@ || name == "loop_release"@ {
            let head = "Loop "@ + l;
            assert(text.take(head.len() as int) =~= head);
        } else if name == "stop_preview"@ {
            let tail = "deck "@ + l;
            assert(text.skip(text.len() - tail.len()) =~= tail);
        } else if name == "cue"@ {
            let tail = "("@ + l + ")"@;
            assert(text.skip(text.len() - tail.len()) =~= tail);
        } else {
            let head = "Deck "@ + l;
            assert(text.take(head.len() as int) =~= head);
        }
    }
}

/// An answer in words gives the amount that was set.
#[verifier::spinoff_prover]
#[verifier::rlimit(60)]
pub proof fn answers_give_the_amount(
    a: App,
    b: App,
    o: ToolOutV,
    tool: ToolCall,
    info: NowPlaying,
    signed_in: bool,
)
    requires
        tool_done(a, b, o, tool, info, signed_in),
    ensures
        ({
            let name = tool.name@;
            let n = act_amount(only_act(o))->0;
            &&& name == "set_filter"@ || name == "set_crossfader"@ ==> (o.answer matches AnswerV::Text(
                text,
            ) && ends_in(text, signed2(n)))
            &&& name == "set_channel_fader"@ ==> (o.answer matches AnswerV::Text(text) && ends_in(
                text,
                plain2(n),
            ))
            &&& name == "jump_beats"@ ==> (o.answer matches AnswerV::Text(text) && ends_in(
                text,
                signed_whole_number(n) + " beats"@,
            ))
            &&& name == "extend_playback"@ ==> (o.answer matches AnswerV::Text(text) && ends_in(
                text,
                signed_decimal(n) + " bars"@,
            ))
            &&& name == "loop_beats"@ ==> (o.answer matches AnswerV::Text(text) && ends_in(
                text,
                shortest(n) + " beats"@,
            ))
        }),
{
    lemma_tool_marks();
    let name = tool.name@;
    let n = act_amount(only_act(o))->0;
    if let AnswerV::Text(text) = o.answer {
        if name == "set_filter"@ || name == "set_crossfader"@ {
            let tail = signed2(n);
            assert(text.skip(text.len() - tail.len()) =~= tail);
        } else if name == "set_channel_fader"@ {
            let tail = plain2(n);
            assert(text.skip(text.len() - tail.len()) =~= tail);
        } else if name == "jump_beats"@ {
            let tail = signed_whole_number(n) + " beats"@;
            assert(text.skip(text.len() - tail.len()) =~= tail);
        } else if name == "extend_playback"@ {
            let tail = signed_decimal(n) + " bars"@;
            assert(text.skip(text.len() - tail.len()) =~= tail);
        } else if name == "loop_beats"@ {
            let tail = shortest(n) + " beats"@;
            assert(text.skip(text.len() - tail.len()) =~= tail);
        }
    }
}

/// A hot cue is answered by the number it was asked for by.
pub proof fn cue_answers_count_from_one(
    a: App,
    b: App,
    o: ToolOutV,
    tool: ToolCall,
    info: NowPlaying,
    signed_in: bool,
    n: i64,
)
    requires
        tool_done(a, b, o, tool, info, signed_in),
        tool.name@ == "cue"@,
        tool.spec_int("slot"@) == Some(n),
        1 <= n <= 4,
    ensures
        o.answer matches AnswerV::Text(text) && starts_with(text, "Cue "@ + decimal(n as nat)),
{
    lemma_tool_marks();
    let head = "Cue "@ + decimal(n as nat);
    if let AnswerV::Text(text) = o.answer {
        assert(text.take(head.len() as int) =~= head);
    }
}

/// A deck that is not named is deck A for what shapes its sound, and deck B for what
/// brings it in.
#[verifier::spinoff_prover]
#[verifier::rlimit(60)]
pub proof fn unnamed_deck_is_told_by_the_tool(
    a: App,
    b: App,
    o: ToolOutV,
    tool: ToolCall,
    info: NowPlaying,
    signed_in: bool,
)
    requires
        tool_done(a, b, o, tool, info, signed_in),
        tool.spec_text("deck"@) is None,
        o.effects.len() == 1,
        o.effects[0] is Do,
        act_deck(only_act(o)) is Some,
    ensures
        act_deck(only_act(o)) == Some(
            !(tool.name@ == "preview_deck"@ || tool.name@ == "stop_preview"@ || tool.name@
                == "play_deck"@),
        ),
        named_deck(tool) is None,
{
    lemma_tool_marks();
}

/// Without a monitor nothing is previewed, and with one the deck is.
pub proof fn previews_need_a_monitor(
    a: App,
    b: App,
    o: ToolOutV,
    tool: ToolCall,
    info: NowPlaying,
    signed_in: bool,
)
    requires
        tool_done(a, b, o, tool, info, signed_in),
        tool.name@ == "preview_deck"@,
    ensures
        a.config.monitor_device@.len() > 0 <==> o.effects.len() == 1,
        o.effects.len() == 1 ==> (o.effects[0] matches EffectV::Do(act) && act is PreviewDeck),
{
    lemma_tool_marks();
}

/// An item that the DJ selects is the one at the index given.
pub proof fn selected_item_is_at_the_index(
    a: App,
    b: App,
    o: ToolOutV,
    tool: ToolCall,
    info: NowPlaying,
    signed_in: bool,
    n: i64,
)
    requires
        tool_done(a, b, o, tool, info, signed_in),
        tool.name@ == "select_item"@,
        tool.spec_int("index"@) == Some(n),
        0 <= n <= 0x7fff_ffff,
        a.nav@.filter.len() == 0,
    ensures
        o.step == crate::nav::item_step(
            a.nav@.screen(),
            n as usize,
            a.nav.cursor.column as int,
        ),
        b.nav.cursor.selected == n,
        o.effects.len() == 0,
{
    lemma_tool_marks();
}

} // verus!
