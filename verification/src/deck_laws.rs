//! What the lines of a deck, and the rows that hold both decks, show.
use crate::controller::{deck_row, eq_reading, filter_steps, strips};
use crate::controls::CtrlSection;
use crate::deck::{Deck, NowPlaying};
use crate::deck_lines::{deck_line, pitch_text, DECK_ROWS};
use crate::meters::{abs, signed_tenths, signed_whole};
use crate::readings::{clock_reads_back, clock_value, decimal_reads_back};
use crate::screens::clock;
use crate::style::Style;
use crate::text::{decimal, digits_value, round_div};
use crate::track::bpm_tenths;
use vstd::prelude::*;

verus! {

/// A playing deck of known length shows the time it is at first, and the length
/// of the track behind a slash.
pub proof fn time_comes_before_length(deck: Deck, is_a: bool, w: nat, mix: Option<u64>)
    requires
        deck.track is Some,
        deck.is_playing,
        deck.duration_ms > 0,
    ensures
        ({
            let line = deck_line(deck, is_a, w, mix, 3);
            &&& line.len() == 3
            &&& clock_value(line[0].text) == deck.time_ms / 1000
            &&& line[1].text.take(3) == " / "@
            &&& clock_value(line[1].text.skip(3)) == deck.duration_ms / 1000
        }),
{
    reveal_strlit(" / ");
    clock_reads_back(deck.time_ms as nat / 1000);
    clock_reads_back(deck.duration_ms as nat / 1000);
    let line = deck_line(deck, is_a, w, mix, 3);
    let length = clock(deck.duration_ms as nat / 1000);
    assert(" / "@.len() == 3);
    assert(line[1].text == " / "@ + length);
    assert(line[1].text.take(3) =~= " / "@);
    assert(line[1].text.skip(3) =~= length);
}

/// While a track plays its length stays as it is shown; the time shown follows
/// the position alone.
pub proof fn length_stays_while_time_runs(
    deck: Deck,
    later: Deck,
    is_a: bool,
    w: nat,
    mix: Option<u64>,
)
    requires
        deck.track is Some,
        later.track is Some,
        deck.is_playing,
        later.is_playing,
        deck.duration_ms > 0,
        later.duration_ms > 0,
    ensures
        deck.duration_ms == later.duration_ms ==> deck_line(deck, is_a, w, mix, 3)[1] == deck_line(
            later,
            is_a,
            w,
            mix,
            3,
        )[1],
        deck.time_ms == later.time_ms ==> deck_line(deck, is_a, w, mix, 3)[0] == deck_line(
            later,
            is_a,
            w,
            mix,
            3,
        )[0],
        deck.time_ms / 1000 != later.time_ms / 1000 ==> deck_line(deck, is_a, w, mix, 3)[0]
            != deck_line(later, is_a, w, mix, 3)[0],
        deck.duration_ms / 1000 != later.duration_ms / 1000 ==> deck_line(
            deck,
            is_a,
            w,
            mix,
            3,
        )[1] != deck_line(later, is_a, w, mix, 3)[1],
{
    time_comes_before_length(deck, is_a, w, mix);
    time_comes_before_length(later, is_a, w, mix);
}

/// A deck that stands shows how long its track is, where that is known.
pub proof fn standing_deck_shows_length(deck: Deck, is_a: bool, w: nat, mix: Option<u64>)
    requires
        deck.track is Some,
        !deck.is_playing,
        deck.duration_ms > 0,
    ensures
        ({
            let line = deck_line(deck, is_a, w, mix, 3);
            &&& line.len() == 1
            &&& line[0].text.take(7) == "ready  "@
            &&& clock_value(line[0].text.skip(7)) == deck.duration_ms / 1000
        }),
{
    reveal_strlit("ready  ");
    clock_reads_back(deck.duration_ms as nat / 1000);
    let line = deck_line(deck, is_a, w, mix, 3);
    let length = clock(deck.duration_ms as nat / 1000);
    assert("ready  "@.len() == 7);
    assert(line[0].text.take(7) =~= "ready  "@);
    assert(line[0].text.skip(7) =~= length);
}

/// So many whole bars of four beats lie within a time.
pub open spec fn holds_bars(n: nat, ms: nat, bpm: nat) -> bool {
    n * 240_000_000 <= ms * bpm < (n + 1) * 240_000_000
}

/// A text that counts bars: the one being played before the slash at `k`, all of
/// them behind it.
pub open spec fn counts_bars(text: Seq<char>, k: int, deck: Deck, bpm: nat) -> bool {
    &&& 7 <= k < text.len()
    &&& text.take(6) == "  bar "@
    &&& text[k] == '/'
    &&& digits_value(text.subrange(6, k)) >= 1
    &&& holds_bars((digits_value(text.subrange(6, k)) - 1) as nat, deck.time_ms as nat, bpm)
    &&& holds_bars(digits_value(text.skip(k + 1)), deck.duration_ms as nat, bpm)
}

/// The bar shown is the one that is being played, counted from one, and behind the
/// slash stands how many bars the track has.
pub proof fn bar_is_the_one_played(deck: Deck, is_a: bool, w: nat, mix: Option<u64>, bpm: u32)
    requires
        deck.track is Some,
        deck.is_playing,
        deck.duration_ms > 0,
        deck.bpm == Some(bpm),
    ensures
        exists|k: int|
            counts_bars(deck_line(deck, is_a, w, mix, 3)[2].text, k, deck, bpm as nat),
{
    reveal_strlit("  bar ");
    reveal_strlit("/");
    let at = crate::deck_lines::bars_in(deck.time_ms as nat, bpm as nat);
    let all = crate::deck_lines::bars_in(deck.duration_ms as nat, bpm as nat);
    decimal_reads_back(at + 1);
    decimal_reads_back(all);
    let text = deck_line(deck, is_a, w, mix, 3)[2].text;
    let k = (6 + decimal(at + 1).len()) as int;
    assert("  bar "@.len() == 6);
    assert("/"@.len() == 1);
    assert(text == "  bar "@ + (decimal(at + 1) + "/"@ + decimal(all)));
    assert(text.take(6) =~= "  bar "@);
    assert(text[k] == '/');
    assert(text.subrange(6, k) =~= decimal(at + 1));
    assert(text.skip(k + 1) =~= decimal(all));
    assert(counts_bars(text, k, deck, bpm as nat));
}

/// Text that reads as a number of tenths.
pub open spec fn tenths_value(s: Seq<char>) -> nat {
    digits_value(s.take(s.len() - 2)) * 10 + digits_value(s.skip(s.len() - 1))
}

proof fn lemma_tenths(t: nat)
    ensures
        ({
            let s = decimal(t / 10) + "."@ + decimal(t % 10);
            s.len() >= 3 && s[s.len() - 2] == '.' && tenths_value(s) == t
        }),
{
    reveal_strlit(".");
    decimal_reads_back(t / 10);
    decimal_reads_back(t % 10);
    let s = decimal(t / 10) + "."@ + decimal(t % 10);
    assert("."@.len() == 1);
    assert(s.take(s.len() - 2) =~= decimal(t / 10));
    assert(s.skip(s.len() - 1) =~= decimal(t % 10));
}

/// A tempo is shown to the tenth that it is nearest to.
pub proof fn tempo_is_shown_to_the_tenth(bpm: u32)
    ensures
        tenths_value(bpm_tenths(bpm)) * 100 <= bpm + 50,
        bpm <= tenths_value(bpm_tenths(bpm)) * 100 + 50,
{
    lemma_tenths(round_div(bpm as nat, 100));
}

/// The phase is shown to the tenth of a millisecond, with its sign.
pub proof fn phase_is_shown_to_the_tenth(us: int)
    ensures
        ({
            let text = crate::meters::phase_text(us);
            let size = text.subrange(1, text.len() - 2);
            &&& text.len() >= 6
            &&& text[0] == '-' <==> us < 0
            &&& tenths_value(size) * 100 <= abs(us) + 50
            &&& abs(us) <= tenths_value(size) * 100 + 50
            &&& text.skip(text.len() - 2) == "ms"@
        }),
{
    reveal_strlit("-");
    reveal_strlit("+");
    reveal_strlit("ms");
    let t = round_div(abs(us), 100);
    lemma_tenths(t);
    let text = crate::meters::phase_text(us);
    let s = decimal(t / 10) + "."@ + decimal(t % 10);
    assert("ms"@.len() == 2);
    assert(text.subrange(1, text.len() - 2) =~= s);
    assert(text.skip(text.len() - 2) =~= "ms"@);
}

/// How far a tempo is off the natural one, in tenths of a percent: with a minus
/// where the deck runs slower, nothing where it runs at it.
pub proof fn pitch_is_shown_with_its_sign(bpm: u32, natural: u32)
    requires
        natural > 0,
    ensures
        ({
            let text = pitch_text(Some(bpm), natural);
            let size = text.subrange(2, text.len() - 2);
            &&& text.len() >= 7
            &&& text[0] == '('
            &&& text[1] == '-' <==> bpm < natural
            &&& text[1] == '+' <==> bpm >= natural
            &&& bpm == natural ==> tenths_value(size) == 0
            &&& text.skip(text.len() - 2) == "%)"@
        }),
        2 * natural == bpm ==> tenths_value(
            pitch_text(Some(bpm), natural).subrange(2, pitch_text(Some(bpm), natural).len() - 2),
        ) == 1000,
{
    reveal_strlit("-");
    reveal_strlit("+");
    reveal_strlit("(");
    reveal_strlit("%)");
    let t = round_div(1000 * abs(bpm - natural), natural as nat);
    lemma_tenths(t);
    let text = pitch_text(Some(bpm), natural);
    let s = decimal(t / 10) + "."@ + decimal(t % 10);
    assert("%)"@.len() == 2);
    assert("("@.len() == 1);
    assert(text == "("@ + signed_tenths(bpm < natural, t) + "%)"@);
    assert(text.subrange(2, text.len() - 2) =~= s);
    assert(text.skip(text.len() - 2) =~= "%)"@);
    let n = natural as int;
    if bpm == natural {
        assert(0int / n == 0 && 0int % n == 0) by (nonlinear_arith)
            requires
                n > 0,
        ;
    }
    if 2 * natural == bpm {
        assert((1000 * n) / n == 1000 && (1000 * n) % n == 0) by (nonlinear_arith)
            requires
                n > 0,
        ;
    }
}

/// The first line of a deck names it, says whether it plays, and shows its own
/// tempo; the third shows the track's.
pub proof fn first_line_is_of_the_deck(deck: Deck, is_a: bool, w: nat, mix: Option<u64>)
    requires
        deck.track is Some,
    ensures
        ({
            let line = deck_line(deck, is_a, w, mix, 0);
            &&& line.len() == 4
            &&& line[0].text.len() == 7
            &&& line[0].text[5] == (if is_a {
                'A'
            } else {
                'B'
            })
            &&& line[1].text == "▶"@ <==> deck.is_playing
            &&& line[2].text[2] == '●' <==> deck.kick
            &&& deck.bpm matches Some(b) ==> line[2].text.subrange(4, line[2].text.len() - 1)
                == bpm_tenths(b)
        }),
{
    reveal_strlit("DECK A");
    reveal_strlit("DECK B");
    reveal_strlit(" ");
    reveal_strlit("  ");
    reveal_strlit("▶");
    reveal_strlit("⏸");
    reveal_strlit("●");
    reveal_strlit("○");
    let line = deck_line(deck, is_a, w, mix, 0);
    assert("DECK A"@.len() == 6 && "DECK B"@.len() == 6 && " "@.len() == 1 && "  "@.len() == 2);
    assert("▶"@[0] == '▶' && "⏸"@[0] == '⏸');
    assert("●"@.len() == 1 && "○"@.len() == 1);
    if let Some(b) = deck.bpm {
        assert(line[2].text.subrange(4, line[2].text.len() - 1) =~= bpm_tenths(b));
    }
}

/// Text with a sign that reads as a whole number of the unit that an amount in
/// hundredths is nearest to.
pub open spec fn reads_as_whole(text: Seq<char>, hundredths: int) -> bool {
    &&& text.len() >= 2
    &&& text[0] == '-' <==> hundredths < 0
    &&& digits_value(text.skip(1)) * 100 <= abs(hundredths) + 50
    &&& abs(hundredths) <= digits_value(text.skip(1)) * 100 + 50
}

/// A gain is shown in the decibels that it is nearest to, with its sign.
pub proof fn gains_read_back(hundredths: int)
    ensures
        reads_as_whole(signed_whole(hundredths), hundredths),
{
    reveal_strlit("-");
    reveal_strlit("+");
    let n = round_div(abs(hundredths), 100);
    decimal_reads_back(n);
    assert(signed_whole(hundredths).skip(1) =~= decimal(n));
}

/// Each reading of the equaliser is named by its band and shows the gain of that
/// band, from high to low; the last is the filter, on a scale of nine to either
/// side.
pub proof fn readings_are_of_their_band(deck: Deck)
    ensures
        eq_reading(deck, 0)[0] == 'H' && reads_as_whole(
            eq_reading(deck, 0).skip(1),
            deck.eq_high as int,
        ),
        eq_reading(deck, 2)[0] == 'M' && reads_as_whole(
            eq_reading(deck, 2).skip(1),
            deck.eq_mid as int,
        ),
        eq_reading(deck, 4)[0] == 'L' && reads_as_whole(
            eq_reading(deck, 4).skip(1),
            deck.eq_low as int,
        ),
        eq_reading(deck, 6)[0] == 'F',
        filter_steps(deck.filter as int) < 0 <==> eq_reading(deck, 6)[1] == '-',
        digits_value(eq_reading(deck, 6).skip(2)) == abs(filter_steps(deck.filter as int)),
        deck.filter >= 0 ==> filter_steps(deck.filter as int) >= 0,
        deck.filter <= 0 ==> filter_steps(deck.filter as int) <= 0,
        deck.filter == 1000 ==> filter_steps(deck.filter as int) == 9,
        deck.filter == -1000 ==> filter_steps(deck.filter as int) == -9,
{
    reveal_strlit("H");
    reveal_strlit("M");
    reveal_strlit("L");
    reveal_strlit("F");
    reveal_strlit("-");
    reveal_strlit("+");
    gains_read_back(deck.eq_high as int);
    gains_read_back(deck.eq_mid as int);
    gains_read_back(deck.eq_low as int);
    assert(eq_reading(deck, 0).skip(1) =~= signed_whole(deck.eq_high as int));
    assert(eq_reading(deck, 2).skip(1) =~= signed_whole(deck.eq_mid as int));
    assert(eq_reading(deck, 4).skip(1) =~= signed_whole(deck.eq_low as int));
    let n = abs(filter_steps(deck.filter as int));
    decimal_reads_back(n);
    assert(eq_reading(deck, 6).skip(2) =~= decimal(n));
}

/// Deck A stands left of the strips and deck B right of them.
pub proof fn decks_stand_on_their_side(
    info: NowPlaying,
    sel: Option<CtrlSection>,
    w: nat,
    border: Style,
    i: int,
)
    ensures
        ({
            let bar = crate::controller::bar_width(w);
            let a = deck_line(info.deck_a, true, bar, info.mix_point_ms, i);
            let b = deck_line(info.deck_b, false, bar, info.mix_point_ms, i);
            let row = deck_row(info, sel, w, border, i);
            exists|from: int|
                3 + a.len() + 17 <= from <= 3 + a.len() + 18 && from + b.len() + 3 <= row.len()
                    && row.subrange(3, 3 + a.len() as int) == a && #[trigger] row.subrange(
                    from,
                    from + b.len(),
                ) == b
        }),
{
    let bar = crate::controller::bar_width(w);
    let a = deck_line(info.deck_a, true, bar, info.mix_point_ms, i);
    let b = deck_line(info.deck_b, false, bar, info.mix_point_ms, i);
    let row = deck_row(info, sel, w, border, i);
    let ga = crate::controller::gap(
        crate::text::minus(bar as int, crate::style::line_width(a) as int),
    );
    let from = (3 + a.len() + ga.len() + 17) as int;
    assert(strips(info, sel, i).len() == 17);
    assert(ga.len() <= 1);
    assert(row.subrange(3, 3 + a.len() as int) =~= a);
    assert(row.subrange(from, from + b.len()) =~= b);
}

/// What the strip of one deck shows does not depend on the other deck.
pub proof fn strips_are_of_their_deck(
    info: NowPlaying,
    other: NowPlaying,
    sel: Option<CtrlSection>,
    i: int,
)
    ensures
        info.deck_a == other.deck_a ==> strips(info, sel, i)[1] == strips(other, sel, i)[1]
            && strips(info, sel, i)[3] == strips(other, sel, i)[3] && strips(info, sel, i)[5]
            == strips(other, sel, i)[5] && strips(info, sel, i)[7].text == strips(
            other,
            sel,
            i,
        )[7].text,
        info.deck_b == other.deck_b ==> strips(info, sel, i)[15] == strips(other, sel, i)[15]
            && strips(info, sel, i)[13] == strips(other, sel, i)[13] && strips(info, sel, i)[11]
            == strips(other, sel, i)[11] && strips(info, sel, i)[9].text == strips(
            other,
            sel,
            i,
        )[9].text,
{
}

/// A channel fader that is up stands at the top of its own strip, one that is down
/// at the bottom; the same goes for a deck's tempo.
pub proof fn faders_show_their_deck(info: NowPlaying, sel: Option<CtrlSection>, w: nat, border: Style, i: int)
    requires
        0 <= i < DECK_ROWS,
    ensures
        info.deck_a.fader >= 1000 ==> (strips(info, sel, i)[3].text == "═"@ <==> i == 0),
        info.deck_a.fader <= 0 ==> (strips(info, sel, i)[3].text == "═"@ <==> i == 6),
        info.deck_b.fader >= 1000 ==> (strips(info, sel, i)[13].text == "═"@ <==> i == 0),
        info.deck_b.fader <= 0 ==> (strips(info, sel, i)[13].text == "═"@ <==> i == 6),
        ({
            let row = deck_row(info, sel, w, border, i);
            let last = row.len() - 2;
            &&& info.deck_a.rate >= 100_000 ==> (row[1].text == "═"@ <==> i == 0)
            &&& info.deck_a.rate <= -100_000 ==> (row[1].text == "═"@ <==> i == 6)
            &&& info.deck_b.rate >= 100_000 ==> (row[last].text == "═"@ <==> i == 0)
            &&& info.deck_b.rate <= -100_000 ==> (row[last].text == "═"@ <==> i == 6)
        }),
        info.deck_a.level == 0 ==> strips(info, sel, i)[5].text == "░"@,
        info.deck_b.level == 0 ==> strips(info, sel, i)[11].text == "░"@,
        info.deck_a.level >= 1000 ==> strips(info, sel, i)[5].text == "█"@,
        info.deck_b.level >= 1000 ==> strips(info, sel, i)[11].text == "█"@,
{
    reveal_strlit("═");
    reveal_strlit("│");
    assert("═"@[0] == '═' && "│"@[0] == '│');
    crate::meters::faders_stand_on_their_strip(
        info.deck_a.rate as int,
        info.deck_a.fader as int,
        7,
    );
    crate::meters::faders_stand_on_their_strip(
        info.deck_b.rate as int,
        info.deck_b.fader as int,
        7,
    );
}

} // verus!
