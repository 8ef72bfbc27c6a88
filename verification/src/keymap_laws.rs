//! What holds of key specs, chords and commands as a whole.
use crate::command::builtin;
use crate::key::{KeyCode, KeyEvent, KeyModifiers};
use crate::keymap::{
    bound, chord_of, code_spec, is_upper, leading_mod, lower, lower_all, mods_spec, named_code,
    overlaid, spec_event, split_mods, token_code, unbinds, Chord,
};
use crate::text::{
    all_digits, decimal, digit_char, digits_value, is_space, parse_unsigned, starts, trim,
};
use vstd::prelude::*;

verus! {

/// A chord is in normal form already: taking the chord of it changes nothing.
pub proof fn chord_is_normal(ev: KeyEvent)
    ensures
        chord_of(
            KeyEvent { code: chord_of(ev).code, modifiers: chord_of(ev).mods },
        ) == chord_of(ev),
{
}

/// A capital letter and the small letter with Shift are one chord.
pub proof fn capital_is_shift(c: char, mods: KeyModifiers)
    requires
        is_upper(c),
    ensures
        chord_of(KeyEvent { code: KeyCode::Char(c), modifiers: mods }) == chord_of(
            KeyEvent {
                code: KeyCode::Char(lower(c)),
                modifiers: KeyModifiers { shift: true, ..mods },
            },
        ),
{
}

/// A later binding of a key spec wins, and concerns no other chord.
pub proof fn later_binding_wins(
    m: Map<Chord, Seq<char>>,
    spec: Seq<char>,
    first: Seq<char>,
    second: Seq<char>,
)
    ensures
        bound(bound(m, spec, first), spec, second) == bound(m, spec, second),
        forall|c: Chord|
            spec_event(spec) is Some && c != chord_of(spec_event(spec)->0) ==> (bound(
                m,
                spec,
                first,
            ).dom().contains(c) <==> m.dom().contains(c)) && (m.dom().contains(c) ==> #[trigger]
            bound(m, spec, first)[c] == m[c]),
{
    if let Some(ev) = spec_event(spec) {
        let c = chord_of(ev);
        assert(m.insert(c, first).insert(c, second) == m.insert(c, second));
    }
}

/// A row of the user's table whose id is empty, `none` or `unbound` leaves its
/// chord without a command.
pub proof fn unbound_chord_has_no_command(
    m: Map<Chord, Seq<char>>,
    spec: Seq<char>,
    id: Seq<char>,
)
    requires
        spec_event(spec) is Some,
        unbinds(trim(id)),
    ensures
        !overlaid(m, spec, id).dom().contains(chord_of(spec_event(spec)->0)),
{
}

/// Marks that tell the ids of all commands apart.
#[verifier::opaque]
spec fn id_marks(s: Seq<char>) -> (nat, char, char) {
    (s.len(), s[5], s[s.len() - 2])
}

/// No two commands have the same id.
pub proof fn command_ids_are_unique(i: int, j: int)
    requires
        0 <= i < j < builtin().len(),
    ensures
        builtin()[i].id@ != builtin()[j].id@,
{
    reveal(id_marks);
    reveal_strlit("view.dashboard");
    reveal_strlit("view.browse");
    reveal_strlit("view.history");
    reveal_strlit("view.settings");
    reveal_strlit("view.queue");
    reveal_strlit("app.quit");
    reveal_strlit("view.help");
    reveal_strlit("engine.bail_crossfade");
    reveal_strlit("engine.mix_now");
    reveal_strlit("engine.toggle_split_cue");
    reveal_strlit("engine.toggle_metronome");
    reveal_strlit("engine.pause");
    reveal_strlit("engine.skip");
    reveal_strlit("engine.teleport");
    reveal_strlit("engine.rewind_last");
    reveal_strlit("engine.cycle_analyzer");
    assert(id_marks("view.dashboard"@) == (14nat, 'd', 'r'));
    assert(id_marks("view.browse"@) == (11nat, 'b', 's'));
    assert(id_marks("view.history"@) == (12nat, 'h', 'r'));
    assert(id_marks("view.settings"@) == (13nat, 's', 'g'));
    assert(id_marks("view.queue"@) == (10nat, 'q', 'u'));
    assert(id_marks("app.quit"@) == (8nat, 'u', 'i'));
    assert(id_marks("view.help"@) == (9nat, 'h', 'l'));
    assert(id_marks("engine.bail_crossfade"@) == (21nat, 'e', 'd'));
    assert(id_marks("engine.mix_now"@) == (14nat, 'e', 'o'));
    assert(id_marks("engine.toggle_split_cue"@) == (23nat, 'e', 'u'));
    assert(id_marks("engine.toggle_metronome"@) == (23nat, 'e', 'm'));
    assert(id_marks("engine.pause"@) == (12nat, 'e', 's'));
    assert(id_marks("engine.skip"@) == (11nat, 'e', 'i'));
    assert(id_marks("engine.teleport"@) == (15nat, 'e', 'r'));
    assert(id_marks("engine.rewind_last"@) == (18nat, 'e', 's'));
    assert(id_marks("engine.cycle_analyzer"@) == (21nat, 'e', 'e'));
}

/// Marks that tell the names of all keys apart.
#[verifier::opaque]
spec fn name_marks(s: Seq<char>) -> (nat, char, char) {
    (s.len(), s[0], s[1])
}

proof fn lemma_name_marks()
    ensures
        name_marks("enter"@) == (5nat, 'e', 'n'),
        name_marks("return"@) == (6nat, 'r', 'e'),
        name_marks("cr"@) == (2nat, 'c', 'r'),
        name_marks("tab"@) == (3nat, 't', 'a'),
        name_marks("backtab"@) == (7nat, 'b', 'a'),
        name_marks("esc"@) == (3nat, 'e', 's'),
        name_marks("escape"@) == (6nat, 'e', 's'),
        name_marks("space"@) == (5nat, 's', 'p'),
        name_marks("backspace"@) == (9nat, 'b', 'a'),
        name_marks("bs"@) == (2nat, 'b', 's'),
        name_marks("delete"@) == (6nat, 'd', 'e'),
        name_marks("del"@) == (3nat, 'd', 'e'),
        name_marks("insert"@) == (6nat, 'i', 'n'),
        name_marks("ins"@) == (3nat, 'i', 'n'),
        name_marks("up"@) == (2nat, 'u', 'p'),
        name_marks("down"@) == (4nat, 'd', 'o'),
        name_marks("left"@) == (4nat, 'l', 'e'),
        name_marks("right"@) == (5nat, 'r', 'i'),
        name_marks("home"@) == (4nat, 'h', 'o'),
        name_marks("end"@) == (3nat, 'e', 'n'),
        name_marks("pageup"@) == (6nat, 'p', 'a'),
        name_marks("pgup"@) == (4nat, 'p', 'g'),
        name_marks("pagedown"@) == (8nat, 'p', 'a'),
        name_marks("pgdn"@) == (4nat, 'p', 'g'),
        name_marks("pgdown"@) == (6nat, 'p', 'g'),
{
    reveal(name_marks);
    reveal_strlit("enter");
    reveal_strlit("return");
    reveal_strlit("cr");
    reveal_strlit("tab");
    reveal_strlit("backtab");
    reveal_strlit("esc");
    reveal_strlit("escape");
    reveal_strlit("space");
    reveal_strlit("backspace");
    reveal_strlit("bs");
    reveal_strlit("delete");
    reveal_strlit("del");
    reveal_strlit("insert");
    reveal_strlit("ins");
    reveal_strlit("up");
    reveal_strlit("down");
    reveal_strlit("left");
    reveal_strlit("right");
    reveal_strlit("home");
    reveal_strlit("end");
    reveal_strlit("pageup");
    reveal_strlit("pgup");
    reveal_strlit("pagedown");
    reveal_strlit("pgdn");
    reveal_strlit("pgdown");
}

proof fn lemma_prefixes()
    ensures
        "ctrl+"@ == seq!['c', 't', 'r', 'l', '+'],
        "c-"@ == seq!['c', '-'],
        "shift+"@ == seq!['s', 'h', 'i', 'f', 't', '+'],
        "s-"@ == seq!['s', '-'],
        "alt+"@ == seq!['a', 'l', 't', '+'],
        "a-"@ == seq!['a', '-'],
        "meta+"@ == seq!['m', 'e', 't', 'a', '+'],
        ""@ == Seq::<char>::empty(),
{
    reveal_strlit("ctrl+");
    reveal_strlit("c-");
    reveal_strlit("shift+");
    reveal_strlit("s-");
    reveal_strlit("alt+");
    reveal_strlit("a-");
    reveal_strlit("meta+");
    reveal_strlit("");
}

/// What a spec of at least one character must begin with to name a modifier.
proof fn lemma_no_lead(t: Seq<char>)
    requires
        t.len() >= 1,
        t.len() == 1 || (t[0] != 'c' && t[0] != 'a' && t[0] != 'm' && (t[0] == 's' ==> t[1] != 'h'
            && t[1] != '-')),
    ensures
        leading_mod(t) is None,
{
    lemma_prefixes();
    assert(!starts(t, "ctrl+"@)) by {
        if starts(t, "ctrl+"@) {
            assert(t.take(5)[0] == t[0]);
        }
    }
    assert(!starts(t, "c-"@)) by {
        if starts(t, "c-"@) {
            assert(t.take(2)[0] == t[0]);
        }
    }
    assert(!starts(t, "shift+"@)) by {
        if starts(t, "shift+"@) {
            assert(t.take(6)[0] == t[0] && t.take(6)[1] == t[1]);
        }
    }
    assert(!starts(t, "s-"@)) by {
        if starts(t, "s-"@) {
            assert(t.take(2)[0] == t[0] && t.take(2)[1] == t[1]);
        }
    }
    assert(!starts(t, "alt+"@)) by {
        if starts(t, "alt+"@) {
            assert(t.take(4)[0] == t[0]);
        }
    }
    assert(!starts(t, "a-"@)) by {
        if starts(t, "a-"@) {
            assert(t.take(2)[0] == t[0]);
        }
    }
    assert(!starts(t, "meta+"@)) by {
        if starts(t, "meta+"@) {
            assert(t.take(5)[0] == t[0]);
        }
    }
}

proof fn lemma_ctrl(rest: Seq<char>)
    ensures
        split_mods("ctrl+"@ + rest).0 == (KeyModifiers { ctrl: true, ..split_mods(rest).0 }),
        split_mods("ctrl+"@ + rest).1 == split_mods(rest).1,
{
    lemma_prefixes();
    let s = "ctrl+"@ + rest;
    let t = lower_all(s);
    assert(t.take(5) == "ctrl+"@);
    assert(s.skip(5) == rest);
}

proof fn lemma_alt(rest: Seq<char>)
    ensures
        split_mods("alt+"@ + rest).0 == (KeyModifiers { alt: true, ..split_mods(rest).0 }),
        split_mods("alt+"@ + rest).1 == split_mods(rest).1,
{
    lemma_prefixes();
    let s = "alt+"@ + rest;
    let t = lower_all(s);
    assert(t.take(4) == "alt+"@);
    assert(t[0] == 'a' && t[1] == 'l');
    assert(t.len() >= 5 ==> t.take(5)[0] == 'a');
    assert(t.len() >= 6 ==> t.take(6)[0] == 'a');
    assert(t.take(2)[0] == 'a');
    assert(s.skip(4) == rest);
}

proof fn lemma_shift(rest: Seq<char>)
    ensures
        split_mods("shift+"@ + rest).0 == (KeyModifiers { shift: true, ..split_mods(rest).0 }),
        split_mods("shift+"@ + rest).1 == split_mods(rest).1,
{
    lemma_prefixes();
    let s = "shift+"@ + rest;
    let t = lower_all(s);
    assert(t.take(6) == "shift+"@);
    assert(t[0] == 's' && t[1] == 'h');
    assert(t.take(5)[0] == 's' && t.take(2)[0] == 's');
    assert(s.skip(6) == rest);
}

proof fn lemma_trim_kept(s: Seq<char>)
    requires
        s.len() > 0,
        !is_space(s[0]),
        !is_space(s.last()),
    ensures
        trim(s) == s,
{
}

/// A chord that a key spec can write down: no modifier besides Ctrl, Alt and
/// Shift, and a key that has a name. A lone `f` and white space other than the
/// space bar have none.
pub open spec fn has_spec(c: Chord) -> bool {
    &&& !c.mods.logo && !c.mods.hyper && !c.mods.meta
    &&& match c.code {
        KeyCode::F(n) => 1 <= n <= 12,
        KeyCode::Char(ch) => ch == ' ' || (!is_upper(ch) && ch != 'f' && !is_space(ch)),
        KeyCode::Null | KeyCode::CapsLock | KeyCode::ScrollLock | KeyCode::NumLock
        | KeyCode::PrintScreen | KeyCode::Pause | KeyCode::Menu | KeyCode::KeypadBegin => false,
        _ => true,
    }
}

/// What the name of a key must be like for the round trip.
spec fn good_name(name: Seq<char>, code: KeyCode) -> bool {
    &&& name.len() > 0
    &&& !is_space(name[0])
    &&& !is_space(name.last())
    &&& split_mods(name) == (KeyModifiers::spec_none(), name)
    &&& token_code(name) == Some(code)
}

proof fn lemma_name_enter()
    ensures
        good_name("enter"@, KeyCode::Enter),
{
    reveal_strlit("enter");
    lemma_name_marks();
    assert("enter"@.len() == 5 && "enter"@[0] == 'e' && "enter"@[4] == 'r');
    assert("enter"@[1] == 'n');
    assert(lower_all("enter"@) == "enter"@);
    lemma_no_lead("enter"@);
}

proof fn lemma_name_tab()
    ensures
        good_name("tab"@, KeyCode::Tab),
{
    reveal_strlit("tab");
    lemma_name_marks();
    assert("tab"@.len() == 3 && "tab"@[0] == 't' && "tab"@[2] == 'b');
    assert("tab"@[1] == 'a');
    assert(lower_all("tab"@) == "tab"@);
    lemma_no_lead("tab"@);
}

proof fn lemma_name_backtab()
    ensures
        good_name("backtab"@, KeyCode::BackTab),
{
    reveal_strlit("backtab");
    lemma_name_marks();
    assert("backtab"@.len() == 7 && "backtab"@[0] == 'b' && "backtab"@[6] == 'b');
    assert("backtab"@[1] == 'a');
    assert(lower_all("backtab"@) == "backtab"@);
    lemma_no_lead("backtab"@);
}

proof fn lemma_name_esc()
    ensures
        good_name("esc"@, KeyCode::Esc),
{
    reveal_strlit("esc");
    lemma_name_marks();
    assert("esc"@.len() == 3 && "esc"@[0] == 'e' && "esc"@[2] == 'c');
    assert("esc"@[1] == 's');
    assert(lower_all("esc"@) == "esc"@);
    lemma_no_lead("esc"@);
}

proof fn lemma_name_backspace()
    ensures
        good_name("backspace"@, KeyCode::Backspace),
{
    reveal_strlit("backspace");
    lemma_name_marks();
    assert("backspace"@.len() == 9 && "backspace"@[0] == 'b' && "backspace"@[8] == 'e');
    assert("backspace"@[1] == 'a');
    assert(lower_all("backspace"@) == "backspace"@);
    lemma_no_lead("backspace"@);
}

proof fn lemma_name_delete()
    ensures
        good_name("delete"@, KeyCode::Delete),
{
    reveal_strlit("delete");
    lemma_name_marks();
    assert("delete"@.len() == 6 && "delete"@[0] == 'd' && "delete"@[5] == 'e');
    assert("delete"@[1] == 'e');
    assert(lower_all("delete"@) == "delete"@);
    lemma_no_lead("delete"@);
}

proof fn lemma_name_insert()
    ensures
        good_name("insert"@, KeyCode::Insert),
{
    reveal_strlit("insert");
    lemma_name_marks();
    assert("insert"@.len() == 6 && "insert"@[0] == 'i' && "insert"@[5] == 't');
    assert("insert"@[1] == 'n');
    assert(lower_all("insert"@) == "insert"@);
    lemma_no_lead("insert"@);
}

proof fn lemma_name_up()
    ensures
        good_name("up"@, KeyCode::Up),
{
    reveal_strlit("up");
    lemma_name_marks();
    assert("up"@.len() == 2 && "up"@[0] == 'u' && "up"@[1] == 'p');
    assert("up"@[1] == 'p');
    assert(lower_all("up"@) == "up"@);
    lemma_no_lead("up"@);
}

proof fn lemma_name_down()
    ensures
        good_name("down"@, KeyCode::Down),
{
    reveal_strlit("down");
    lemma_name_marks();
    assert("down"@.len() == 4 && "down"@[0] == 'd' && "down"@[3] == 'n');
    assert("down"@[1] == 'o');
    assert(lower_all("down"@) == "down"@);
    lemma_no_lead("down"@);
}

proof fn lemma_name_left()
    ensures
        good_name("left"@, KeyCode::Left),
{
    reveal_strlit("left");
    lemma_name_marks();
    assert("left"@.len() == 4 && "left"@[0] == 'l' && "left"@[3] == 't');
    assert("left"@[1] == 'e');
    assert(lower_all("left"@) == "left"@);
    lemma_no_lead("left"@);
}

proof fn lemma_name_right()
    ensures
        good_name("right"@, KeyCode::Right),
{
    reveal_strlit("right");
    lemma_name_marks();
    assert("right"@.len() == 5 && "right"@[0] == 'r' && "right"@[4] == 't');
    assert("right"@[1] == 'i');
    assert(lower_all("right"@) == "right"@);
    lemma_no_lead("right"@);
}

proof fn lemma_name_home()
    ensures
        good_name("home"@, KeyCode::Home),
{
    reveal_strlit("home");
    lemma_name_marks();
    assert("home"@.len() == 4 && "home"@[0] == 'h' && "home"@[3] == 'e');
    assert("home"@[1] == 'o');
    assert(lower_all("home"@) == "home"@);
    lemma_no_lead("home"@);
}

proof fn lemma_name_end()
    ensures
        good_name("end"@, KeyCode::End),
{
    reveal_strlit("end");
    lemma_name_marks();
    assert("end"@.len() == 3 && "end"@[0] == 'e' && "end"@[2] == 'd');
    assert("end"@[1] == 'n');
    assert(lower_all("end"@) == "end"@);
    lemma_no_lead("end"@);
}

proof fn lemma_name_pageup()
    ensures
        good_name("pageup"@, KeyCode::PageUp),
{
    reveal_strlit("pageup");
    lemma_name_marks();
    assert("pageup"@.len() == 6 && "pageup"@[0] == 'p' && "pageup"@[5] == 'p');
    assert("pageup"@[1] == 'a');
    assert(lower_all("pageup"@) == "pageup"@);
    lemma_no_lead("pageup"@);
}

proof fn lemma_name_pagedown()
    ensures
        good_name("pagedown"@, KeyCode::PageDown),
{
    reveal_strlit("pagedown");
    lemma_name_marks();
    assert("pagedown"@.len() == 8 && "pagedown"@[0] == 'p' && "pagedown"@[7] == 'n');
    assert("pagedown"@[1] == 'a');
    assert(lower_all("pagedown"@) == "pagedown"@);
    lemma_no_lead("pagedown"@);
}

proof fn lemma_name_space()
    ensures
        good_name("space"@, KeyCode::Char(' ')),
{
    reveal_strlit("space");
    lemma_name_marks();
    assert("space"@.len() == 5 && "space"@[0] == 's' && "space"@[4] == 'e');
    assert("space"@[1] == 'p');
    assert(lower_all("space"@) == "space"@);
    lemma_no_lead("space"@);
}

proof fn lemma_unnamed(t: Seq<char>)
    requires
        t.len() > 0,
        t.len() == 1 || t[0] == 'f',
    ensures
        named_code(t) is None,
{
    lemma_name_marks();
    reveal(name_marks);
}

proof fn lemma_name_char(ch: char)
    requires
        !is_upper(ch) && ch != 'f' && !is_space(ch),
    ensures
        good_name(seq![ch], KeyCode::Char(ch)),
{
    let s = seq![ch];
    assert(lower_all(s) == s);
    lemma_no_lead(s);
    lemma_unnamed(s);
}

proof fn lemma_name_f(n: u8)
    requires
        1 <= n <= 12,
    ensures
        good_name("f"@ + decimal(n as nat), KeyCode::F(n)),
{
    reveal_strlit("f");
    reveal_with_fuel(decimal, 3);
    reveal_with_fuel(digits_value, 4);
    let d = decimal(n as nat);
    let s = "f"@ + d;
    assert("f"@.len() == 1 && "f"@[0] == 'f');
    assert(n < 10 ==> d == seq![digit_char(n as int)]);
    assert(n >= 10 ==> d == seq![digit_char(1), digit_char((n % 10) as int)]);
    assert(all_digits(d));
    assert(lower_all(s) == s);
    assert(s.skip(1) == d);
    assert(s[0] == 'f');
    lemma_no_lead(s);
    lemma_unnamed(s);
    if n < 10 {
        assert(d.drop_last() == Seq::<char>::empty());
        assert(digits_value(d) == n);
    } else {
        assert(d.drop_last() == seq![digit_char(1)]);
        assert(d.drop_last().drop_last() == Seq::<char>::empty());
        assert(digits_value(d) == n);
    }
    assert(d[0] != '+');
    assert(parse_unsigned(d, 256) == Some(n as nat));
}

/// Writing a chord as a key spec and reading it back gives the same chord.
pub proof fn spec_round_trip(c: Chord)
    requires
        has_spec(c),
    ensures
        spec_event(mods_spec(c.mods) + code_spec(c.code)) == Some(
            KeyEvent { code: c.code, modifiers: c.mods },
        ),
        chord_of(KeyEvent { code: c.code, modifiers: c.mods }) == c,
{
    let name = code_spec(c.code);
    match c.code {
        KeyCode::Enter => {
            lemma_name_enter();
        },
        KeyCode::Tab => {
            lemma_name_tab();
        },
        KeyCode::BackTab => {
            lemma_name_backtab();
        },
        KeyCode::Esc => {
            lemma_name_esc();
        },
        KeyCode::Backspace => {
            lemma_name_backspace();
        },
        KeyCode::Delete => {
            lemma_name_delete();
        },
        KeyCode::Insert => {
            lemma_name_insert();
        },
        KeyCode::Up => {
            lemma_name_up();
        },
        KeyCode::Down => {
            lemma_name_down();
        },
        KeyCode::Left => {
            lemma_name_left();
        },
        KeyCode::Right => {
            lemma_name_right();
        },
        KeyCode::Home => {
            lemma_name_home();
        },
        KeyCode::End => {
            lemma_name_end();
        },
        KeyCode::PageUp => {
            lemma_name_pageup();
        },
        KeyCode::PageDown => {
            lemma_name_pagedown();
        },
        KeyCode::F(n) => {
            lemma_name_f(n);
        },
        KeyCode::Char(ch) => {
            if ch == ' ' {
                lemma_name_space();
            } else {
                lemma_name_char(ch);
            }
        },
        _ => {},
    }
    assert(good_name(name, c.code));
    lemma_prefixes();
    let none = KeyModifiers::spec_none();
    let s1 = if c.mods.shift {
        "shift+"@
    } else {
        ""@
    } + name;
    if c.mods.shift {
        lemma_shift(name);
    } else {
        assert(s1 == name);
    }
    assert(split_mods(s1) == (KeyModifiers { shift: c.mods.shift, ..none }, name));
    let s2 = if c.mods.alt {
        "alt+"@
    } else {
        ""@
    } + s1;
    if c.mods.alt {
        lemma_alt(s1);
    } else {
        assert(s2 == s1);
    }
    assert(split_mods(s2) == (
        KeyModifiers { shift: c.mods.shift, alt: c.mods.alt, ..none },
        name,
    ));
    let s3 = if c.mods.ctrl {
        "ctrl+"@
    } else {
        ""@
    } + s2;
    if c.mods.ctrl {
        lemma_ctrl(s2);
    } else {
        assert(s3 == s2);
    }
    assert(split_mods(s3) == (c.mods, name));
    assert(mods_spec(c.mods) + name == s3);
    assert(s3.last() == name.last());
    assert(!is_space(s3[0])) by {
        if c.mods.ctrl {
            assert(s3[0] == 'c');
        } else if c.mods.alt {
            assert(s3[0] == 'a');
        } else if c.mods.shift {
            assert(s3[0] == 's');
        } else {
            assert(s3[0] == name[0]);
        }
    }
    lemma_trim_kept(s3);
}

} // verus!
