//! Key specs such as `ctrl+c` or `f1`, chords, and the table that maps chords
//! to commands.
use crate::command::{builtin, commands_view, registry, Command, CommandV, Registry};
use crate::config::AppConfig;
use crate::key::{KeyCode, KeyEvent, KeyModifiers};
use crate::text::{
    all_digits, chars_of, decimal, decimal_str, parse_below, parse_unsigned, starts, str_eq,
    string_of, trim, trimmed,
};
use vstd::prelude::*;
use vstd::string::*;

verus! {

pub open spec fn is_upper(c: char) -> bool {
    'A' <= c <= 'Z'
}

/// `c` with an ASCII capital lowered.
pub open spec fn lower(c: char) -> char {
    if is_upper(c) {
        (c as u8 + 32) as u8 as char
    } else {
        c
    }
}

pub open spec fn lower_all(s: Seq<char>) -> Seq<char> {
    Seq::new(s.len(), |i: int| lower(s[i]))
}

pub fn ascii_lower(c: char) -> (r: char)
    ensures
        r == lower(c),
{
    if c >= 'A' && c <= 'Z' {
        (c as u8 + 32) as char
    } else {
        c
    }
}

/// A text with its ASCII capitals lowered.
pub fn lowered(s: &str) -> (r: String)
    ensures
        r@ == lower_all(s@),
{
    let v: Vec<char> = chars_of(s);
    let mut r: String = String::new();
    let mut i: usize = 0;
    while i < v.len()
        invariant
            i <= v.len(),
            r@ == lower_all(v@).take(i as int),
        decreases v.len() - i,
    {
        r.push(ascii_lower(v[i]));
        i += 1;
        assert(lower_all(v@).take(i as int) == lower_all(v@).take(i - 1).push(
            lower_all(v@)[i - 1],
        ));
    }
    assert(lower_all(v@).take(i as int) == lower_all(v@));
    r
}

/// The ASCII-lowercase form of the characters from `from` on.
fn lower_from(v: &Vec<char>, from: usize) -> (s: String)
    requires
        from <= v.len(),
    ensures
        s@ == lower_all(v@.skip(from as int)),
{
    let mut s: String = String::new();
    let mut i: usize = from;
    while i < v.len()
        invariant
            from <= i <= v.len(),
            s@ == lower_all(v@.subrange(from as int, i as int)),
        decreases v.len() - i,
    {
        s.push(ascii_lower(v[i]));
        i += 1;
        assert(s@ == lower_all(v@.subrange(from as int, i as int)));
    }
    assert(v@.subrange(from as int, v@.len() as int) == v@.skip(from as int));
    s
}

/// A key with its modifiers in normal form: a capital letter is written as the
/// small one with Shift, so that `P` and `shift+p` are one chord.
#[derive(Debug, Clone, Copy, PartialEq, Eq, Hash, Structural)]
pub struct Chord {
    pub code: KeyCode,
    pub mods: KeyModifiers,
}

/// The chord of a key press.
pub open spec fn chord_of(ev: KeyEvent) -> Chord {
    match ev.code {
        KeyCode::Char(c) => if is_upper(c) {
            Chord {
                code: KeyCode::Char(lower(c)),
                mods: KeyModifiers { shift: true, ..ev.modifiers },
            }
        } else {
            Chord { code: ev.code, mods: ev.modifiers }
        },
        _ => Chord { code: ev.code, mods: ev.modifiers },
    }
}

/// The part of a key spec that names the modifiers.
pub open spec fn mods_spec(m: KeyModifiers) -> Seq<char> {
    (if m.ctrl {
        "ctrl+"@
    } else {
        ""@
    }) + (if m.alt {
        "alt+"@
    } else {
        ""@
    }) + (if m.shift {
        "shift+"@
    } else {
        ""@
    })
}

/// The name of a key in a key spec.
pub open spec fn code_spec(code: KeyCode) -> Seq<char> {
    match code {
        KeyCode::Enter => "enter"@,
        KeyCode::Tab => "tab"@,
        KeyCode::BackTab => "backtab"@,
        KeyCode::Esc => "esc"@,
        KeyCode::Backspace => "backspace"@,
        KeyCode::Delete => "delete"@,
        KeyCode::Insert => "insert"@,
        KeyCode::Up => "up"@,
        KeyCode::Down => "down"@,
        KeyCode::Left => "left"@,
        KeyCode::Right => "right"@,
        KeyCode::Home => "home"@,
        KeyCode::End => "end"@,
        KeyCode::PageUp => "pageup"@,
        KeyCode::PageDown => "pagedown"@,
        KeyCode::F(n) => "f"@ + decimal(n as nat),
        KeyCode::Char(c) => if c == ' ' {
            "space"@
        } else {
            seq![c]
        },
        KeyCode::Null => "Null"@,
        KeyCode::CapsLock => "CapsLock"@,
        KeyCode::ScrollLock => "ScrollLock"@,
        KeyCode::NumLock => "NumLock"@,
        KeyCode::PrintScreen => "PrintScreen"@,
        KeyCode::Pause => "Pause"@,
        KeyCode::Menu => "Menu"@,
        KeyCode::KeypadBegin => "KeypadBegin"@,
    }
}

fn code_name(code: KeyCode) -> (s: String)
    ensures
        s@ == code_spec(code),
{
    match code {
        KeyCode::Enter => "enter".to_owned(),
        KeyCode::Tab => "tab".to_owned(),
        KeyCode::BackTab => "backtab".to_owned(),
        KeyCode::Esc => "esc".to_owned(),
        KeyCode::Backspace => "backspace".to_owned(),
        KeyCode::Delete => "delete".to_owned(),
        KeyCode::Insert => "insert".to_owned(),
        KeyCode::Up => "up".to_owned(),
        KeyCode::Down => "down".to_owned(),
        KeyCode::Left => "left".to_owned(),
        KeyCode::Right => "right".to_owned(),
        KeyCode::Home => "home".to_owned(),
        KeyCode::End => "end".to_owned(),
        KeyCode::PageUp => "pageup".to_owned(),
        KeyCode::PageDown => "pagedown".to_owned(),
        KeyCode::F(n) => {
            let mut s: String = "f".to_owned();
            s.append(decimal_str(n as u64).as_str());
            s
        },
        KeyCode::Char(c) => {
            if c == ' ' {
                "space".to_owned()
            } else {
                let mut s: String = String::new();
                s.push(c);
                assert(s@ == seq![c]);
                s
            }
        },
        KeyCode::Null => "Null".to_owned(),
        KeyCode::CapsLock => "CapsLock".to_owned(),
        KeyCode::ScrollLock => "ScrollLock".to_owned(),
        KeyCode::NumLock => "NumLock".to_owned(),
        KeyCode::PrintScreen => "PrintScreen".to_owned(),
        KeyCode::Pause => "Pause".to_owned(),
        KeyCode::Menu => "Menu".to_owned(),
        KeyCode::KeypadBegin => "KeypadBegin".to_owned(),
    }
}

impl Chord {
    pub fn of(ev: &KeyEvent) -> (c: Chord)
        ensures
            c == chord_of(*ev),
    {
        let mut mods: KeyModifiers = ev.modifiers;
        let code: KeyCode = match ev.code {
            KeyCode::Char(c) => {
                if c >= 'A' && c <= 'Z' {
                    mods.shift = true;
                    KeyCode::Char(ascii_lower(c))
                } else {
                    ev.code
                }
            },
            other => other,
        };
        Chord { code, mods }
    }

    /// The chord as a key spec (`ctrl+c`, `enter`, `f1`, …).
    pub fn to_spec(&self) -> (s: String)
        ensures
            s@ == mods_spec(self.mods) + code_spec(self.code),
    {
        let mut s: String = String::new();
        proof {
            reveal_strlit("");
            assert(s@ == ""@);
        }
        if self.mods.ctrl {
            s.append("ctrl+");
        }
        assert(s@ == if self.mods.ctrl {
            "ctrl+"@
        } else {
            ""@
        });
        if self.mods.alt {
            s.append("alt+");
        }
        if self.mods.shift {
            s.append("shift+");
        }
        assert(s@ == mods_spec(self.mods));
        s.append(code_name(self.code).as_str());
        s
    }
}

/// The modifier a lowercased spec begins with, and how long its name is.
pub open spec fn leading_mod(lower: Seq<char>) -> Option<(KeyModifiers, int)> {
    let none = KeyModifiers::spec_none();
    if starts(lower, "ctrl+"@) {
        Some((KeyModifiers { ctrl: true, ..none }, 5))
    } else if starts(lower, "c-"@) {
        Some((KeyModifiers { ctrl: true, ..none }, 2))
    } else if starts(lower, "shift+"@) {
        Some((KeyModifiers { shift: true, ..none }, 6))
    } else if starts(lower, "s-"@) {
        Some((KeyModifiers { shift: true, ..none }, 2))
    } else if starts(lower, "alt+"@) {
        Some((KeyModifiers { alt: true, ..none }, 4))
    } else if starts(lower, "a-"@) {
        Some((KeyModifiers { alt: true, ..none }, 2))
    } else if starts(lower, "meta+"@) {
        Some((KeyModifiers { alt: true, ..none }, 5))
    } else {
        None
    }
}

/// Both sets of modifiers together.
pub open spec fn join_mods(a: KeyModifiers, b: KeyModifiers) -> KeyModifiers {
    KeyModifiers {
        shift: a.shift || b.shift,
        ctrl: a.ctrl || b.ctrl,
        alt: a.alt || b.alt,
        logo: a.logo || b.logo,
        hyper: a.hyper || b.hyper,
        meta: a.meta || b.meta,
    }
}

/// The modifiers named in front of a spec, and what follows them.
pub open spec fn split_mods(s: Seq<char>) -> (KeyModifiers, Seq<char>)
    decreases s.len(),
{
    match leading_mod(lower_all(s)) {
        Some((m, n)) => if 0 < n <= s.len() {
            let rest = split_mods(s.skip(n));
            (join_mods(m, rest.0), rest.1)
        } else {
            (KeyModifiers::spec_none(), s)
        },
        None => (KeyModifiers::spec_none(), s),
    }
}

/// The key that a lowercased name stands for.
pub open spec fn named_code(t: Seq<char>) -> Option<KeyCode> {
    if t == "enter"@ || t == "return"@ || t == "cr"@ {
        Some(KeyCode::Enter)
    } else if t == "tab"@ {
        Some(KeyCode::Tab)
    } else if t == "backtab"@ {
        Some(KeyCode::BackTab)
    } else if t == "esc"@ || t == "escape"@ {
        Some(KeyCode::Esc)
    } else if t == "space"@ {
        Some(KeyCode::Char(' '))
    } else if t == "backspace"@ || t == "bs"@ {
        Some(KeyCode::Backspace)
    } else if t == "delete"@ || t == "del"@ {
        Some(KeyCode::Delete)
    } else if t == "insert"@ || t == "ins"@ {
        Some(KeyCode::Insert)
    } else if t == "up"@ {
        Some(KeyCode::Up)
    } else if t == "down"@ {
        Some(KeyCode::Down)
    } else if t == "left"@ {
        Some(KeyCode::Left)
    } else if t == "right"@ {
        Some(KeyCode::Right)
    } else if t == "home"@ {
        Some(KeyCode::Home)
    } else if t == "end"@ {
        Some(KeyCode::End)
    } else if t == "pageup"@ || t == "pgup"@ {
        Some(KeyCode::PageUp)
    } else if t == "pagedown"@ || t == "pgdn"@ || t == "pgdown"@ {
        Some(KeyCode::PageDown)
    } else {
        None
    }
}

/// A name that reads `f` and then only digits.
pub open spec fn is_fkey_name(t: Seq<char>) -> bool {
    t.len() > 0 && t[0] == 'f' && all_digits(t.skip(1))
}

/// The key that a token stands for: a named key, `f1` to `f12`, or a single
/// character. A lone `f` is read as a function key without a number, and
/// stands for nothing.
pub open spec fn token_code(token: Seq<char>) -> Option<KeyCode> {
    let t = lower_all(token);
    if named_code(t) is Some {
        named_code(t)
    } else if is_fkey_name(t) {
        match parse_unsigned(t.skip(1), 256) {
            Some(n) => if 1 <= n <= 12 {
                Some(KeyCode::F(n as u8))
            } else {
                None
            },
            None => None,
        }
    } else if token.len() == 1 {
        Some(KeyCode::Char(token[0]))
    } else {
        None
    }
}

/// The key press a spec stands for.
pub open spec fn spec_event(spec: Seq<char>) -> Option<KeyEvent> {
    let (mods, rest) = split_mods(trim(spec));
    match token_code(rest) {
        Some(code) => Some(KeyEvent { code, modifiers: mods }),
        None => None,
    }
}

fn find_named(t: &str) -> (r: Option<KeyCode>)
    ensures
        r == named_code(t@),
{
    if str_eq(t, "enter") || str_eq(t, "return") || str_eq(t, "cr") {
        Some(KeyCode::Enter)
    } else if str_eq(t, "tab") {
        Some(KeyCode::Tab)
    } else if str_eq(t, "backtab") {
        Some(KeyCode::BackTab)
    } else if str_eq(t, "esc") || str_eq(t, "escape") {
        Some(KeyCode::Esc)
    } else if str_eq(t, "space") {
        Some(KeyCode::Char(' '))
    } else if str_eq(t, "backspace") || str_eq(t, "bs") {
        Some(KeyCode::Backspace)
    } else if str_eq(t, "delete") || str_eq(t, "del") {
        Some(KeyCode::Delete)
    } else if str_eq(t, "insert") || str_eq(t, "ins") {
        Some(KeyCode::Insert)
    } else if str_eq(t, "up") {
        Some(KeyCode::Up)
    } else if str_eq(t, "down") {
        Some(KeyCode::Down)
    } else if str_eq(t, "left") {
        Some(KeyCode::Left)
    } else if str_eq(t, "right") {
        Some(KeyCode::Right)
    } else if str_eq(t, "home") {
        Some(KeyCode::Home)
    } else if str_eq(t, "end") {
        Some(KeyCode::End)
    } else if str_eq(t, "pageup") || str_eq(t, "pgup") {
        Some(KeyCode::PageUp)
    } else if str_eq(t, "pagedown") || str_eq(t, "pgdn") || str_eq(t, "pgdown") {
        Some(KeyCode::PageDown)
    } else {
        None
    }
}

fn digits_only(v: &Vec<char>, from: usize) -> (b: bool)
    requires
        from <= v.len(),
    ensures
        b == all_digits(v@.skip(from as int)),
{
    let mut i: usize = from;
    while i < v.len()
        invariant
            from <= i <= v.len(),
            forall|k: int| from <= k < i ==> '0' <= #[trigger] v@[k] <= '9',
        decreases v.len() - i,
    {
        if !(v[i] >= '0' && v[i] <= '9') {
            assert(v@.skip(from as int)[i - from] == v@[i as int]);
            return false;
        }
        i += 1;
    }
    true
}

/// The key that the characters from `from` on stand for.
fn key_code(v: &Vec<char>, from: usize) -> (r: Option<KeyCode>)
    requires
        from <= v.len(),
    ensures
        r == token_code(v@.skip(from as int)),
{
    let ghost token = v@.skip(from as int);
    let t: String = lower_from(v, from);
    let named: Option<KeyCode> = find_named(t.as_str());
    if named.is_some() {
        return named;
    }
    let tv: Vec<char> = chars_of(t.as_str());
    if tv.len() > 0 && tv[0] == 'f' && digits_only(&tv, 1) {
        let number: String = string_of(&tv, 1, tv.len());
        assert(number@ == lower_all(token).skip(1));
        return match parse_below(number.as_str(), 256) {
            Some(n) => if 1 <= n && n <= 12 {
                Some(KeyCode::F(n as u8))
            } else {
                None
            },
            None => None,
        };
    }
    if v.len() - from == 1 {
        Some(KeyCode::Char(v[from]))
    } else {
        None
    }
}

fn lead(t: &str) -> (r: Option<(KeyModifiers, usize)>)
    ensures
        match r {
            Some((m, n)) => leading_mod(t@) == Some((m, n as int)) && 0 < n <= t@.len(),
            None => leading_mod(t@) is None,
        },
{
    proof {
        reveal_strlit("ctrl+");
        reveal_strlit("c-");
        reveal_strlit("shift+");
        reveal_strlit("s-");
        reveal_strlit("alt+");
        reveal_strlit("a-");
        reveal_strlit("meta+");
    }
    let ctrl: KeyModifiers = KeyModifiers {
        shift: false,
        ctrl: true,
        alt: false,
        logo: false,
        hyper: false,
        meta: false,
    };
    let shift: KeyModifiers = KeyModifiers {
        shift: true,
        ctrl: false,
        alt: false,
        logo: false,
        hyper: false,
        meta: false,
    };
    let alt: KeyModifiers = KeyModifiers {
        shift: false,
        ctrl: false,
        alt: true,
        logo: false,
        hyper: false,
        meta: false,
    };
    if crate::text::has_prefix(t, "ctrl+") {
        Some((ctrl, 5))
    } else if crate::text::has_prefix(t, "c-") {
        Some((ctrl, 2))
    } else if crate::text::has_prefix(t, "shift+") {
        Some((shift, 6))
    } else if crate::text::has_prefix(t, "s-") {
        Some((shift, 2))
    } else if crate::text::has_prefix(t, "alt+") {
        Some((alt, 4))
    } else if crate::text::has_prefix(t, "a-") {
        Some((alt, 2))
    } else if crate::text::has_prefix(t, "meta+") {
        Some((alt, 5))
    } else {
        None
    }
}

/// Reads a key spec: modifiers (`ctrl+`/`c-`, `shift+`/`s-`,
/// `alt+`/`a-`/`meta+`) in any order and case, then a key.
pub fn parse_key_spec(spec: &str) -> (r: Option<KeyEvent>)
    ensures
        r == spec_event(spec@),
{
    let spec: String = trimmed(spec);
    let v: Vec<char> = chars_of(spec.as_str());
    let mut mods: KeyModifiers = KeyModifiers::none();
    let mut from: usize = 0;
    assert(v@.skip(0) == v@);
    loop
        invariant_except_break
            split_mods(v@) == (
                join_mods(mods, split_mods(v@.skip(from as int)).0),
                split_mods(v@.skip(from as int)).1,
            ),
        invariant
            from <= v.len(),
        ensures
            split_mods(v@) == (mods, v@.skip(from as int)),
        decreases v.len() - from,
    {
        let t: String = lower_from(&v, from);
        match lead(t.as_str()) {
            Some((m, n)) => {
                assert(v@.skip(from as int).skip(n as int) == v@.skip(from + n));
                mods = KeyModifiers {
                    shift: mods.shift || m.shift,
                    ctrl: mods.ctrl || m.ctrl,
                    alt: mods.alt || m.alt,
                    logo: mods.logo || m.logo,
                    hyper: mods.hyper || m.hyper,
                    meta: mods.meta || m.meta,
                };
                from = from + n;
            },
            None => {
                break;
            },
        }
    }
    match key_code(&v, from) {
        Some(code) => Some(KeyEvent::new(code, mods)),
        None => None,
    }
}

/// Some entry binds the chord.
pub open spec fn binds(entries: Seq<(Chord, String)>, c: Chord) -> bool {
    exists|i: int| 0 <= i < entries.len() && (#[trigger] entries[i]).0 == c
}

/// The bindings of a list of entries.
pub open spec fn table(entries: Seq<(Chord, String)>) -> Map<Chord, Seq<char>> {
    Map::new(
        |c: Chord| binds(entries, c),
        |c: Chord|
            {
                let i = choose|i: int| 0 <= i < entries.len() && (#[trigger] entries[i]).0 == c;
                entries[i].1@
            },
    )
}

/// No chord has two entries.
pub open spec fn one_each(entries: Seq<(Chord, String)>) -> bool {
    forall|i: int, j: int|
        0 <= i < j < entries.len() ==> (#[trigger] entries[i]).0 != (#[trigger] entries[j]).0
}

/// The one table that chords are looked up in.
pub struct Keymap {
    pub entries: Vec<(Chord, String)>,
}

impl View for Keymap {
    type V = Map<Chord, Seq<char>>;

    open spec fn view(&self) -> Map<Chord, Seq<char>> {
        table(self.entries@)
    }
}

/// What binding a key spec to a command does: a bad spec does nothing.
pub open spec fn bound(m: Map<Chord, Seq<char>>, spec: Seq<char>, id: Seq<char>) -> Map<
    Chord,
    Seq<char>,
> {
    match spec_event(spec) {
        Some(ev) => m.insert(chord_of(ev), id),
        None => m,
    }
}

/// An id that removes a binding.
pub open spec fn unbinds(id: Seq<char>) -> bool {
    id.len() == 0 || id == "none"@ || id == "unbound"@
}

/// What a row of the user's key table does.
pub open spec fn overlaid(m: Map<Chord, Seq<char>>, spec: Seq<char>, id: Seq<char>) -> Map<
    Chord,
    Seq<char>,
> {
    match spec_event(spec) {
        Some(ev) => if unbinds(trim(id)) {
            m.remove(chord_of(ev))
        } else {
            m.insert(chord_of(ev), trim(id))
        },
        None => m,
    }
}

/// The bindings after the first `n` default keys of a command.
pub open spec fn with_keys(m: Map<Chord, Seq<char>>, keys: Seq<&'static str>, id: Seq<char>, n: nat) -> Map<
    Chord,
    Seq<char>,
>
    decreases n,
{
    if n == 0 {
        m
    } else {
        bound(with_keys(m, keys, id, (n - 1) as nat), keys[n - 1]@, id)
    }
}

/// The bindings after the default keys of the first `n` commands.
pub open spec fn default_keys(commands: Seq<CommandV>, n: nat) -> Map<Chord, Seq<char>>
    decreases n,
{
    if n == 0 {
        Map::empty()
    } else {
        with_keys(
            default_keys(commands, (n - 1) as nat),
            commands[n - 1].keys,
            commands[n - 1].id@,
            commands[n - 1].keys.len(),
        )
    }
}

/// The bindings after the first `n` rows of the user's key table.
pub open spec fn user_keys(m: Map<Chord, Seq<char>>, rows: Seq<(String, String)>, n: nat) -> Map<
    Chord,
    Seq<char>,
>
    decreases n,
{
    if n == 0 {
        m
    } else {
        overlaid(user_keys(m, rows, (n - 1) as nat), rows[n - 1].0@, rows[n - 1].1@)
    }
}

proof fn lemma_table(entries: Seq<(Chord, String)>, i: int)
    requires
        one_each(entries),
        0 <= i < entries.len(),
    ensures
        table(entries).dom().contains(entries[i].0),
        table(entries)[entries[i].0] == entries[i].1@,
{
    let c = entries[i].0;
    let k = choose|k: int| 0 <= k < entries.len() && (#[trigger] entries[k]).0 == c;
    assert(entries[k].0 == c);
    if k < i {
        assert(entries[k].0 != entries[i].0);
    } else if i < k {
        assert(entries[i].0 != entries[k].0);
    }
}

impl Keymap {
    pub open spec fn wf(self) -> bool {
        one_each(self.entries@)
    }

    pub fn empty() -> (k: Keymap)
        ensures
            k.wf(),
            k@ == Map::<Chord, Seq<char>>::empty(),
    {
        let k: Keymap = Keymap { entries: Vec::new() };
        assert(k@ == Map::<Chord, Seq<char>>::empty());
        k
    }

    fn find(&self, c: Chord) -> (r: Option<usize>)
        ensures
            match r {
                Some(i) => i < self.entries.len() && self.entries@[i as int].0 == c,
                None => !binds(self.entries@, c),
            },
    {
        let mut i: usize = 0;
        while i < self.entries.len()
            invariant
                i <= self.entries.len(),
                forall|j: int| 0 <= j < i ==> (#[trigger] self.entries@[j]).0 != c,
            decreases self.entries.len() - i,
        {
            if self.entries[i].0 == c {
                return Some(i);
            }
            i += 1;
        }
        None
    }

    fn insert(&mut self, c: Chord, id: &str)
        requires
            old(self).wf(),
        ensures
            final(self).wf(),
            final(self)@ == old(self)@.insert(c, id@),
    {
        let ghost before = self.entries@;
        match self.find(c) {
            Some(i) => {
                self.entries[i].1 = id.to_owned();
                proof {
                    let after = self.entries@;
                    assert forall|j: int, k: int| 0 <= j < k < after.len() implies (
                    #[trigger] after[j]).0 != (#[trigger] after[k]).0 by {
                        assert(before[j].0 != before[k].0);
                    }
                    assert forall|d: Chord| binds(after, d) == binds(before, d) by {
                        if binds(before, d) {
                            let k = choose|k: int|
                                0 <= k < before.len() && (#[trigger] before[k]).0 == d;
                            assert(after[k].0 == d);
                        }
                        if binds(after, d) {
                            let k = choose|k: int|
                                0 <= k < after.len() && (#[trigger] after[k]).0 == d;
                            assert(before[k].0 == d);
                        }
                    }
                    assert(before[i as int].0 == c);
                    assert(binds(before, c));
                    assert forall|d: Chord| binds(after, d) implies #[trigger] table(after)[d]
                        == table(before).insert(c, id@)[d] by {
                        let k = choose|k: int|
                            0 <= k < after.len() && (#[trigger] after[k]).0 == d;
                        lemma_table(after, k);
                        lemma_table(before, k);
                        if k != i {
                            if k < i {
                                assert(before[k].0 != before[i as int].0);
                            } else {
                                assert(before[i as int].0 != before[k].0);
                            }
                        }
                    }
                    assert(table(after) == table(before).insert(c, id@));
                }
            },
            None => {
                self.entries.push((c, id.to_owned()));
                proof {
                    let after = self.entries@;
                    assert forall|j: int, k: int| 0 <= j < k < after.len() implies (
                    #[trigger] after[j]).0 != (#[trigger] after[k]).0 by {
                        if k < before.len() {
                            assert(before[j].0 != before[k].0);
                        } else {
                            assert(before[j].0 != c);
                        }
                    }
                    assert(after[before.len() as int].0 == c);
                    assert forall|d: Chord| binds(after, d) == (binds(before, d) || d == c) by {
                        if binds(before, d) {
                            let k = choose|k: int|
                                0 <= k < before.len() && (#[trigger] before[k]).0 == d;
                            assert(after[k].0 == d);
                        }
                        if binds(after, d) {
                            let k = choose|k: int|
                                0 <= k < after.len() && (#[trigger] after[k]).0 == d;
                            if k < before.len() {
                                assert(before[k].0 == d);
                            }
                        }
                    }
                    assert forall|d: Chord| binds(after, d) implies #[trigger] table(after)[d]
                        == table(before).insert(c, id@)[d] by {
                        let k = choose|k: int|
                            0 <= k < after.len() && (#[trigger] after[k]).0 == d;
                        lemma_table(after, k);
                        if k < before.len() {
                            lemma_table(before, k);
                            assert(before[k].0 != c);
                        }
                    }
                    assert(table(after) == table(before).insert(c, id@));
                }
            },
        }
    }

    fn remove(&mut self, c: Chord)
        requires
            old(self).wf(),
        ensures
            final(self).wf(),
            final(self)@ == old(self)@.remove(c),
    {
        let ghost before = self.entries@;
        match self.find(c) {
            Some(i) => {
                let _ = self.entries.remove(i);
                proof {
                    let after = self.entries@;
                    assert forall|j: int, k: int| 0 <= j < k < after.len() implies (
                    #[trigger] after[j]).0 != (#[trigger] after[k]).0 by {
                        let j0 = if j < i {
                            j
                        } else {
                            j + 1
                        };
                        let k0 = if k < i {
                            k
                        } else {
                            k + 1
                        };
                        assert(before[j0].0 != before[k0].0);
                    }
                    assert forall|d: Chord| binds(after, d) == (binds(before, d) && d != c) by {
                        if binds(before, d) && d != c {
                            let k = choose|k: int|
                                0 <= k < before.len() && (#[trigger] before[k]).0 == d;
                            let k1 = if k < i {
                                k
                            } else {
                                k - 1
                            };
                            assert(after[k1].0 == d);
                        }
                        if binds(after, d) {
                            let k = choose|k: int|
                                0 <= k < after.len() && (#[trigger] after[k]).0 == d;
                            let k0 = if k < i {
                                k
                            } else {
                                k + 1
                            };
                            assert(before[k0].0 == d);
                            if k0 < i {
                                assert(before[k0].0 != before[i as int].0);
                            } else {
                                assert(before[i as int].0 != before[k0].0);
                            }
                        }
                    }
                    assert forall|d: Chord| binds(after, d) implies #[trigger] table(after)[d]
                        == table(before).remove(c)[d] by {
                        let k = choose|k: int|
                            0 <= k < after.len() && (#[trigger] after[k]).0 == d;
                        let k0 = if k < i {
                            k
                        } else {
                            k + 1
                        };
                        lemma_table(after, k);
                        lemma_table(before, k0);
                    }
                    assert(table(after) == table(before).remove(c));
                }
            },
            None => {
                assert(table(before) == table(before).remove(c));
            },
        }
    }

    /// The default keys of every command, then the user's key table, where an
    /// empty id, `none` or `unbound` removes a binding.
    pub fn build(cfg: &AppConfig) -> (km: Keymap)
        ensures
            km.wf(),
            km@ == user_keys(
                default_keys(builtin(), builtin().len()),
                cfg.global_keys@,
                cfg.global_keys@.len(),
            ),
    {
        let mut km: Keymap = Keymap::empty();
        let reg: Registry = registry();
        let ghost commands = commands_view(reg.commands@);
        let mut i: usize = 0;
        while i < reg.commands.len()
            invariant
                i <= reg.commands.len(),
                commands == commands_view(reg.commands@),
                km.wf(),
                km@ == default_keys(commands, i as nat),
            decreases reg.commands.len() - i,
        {
            let cmd: &Command = &reg.commands[i];
            let ghost base = km@;
            assert(commands[i as int] == cmd@);
            let mut k: usize = 0;
            while k < cmd.keys.len()
                invariant
                    k <= cmd.keys.len(),
                    km.wf(),
                    km@ == with_keys(base, cmd.keys@, cmd.id@, k as nat),
                decreases cmd.keys.len() - k,
            {
                km.bind(cmd.keys[k], cmd.id);
                k += 1;
            }
            i += 1;
        }
        let ghost base = km@;
        let mut j: usize = 0;
        while j < cfg.global_keys.len()
            invariant
                j <= cfg.global_keys.len(),
                km.wf(),
                km@ == user_keys(base, cfg.global_keys@, j as nat),
            decreases cfg.global_keys.len() - j,
        {
            let row: &(String, String) = &cfg.global_keys[j];
            if let Some(ev) = parse_key_spec(row.0.as_str()) {
                let chord: Chord = Chord::of(&ev);
                let id: String = trimmed(row.1.as_str());
                if id.as_str().is_empty() || str_eq(id.as_str(), "none") || str_eq(
                    id.as_str(),
                    "unbound",
                ) {
                    km.remove(chord);
                } else {
                    km.insert(chord, id.as_str());
                }
            }
            j += 1;
        }
        km
    }

    /// The command bound to a key press.
    pub fn resolve(&self, ev: &KeyEvent) -> (r: Option<&str>)
        requires
            self.wf(),
        ensures
            match r {
                Some(id) => self@.dom().contains(chord_of(*ev)) && self@[chord_of(*ev)] == id@,
                None => !self@.dom().contains(chord_of(*ev)),
            },
    {
        match self.find(Chord::of(ev)) {
            Some(i) => {
                proof {
                    lemma_table(self.entries@, i as int);
                }
                Some(self.entries[i].1.as_str())
            },
            None => None,
        }
    }

    /// How many chords are bound.
    pub fn binding_count(&self) -> (n: usize)
        requires
            self.wf(),
        ensures
            self@.dom().finite(),
            n == self@.dom().len(),
    {
        proof {
            lemma_count(self.entries@);
        }
        self.entries.len()
    }

    /// The bindings, each chord once.
    pub fn iter(&self) -> (v: &Vec<(Chord, String)>)
        requires
            self.wf(),
        ensures
            one_each(v@),
            table(v@) == self@,
    {
        &self.entries
    }

    /// Binds a key spec to a command; a bad spec does nothing.
    pub fn bind(&mut self, spec: &str, id: &str)
        requires
            old(self).wf(),
        ensures
            final(self).wf(),
            final(self)@ == bound(old(self)@, spec@, id@),
    {
        if let Some(ev) = parse_key_spec(spec) {
            self.insert(Chord::of(&ev), id);
        }
    }
}

proof fn lemma_count(entries: Seq<(Chord, String)>)
    requires
        one_each(entries),
    ensures
        table(entries).dom().finite(),
        table(entries).dom().len() == entries.len(),
    decreases entries.len(),
{
    if entries.len() == 0 {
        assert(table(entries).dom() =~= Set::<Chord>::empty());
    } else {
        let rest = entries.drop_last();
        let c = entries.last().0;
        assert forall|i: int, j: int| 0 <= i < j < rest.len() implies (#[trigger] rest[i]).0 != (
        #[trigger] rest[j]).0 by {
            assert(entries[i].0 != entries[j].0);
        }
        lemma_count(rest);
        assert(!binds(rest, c)) by {
            if binds(rest, c) {
                let k = choose|k: int| 0 <= k < rest.len() && (#[trigger] rest[k]).0 == c;
                assert(entries[k].0 != entries[entries.len() - 1].0);
            }
        }
        assert forall|d: Chord| binds(entries, d) == (binds(rest, d) || d == c) by {
            if binds(rest, d) {
                let k = choose|k: int| 0 <= k < rest.len() && (#[trigger] rest[k]).0 == d;
                assert(entries[k].0 == d);
            }
            if d == c {
                assert(entries[entries.len() - 1].0 == d);
            }
            if binds(entries, d) {
                let k = choose|k: int| 0 <= k < entries.len() && (#[trigger] entries[k]).0 == d;
                if k < rest.len() {
                    assert(rest[k].0 == d);
                }
            }
        }
        assert(table(entries).dom() =~= table(rest).dom().insert(c));
    }
}

} // verus!
