//! The colour theme shared with the host editor: its `[base_30]` table, read
//! onto a small palette.
use crate::blit::{opaque, rgb, Rgba};
use crate::text::{
    chars_of, concat3, split_on, split_text, str_eq, string_of, strs, trim, trimmed,
};
use vstd::prelude::*;
use vstd::string::*;

verus! {

/// One colour per role the renderer needs.
#[derive(Debug, Clone, Copy, PartialEq, Eq, Structural)]
pub struct Palette {
    pub bg: Rgba,
    pub fg: Rgba,
    pub dim: Rgba,
    pub accent: Rgba,
    pub red: Rgba,
    pub green: Rgba,
    pub yellow: Rgba,
    pub blue: Rgba,
    pub cyan: Rgba,
    pub purple: Rgba,
    pub orange: Rgba,
}

impl Palette {
    pub open spec fn spec_defaults() -> Palette {
        Palette {
            bg: opaque(0x10, 0x11, 0x1c),
            fg: opaque(0xab, 0xb2, 0xbf),
            dim: opaque(0x42, 0x46, 0x4e),
            accent: opaque(0x6e, 0xa2, 0xe7),
            red: opaque(0xe0, 0x60, 0x60),
            green: opaque(0x84, 0xc8, 0x6f),
            yellow: opaque(0xee, 0xbb, 0x57),
            blue: opaque(0x6e, 0xa2, 0xe7),
            cyan: opaque(0x5f, 0xb3, 0xa1),
            purple: opaque(0xc9, 0x7a, 0xea),
            orange: opaque(0xfc, 0xa2, 0xaa),
        }
    }

    /// The fallback for every key missing from the theme file.
    pub fn defaults() -> (p: Palette)
        ensures
            p == Palette::spec_defaults(),
    {
        Palette {
            bg: rgb(0x10, 0x11, 0x1c),
            fg: rgb(0xab, 0xb2, 0xbf),
            dim: rgb(0x42, 0x46, 0x4e),
            accent: rgb(0x6e, 0xa2, 0xe7),
            red: rgb(0xe0, 0x60, 0x60),
            green: rgb(0x84, 0xc8, 0x6f),
            yellow: rgb(0xee, 0xbb, 0x57),
            blue: rgb(0x6e, 0xa2, 0xe7),
            cyan: rgb(0x5f, 0xb3, 0xa1),
            purple: rgb(0xc9, 0x7a, 0xea),
            orange: rgb(0xfc, 0xa2, 0xaa),
        }
    }
}

/// The value of a hexadecimal digit.
pub open spec fn hex_digit(c: char) -> Option<int> {
    if '0' <= c <= '9' {
        Some(c as int - '0' as int)
    } else if 'a' <= c <= 'f' {
        Some(c as int - 'a' as int + 10)
    } else if 'A' <= c <= 'F' {
        Some(c as int - 'A' as int + 10)
    } else {
        None
    }
}

/// Two characters as a byte in hexadecimal; the first may be a plus sign.
pub open spec fn hex_byte(a: char, b: char) -> Option<u8> {
    match (hex_digit(a), hex_digit(b)) {
        (Some(h), Some(l)) => Some((16 * h + l) as u8),
        (None, Some(l)) => if a == '+' {
            Some(l as u8)
        } else {
            None
        },
        _ => None,
    }
}

/// `#rrggbb`, with white space around it.
pub open spec fn hex_color(s: Seq<char>) -> Option<(u8, u8, u8)> {
    let t = trim(s);
    if t.len() == 7 && t[0] == '#' {
        match (hex_byte(t[1], t[2]), hex_byte(t[3], t[4]), hex_byte(t[5], t[6])) {
            (Some(r), Some(g), Some(b)) => Some((r, g, b)),
            _ => None,
        }
    } else {
        None
    }
}

fn digit(c: char) -> (d: Option<u8>)
    ensures
        match d {
            Some(x) => hex_digit(c) == Some(x as int) && x < 16,
            None => hex_digit(c) is None,
        },
{
    if c >= '0' && c <= '9' {
        Some((c as u32 - '0' as u32) as u8)
    } else if c >= 'a' && c <= 'f' {
        Some((c as u32 - 'a' as u32) as u8 + 10)
    } else if c >= 'A' && c <= 'F' {
        Some((c as u32 - 'A' as u32) as u8 + 10)
    } else {
        None
    }
}

fn byte(a: char, b: char) -> (r: Option<u8>)
    ensures
        r == hex_byte(a, b),
{
    match (digit(a), digit(b)) {
        (Some(h), Some(l)) => Some(16 * h + l),
        (None, Some(l)) => if a == '+' {
            Some(l)
        } else {
            None
        },
        _ => None,
    }
}

pub fn parse_hex(s: &str) -> (r: Option<(u8, u8, u8)>)
    ensures
        r == hex_color(s@),
{
    let v: Vec<char> = chars_of(trimmed(s).as_str());
    if v.len() != 7 || v[0] != '#' {
        return None;
    }
    match (byte(v[1], v[2]), byte(v[3], v[4]), byte(v[5], v[6])) {
        (Some(r), Some(g), Some(b)) => Some((r, g, b)),
        _ => None,
    }
}

/// Without quotation marks in front.
pub open spec fn unquote_front(s: Seq<char>) -> Seq<char>
    decreases s.len(),
{
    if s.len() > 0 && s[0] == '"' {
        unquote_front(s.skip(1))
    } else {
        s
    }
}

/// Without quotation marks behind.
pub open spec fn unquote_back(s: Seq<char>) -> Seq<char>
    decreases s.len(),
{
    if s.len() > 0 && s.last() == '"' {
        unquote_back(s.drop_last())
    } else {
        s
    }
}

pub open spec fn unquoted(s: Seq<char>) -> Seq<char> {
    unquote_back(unquote_front(s))
}

fn unquote(s: &str) -> (r: String)
    ensures
        r@ == unquoted(s@),
{
    let v: Vec<char> = chars_of(s);
    let mut from: usize = 0;
    assert(v@.skip(0) == v@);
    while from < v.len() && v[from] == '"'
        invariant
            from <= v.len(),
            unquote_front(v@) == unquote_front(v@.skip(from as int)),
        decreases v.len() - from,
    {
        assert(v@.skip(from as int).skip(1) == v@.skip(from as int + 1));
        from += 1;
    }
    assert(unquote_front(v@) == v@.skip(from as int));
    let mut to: usize = v.len();
    assert(v@.subrange(from as int, to as int) == v@.skip(from as int));
    while to > from && v[to - 1] == '"'
        invariant
            from <= to <= v.len(),
            unquote_back(v@.skip(from as int)) == unquote_back(
                v@.subrange(from as int, to as int),
            ),
        decreases to,
    {
        assert(v@.subrange(from as int, to as int).drop_last() == v@.subrange(
            from as int,
            to as int - 1,
        ));
        to -= 1;
    }
    string_of(&v, from, to)
}

/// The first `=` of a line stands at `i`.
pub open spec fn first_equals(line: Seq<char>, i: int) -> bool {
    0 <= i < line.len() && line[i] == '=' && forall|j: int| 0 <= j < i ==> #[trigger] line[j] != '='
}

/// The key and the value of an assignment.
pub open spec fn assignment(line: Seq<char>) -> Option<(Seq<char>, Seq<char>)> {
    if exists|i: int| first_equals(line, i) {
        let i = choose|i: int| first_equals(line, i);
        Some((trim(line.take(i)), trim(line.skip(i + 1))))
    } else {
        None
    }
}

fn split_assignment(line: &str) -> (r: Option<(String, String)>)
    ensures
        match r {
            Some((k, v)) => assignment(line@) == Some((k@, v@)),
            None => assignment(line@) is None,
        },
{
    let v: Vec<char> = chars_of(line);
    let mut i: usize = 0;
    while i < v.len()
        invariant
            i <= v.len(),
            v@ == line@,
            forall|j: int| 0 <= j < i ==> #[trigger] v@[j] != '=',
        decreases v.len() - i,
    {
        if v[i] == '=' {
            proof {
                assert(first_equals(line@, i as int));
                let k = choose|k: int| first_equals(line@, k);
                assert(k == i) by {
                    if k < i {
                        assert(v@[k] != '=');
                    } else if i < k {
                        assert(line@[i as int] != '=');
                    }
                }
                assert(v@.subrange(0, i as int) == line@.take(i as int));
                assert(v@.subrange(i + 1, v@.len() as int) == line@.skip(i + 1));
            }
            let key: String = string_of(&v, 0, i);
            let value: String = string_of(&v, i + 1, v.len());
            return Some((trimmed(key.as_str()), trimmed(value.as_str())));
        }
        i += 1;
    }
    assert forall|k: int| !first_equals(line@, k) by {
        if 0 <= k < line@.len() {
            assert(v@[k] != '=');
        }
    }
    None
}

/// A header such as `[base_30]`.
pub open spec fn is_header(line: Seq<char>) -> bool {
    line.len() > 0 && line[0] == '['
}

/// The last header among the first `n` lines is `[base_30]`.
pub open spec fn in_base30(lines: Seq<Seq<char>>, n: int) -> bool
    decreases n,
{
    if n <= 0 {
        false
    } else {
        let line = trim(lines[n - 1]);
        if is_header(line) {
            line == "[base_30]"@
        } else {
            in_base30(lines, n - 1)
        }
    }
}

/// The colour that one line of the table gives to `key`: lines that are empty,
/// comments, headers, other keys or no colours give none.
pub open spec fn line_color(line: Seq<char>, key: Seq<char>) -> Option<(u8, u8, u8)> {
    let t = trim(line);
    if t.len() == 0 || t[0] == '#' || is_header(t) {
        None
    } else {
        match assignment(t) {
            Some((k, v)) => if k == key {
                hex_color(unquoted(v))
            } else {
                None
            },
            None => None,
        }
    }
}

/// The colour that the `[base_30]` rows among the first `n` lines give to
/// `key`; the last one counts.
pub open spec fn base30_color(lines: Seq<Seq<char>>, key: Seq<char>, n: int) -> Option<(u8, u8, u8)>
    decreases n,
{
    if n <= 0 {
        None
    } else if in_base30(lines, n - 1) && line_color(lines[n - 1], key) is Some {
        line_color(lines[n - 1], key)
    } else {
        base30_color(lines, key, n - 1)
    }
}

/// The colour of a role: from the theme, or the fallback.
pub open spec fn role(src: Seq<char>, key: Seq<char>, fallback: Rgba) -> Rgba {
    let lines = split_on(src, '\n');
    match base30_color(lines, key, lines.len() as int) {
        Some((r, g, b)) => opaque(r, g, b),
        None => fallback,
    }
}

fn color_in_line(line: &str, key: &str) -> (c: Option<(u8, u8, u8)>)
    ensures
        c == line_color(line@, key@),
{
    let t: String = trimmed(line);
    match crate::text::first_char(t.as_str()) {
        None => None,
        Some(c) => {
            if c == '#' || c == '[' {
                return None;
            }
            match split_assignment(t.as_str()) {
                Some((k, v)) => {
                    if str_eq(k.as_str(), key) {
                        parse_hex(unquote(v.as_str()).as_str())
                    } else {
                        None
                    }
                },
                None => None,
            }
        },
    }
}

fn pick(lines: &Vec<String>, key: &str, fallback: Rgba) -> (c: Rgba)
    ensures
        c == (match base30_color(strs(lines@), key@, lines@.len() as int) {
            Some((r, g, b)) => opaque(r, g, b),
            None => fallback,
        }),
{
    let ghost all = strs(lines@);
    let mut found: Rgba = fallback;
    let mut inside: bool = false;
    let mut i: usize = 0;
    while i < lines.len()
        invariant
            i <= lines.len(),
            all == strs(lines@),
            inside == in_base30(all, i as int),
            found == (match base30_color(all, key@, i as int) {
                Some((r, g, b)) => opaque(r, g, b),
                None => fallback,
            }),
        decreases lines.len() - i,
    {
        assert(all[i as int] == lines@[i as int]@);
        if inside {
            if let Some((r, g, b)) = color_in_line(lines[i].as_str(), key) {
                found = rgb(r, g, b);
            }
        }
        let t: String = trimmed(lines[i].as_str());
        if let Some(c) = crate::text::first_char(t.as_str()) {
            if c == '[' {
                inside = str_eq(t.as_str(), "[base_30]");
            }
        }
        i += 1;
    }
    found
}

/// The palette of a theme file.
pub open spec fn projected(src: Seq<char>) -> Palette {
    let d = Palette::spec_defaults();
    Palette {
        bg: role(src, "one_bg"@, d.bg),
        fg: role(src, "white"@, d.fg),
        dim: role(src, "light_grey"@, d.dim),
        accent: role(src, "blue"@, d.accent),
        red: role(src, "red"@, d.red),
        green: role(src, "green"@, d.green),
        yellow: role(src, "yellow"@, d.yellow),
        blue: role(src, "blue"@, d.blue),
        cyan: role(src, "cyan"@, d.cyan),
        purple: role(src, "purple"@, d.purple),
        orange: role(src, "orange"@, d.orange),
    }
}

/// Reads the `[base_30]` table of a theme file onto a palette. Only its rows
/// are read, missing keys fall back to the defaults, unknown keys and comments
/// are ignored.
pub fn project(src: &str) -> (p: Palette)
    ensures
        p == projected(src@),
{
    let lines: Vec<String> = split_text(src, '\n');
    let d: Palette = Palette::defaults();
    assert(strs(lines@).len() == lines@.len());
    Palette {
        bg: pick(&lines, "one_bg", d.bg),
        fg: pick(&lines, "white", d.fg),
        dim: pick(&lines, "light_grey", d.dim),
        accent: pick(&lines, "blue", d.accent),
        red: pick(&lines, "red", d.red),
        green: pick(&lines, "green", d.green),
        yellow: pick(&lines, "yellow", d.yellow),
        blue: pick(&lines, "blue", d.blue),
        cyan: pick(&lines, "cyan", d.cyan),
        purple: pick(&lines, "purple", d.purple),
        orange: pick(&lines, "orange", d.orange),
    }
}

/// A path with one more part.
pub open spec fn under(dir: Seq<char>, name: Seq<char>) -> Seq<char> {
    if dir.len() == 0 || dir.last() == '/' {
        dir + name
    } else {
        dir + "/"@ + name
    }
}

pub(crate) fn path_under(dir: &str, name: &str) -> (p: String)
    ensures
        p@ == under(dir@, name@),
{
    let v: Vec<char> = chars_of(dir);
    if v.len() == 0 || v[v.len() - 1] == '/' {
        crate::text::concat2(dir, name)
    } else {
        concat3(dir, "/", name)
    }
}

/// Where the theme file lies: under `$XDG_CONFIG_HOME` when that is set and not
/// empty, else under `$HOME/.config`.
pub fn theme_path(xdg: &Option<String>, home: &Option<String>) -> (p: Option<String>)
    ensures
        match (*xdg, *home) {
            (Some(x), _) if x@.len() > 0 => p matches Some(s) && s@ == under(
                under(x@, "mnml"@),
                "current-theme.toml"@,
            ),
            (_, Some(h)) => p matches Some(s) && s@ == under(
                under(under(h@, ".config"@), "mnml"@),
                "current-theme.toml"@,
            ),
            _ => p is None,
        },
{
    if let Some(x) = xdg {
        if !x.as_str().is_empty() {
            let dir: String = path_under(x.as_str(), "mnml");
            return Some(path_under(dir.as_str(), "current-theme.toml"));
        }
    }
    match home {
        Some(h) => {
            let config: String = path_under(h.as_str(), ".config");
            let dir: String = path_under(config.as_str(), "mnml");
            Some(path_under(dir.as_str(), "current-theme.toml"))
        },
        None => None,
    }
}

/// The palette in force and the time stamp of the file it was read from.
#[derive(Debug, Clone, Copy, PartialEq, Eq, Structural)]
pub struct State {
    pub palette: Option<Palette>,
    pub mtime: Option<u64>,
}

/// Nothing read yet.
pub fn state() -> (s: State)
    ensures
        s == (State { palette: None, mtime: None }),
{
    State { palette: None, mtime: None }
}

/// The palette in force, `None` while there is no theme file.
pub fn palette(s: &State) -> (p: Option<Palette>)
    ensures
        p == s.palette,
{
    s.palette
}

impl State {
    /// The file is to be read again: its time stamp moved, or it appeared or
    /// went away.
    pub fn is_stale(&self, mtime: Option<u64>) -> (b: bool)
        ensures
            b == (mtime != self.mtime),
    {
        match (mtime, self.mtime) {
            (Some(a), Some(b)) => a != b,
            (None, None) => false,
            _ => true,
        }
    }

    /// Takes over what the file holds now; without a file there is no palette.
    pub fn reload(&mut self, mtime: Option<u64>, src: &Option<String>)
        ensures
            final(self).mtime == mtime,
            final(self).palette == (match *src {
                Some(text) => Some(projected(text@)),
                None => None,
            }),
    {
        self.palette = match src {
            Some(text) => Some(project(text.as_str())),
            None => None,
        };
        self.mtime = mtime;
    }
}

} // verus!
