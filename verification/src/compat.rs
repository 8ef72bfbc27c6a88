//! How well two tracks mix, by tempo and by Camelot key.
use crate::meters::abs;
use crate::style::Color;
use crate::text::{
    all_digits, chars_of, digits_value, max_of, min_of, parse_digits, string_of, trim, trimmed,
};
use vstd::prelude::*;
use vstd::string::*;

verus! {

/// The digits of a signed number: one sign may stand before them.
pub open spec fn unsigned_part(s: Seq<char>) -> Seq<char> {
    if s.len() > 0 && (s[0] == '+' || s[0] == '-') {
        s.skip(1)
    } else {
        s
    }
}

/// A signed 32-bit number written in decimal.
pub open spec fn signed_number(s: Seq<char>) -> Option<int> {
    let d = unsigned_part(s);
    let n = if s.len() > 0 && s[0] == '-' {
        -digits_value(d)
    } else {
        digits_value(d) as int
    };
    if d.len() > 0 && all_digits(d) && -0x8000_0000 <= n <= 0x7fff_ffff {
        Some(n)
    } else {
        None
    }
}

/// A Camelot key: a number and the letter `A` or `B`.
pub open spec fn camelot(key: Seq<char>) -> Option<(int, char)> {
    let k = trim(key);
    if k.len() > 0 && (k.last() == 'A' || k.last() == 'B') {
        match signed_number(k.drop_last()) {
            Some(n) => Some((n, k.last())),
            None => None,
        }
    } else {
        None
    }
}

/// Steps round the wheel of twelve.
pub open spec fn wheel_steps(a: int, b: int) -> nat {
    let d = abs(a - b);
    if d <= 12 && 12 - d < d {
        (12 - d) as nat
    } else {
        d
    }
}

/// How far apart two keys are; 99 where one of them is not a Camelot key.
pub open spec fn key_distance(a: Seq<char>, b: Seq<char>) -> nat {
    match (camelot(a), camelot(b)) {
        (Some((na, la)), Some((nb, lb))) => if la == lb {
            wheel_steps(na, nb)
        } else if na == nb {
            1
        } else {
            wheel_steps(na, nb) + 1
        },
        _ => 99,
    }
}

/// The distance of two keys does not depend on their order, and a Camelot key is
/// at no distance from itself.
pub proof fn key_distance_is_symmetric(a: Seq<char>, b: Seq<char>)
    ensures
        key_distance(a, b) == key_distance(b, a),
        camelot(a) is Some ==> key_distance(a, a) == 0,
{
}

fn parse_signed(s: &str) -> (r: Option<i64>)
    ensures
        match r {
            Some(n) => signed_number(s@) == Some(n as int),
            None => signed_number(s@) is None,
        },
        r matches Some(n) ==> -0x8000_0000 <= n <= 0x7fff_ffff,
{
    let v: Vec<char> = chars_of(s);
    let n: usize = v.len();
    let signed: bool = n > 0 && (v[0] == '+' || v[0] == '-');
    let from: usize = if signed {
        1
    } else {
        0
    };
    let negative: bool = n > 0 && v[0] == '-';
    assert(v@.skip(from as int) == unsigned_part(s@));
    match parse_digits(&v, from, 0x8000_0001) {
        Some(m) => {
            let k: i64 = if negative {
                -(m as i64)
            } else {
                m as i64
            };
            if k <= 0x7fff_ffff {
                Some(k)
            } else {
                None
            }
        },
        None => None,
    }
}

fn parse_camelot(key: &str) -> (r: Option<(i64, char)>)
    ensures
        match r {
            Some((n, l)) => camelot(key@) == Some((n as int, l)) && -0x8000_0000 <= n <= 0x7fff_ffff,
            None => camelot(key@) is None,
        },
{
    let k: String = trimmed(key);
    let v: Vec<char> = chars_of(k.as_str());
    let n: usize = v.len();
    if n == 0 {
        return None;
    }
    let l: char = v[n - 1];
    if l != 'A' && l != 'B' {
        return None;
    }
    let number: String = string_of(&v, 0, n - 1);
    assert(number@ == k@.drop_last());
    match parse_signed(number.as_str()) {
        Some(x) => Some((x, l)),
        None => None,
    }
}

fn steps_between(a: i64, b: i64) -> (d: usize)
    requires
        -0x8000_0000 <= a <= 0x7fff_ffff,
        -0x8000_0000 <= b <= 0x7fff_ffff,
    ensures
        d == wheel_steps(a as int, b as int),
        d <= 0xffff_ffff,
{
    let d: usize = if a < b {
        (b - a) as usize
    } else {
        (a - b) as usize
    };
    if d <= 12 && 12 - d < d {
        12 - d
    } else {
        d
    }
}

pub fn camelot_dist(a: &str, b: &str) -> (d: usize)
    ensures
        d == min_of(key_distance(a@, b@) as int, usize::MAX as int),
{
    match (parse_camelot(a), parse_camelot(b)) {
        (Some((na, la)), Some((nb, lb))) => {
            let d: usize = steps_between(na, nb);
            if la == lb {
                d
            } else if na == nb {
                1
            } else if d < usize::MAX {
                d + 1
            } else {
                d
            }
        },
        _ => 99,
    }
}

/// Up to 50 points for tempos that match, one tempo being double the other
/// counting as a match too.
pub open spec fn tempo_points(a: int, b: int) -> int {
    let high = max_of(a, b);
    let low = min_of(a, b);
    let base = if 10 * high > 18 * low {
        2 * low
    } else {
        low
    };
    let off = abs(high - base) as int;
    if low <= 0 || 10 * off >= base {
        0
    } else {
        (50 * base - 500 * off) / base
    }
}

/// Up to 50 points for keys that are close.
pub open spec fn key_points(distance: nat) -> int {
    if distance == 0 {
        50
    } else if distance == 1 {
        45
    } else if distance == 2 {
        30
    } else {
        max_of(20 - 5 * distance, 0)
    }
}

/// How well one track follows another, in percent; what is not known of either
/// gives no points.
pub open spec fn compat_percent(
    bpm: Option<u32>,
    key: Option<Seq<char>>,
    next_bpm: Option<u32>,
    next_key: Option<Seq<char>>,
) -> int {
    (match (bpm, next_bpm) {
        (Some(a), Some(b)) => tempo_points(a as int, b as int),
        _ => 0,
    }) + (match (key, next_key) {
        (Some(a), Some(b)) => key_points(key_distance(a, b)),
        _ => 0,
    })
}

pub open spec fn compat_color(percent: int) -> Color {
    if percent >= 80 {
        Color::Green
    } else if percent >= 60 {
        Color::Yellow
    } else {
        Color::Red
    }
}

fn tempo_score(a: u32, b: u32) -> (p: u32)
    ensures
        p == tempo_points(a as int, b as int),
        p <= 50,
{
    let high: u64 = if a > b {
        a as u64
    } else {
        b as u64
    };
    let low: u64 = if a > b {
        b as u64
    } else {
        a as u64
    };
    let base: u64 = if 10 * high > 18 * low {
        2 * low
    } else {
        low
    };
    let off: u64 = if high > base {
        high - base
    } else {
        base - high
    };
    if low == 0 || 10 * off >= base {
        0
    } else {
        let left: u64 = 50 * base - 500 * off;
        assert(left / base <= 50) by (nonlinear_arith)
            requires
                left <= 50 * base,
                base > 0,
        ;
        (left / base) as u32
    }
}

fn key_score(d: usize) -> (p: u32)
    ensures
        p == key_points(d as nat),
        p <= 50,
{
    if d == 0 {
        50
    } else if d == 1 {
        45
    } else if d == 2 {
        30
    } else if d == 3 {
        5
    } else {
        0
    }
}

pub open spec fn key_view(k: Option<String>) -> Option<Seq<char>> {
    match k {
        Some(s) => Some(s@),
        None => None,
    }
}

/// How well one track follows another, and the colour that says so.
pub fn compat(
    bpm: Option<u32>,
    key: &Option<String>,
    next_bpm: Option<u32>,
    next_key: &Option<String>,
) -> (r: (u32, Color))
    ensures
        r.0 == compat_percent(bpm, key_view(*key), next_bpm, key_view(*next_key)),
        r.0 <= 100,
        r.1 == compat_color(r.0 as int),
{
    let tempo: u32 = match (bpm, next_bpm) {
        (Some(a), Some(b)) => tempo_score(a, b),
        _ => 0,
    };
    let keys: u32 = match (key, next_key) {
        (Some(a), Some(b)) => key_score(camelot_dist(a.as_str(), b.as_str())),
        _ => 0,
    };
    let p: u32 = tempo + keys;
    let c: Color = if p >= 80 {
        Color::Green
    } else if p >= 60 {
        Color::Yellow
    } else {
        Color::Red
    };
    (p, c)
}

} // verus!
