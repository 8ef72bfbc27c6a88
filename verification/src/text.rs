//! Text: strings as sequences of characters, and the small tools the screens
//! and parsers are written with.
use vstd::prelude::*;
use vstd::string::*;

verus! {

/// `String::push` appends one character.
pub assume_specification[ String::push ](s: &mut String, c: char)
    ensures
        final(s)@ == old(s)@.push(c),
;

/// `==` on string slices compares their characters.
pub assume_specification[ <str as PartialEq<str>>::eq ](a: &str, b: &str) -> (r: bool)
    ensures
        r == (a@ == b@),
;

/// What `str::to_lowercase` makes of a text.
pub uninterp spec fn lowercase_of(s: Seq<char>) -> Seq<char>;

/// Calls `str::to_lowercase`: the lowercase form of the text after Unicode's
/// rules, a function of its characters alone.
#[verifier::external_body]
pub(crate) fn to_lowercase(s: &str) -> (r: String)
    ensures
        r@ == lowercase_of(s@),
{
    s.to_lowercase()
}

/// The characters of a list of strings.
pub open spec fn strs(v: Seq<String>) -> Seq<Seq<char>> {
    Seq::new(v.len(), |i: int| v[i]@)
}

/// `==` on string slices.
pub fn str_eq(a: &str, b: &str) -> (r: bool)
    ensures
        r == (a@ == b@),
{
    *a == *b
}

/// A string of its own with the same text.
pub fn owned(s: &str) -> (r: String)
    ensures
        r@ == s@,
{
    s.to_owned()
}

pub fn chars_of(s: &str) -> (v: Vec<char>)
    ensures
        v@ == s@,
{
    let mut v: Vec<char> = Vec::new();
    for c in it: s.chars()
        invariant
            it.seq() == s@,
            v@ == s@.take(it.index()),
    {
        v.push(c);
    }
    v
}

/// The characters `from..to` of a vector, as a string.
pub fn string_of(v: &Vec<char>, from: usize, to: usize) -> (s: String)
    requires
        from <= to <= v.len(),
    ensures
        s@ == v@.subrange(from as int, to as int),
{
    let mut s: String = String::new();
    let mut i: usize = from;
    while i < to
        invariant
            from <= i <= to <= v.len(),
            s@ == v@.subrange(from as int, i as int),
        decreases to - i,
    {
        s.push(v[i]);
        i += 1;
        assert(s@ == v@.subrange(from as int, i as int));
    }
    s
}

pub fn char_count(s: &str) -> (n: usize)
    ensures
        n == s@.len(),
{
    chars_of(s).len()
}

pub fn first_char(s: &str) -> (c: Option<char>)
    ensures
        s@.len() == 0 ==> c is None,
        s@.len() > 0 ==> c == Some(s@[0]),
{
    let v: Vec<char> = chars_of(s);
    if v.len() == 0 {
        None
    } else {
        Some(v[0])
    }
}

/// The first `n` characters, or all of them when there are fewer.
pub open spec fn first_n(s: Seq<char>, n: nat) -> Seq<char> {
    if n < s.len() {
        s.take(n as int)
    } else {
        s
    }
}

pub fn take_chars(s: &str, n: usize) -> (r: String)
    ensures
        r@ == first_n(s@, n as nat),
{
    let v: Vec<char> = chars_of(s);
    if n < v.len() {
        string_of(&v, 0, n)
    } else {
        s.to_owned()
    }
}

/// `n` times the same character.
pub open spec fn repeat(c: char, n: nat) -> Seq<char> {
    Seq::new(n, |i: int| c)
}

pub fn push_repeat(s: &mut String, c: char, n: usize)
    ensures
        final(s)@ == old(s)@ + repeat(c, n as nat),
{
    let mut i: usize = 0;
    while i < n
        invariant
            i <= n,
            s@ == old(s)@ + repeat(c, i as nat),
        decreases n - i,
    {
        s.push(c);
        i += 1;
        assert(s@ == old(s)@ + repeat(c, i as nat));
    }
    assert(s@ == old(s)@ + repeat(c, n as nat));
}

pub fn repeated(c: char, n: usize) -> (s: String)
    ensures
        s@ == repeat(c, n as nat),
{
    let mut s: String = String::new();
    push_repeat(&mut s, c, n);
    assert(s@ == repeat(c, n as nat));
    s
}

/// `a` less `b`, and nothing below zero.
pub open spec fn minus(a: int, b: int) -> nat {
    if a > b {
        (a - b) as nat
    } else {
        0
    }
}

pub fn sat_sub(a: usize, b: usize) -> (r: usize)
    ensures
        r == minus(a as int, b as int),
{
    if a > b {
        a - b
    } else {
        0
    }
}

pub open spec fn min_of(a: int, b: int) -> int {
    if a < b {
        a
    } else {
        b
    }
}

pub open spec fn max_of(a: int, b: int) -> int {
    if a > b {
        a
    } else {
        b
    }
}

/// Left-aligned in exactly `w` cells, cut or filled with spaces.
pub open spec fn fit(s: Seq<char>, w: nat) -> Seq<char> {
    if s.len() >= w {
        s.take(w as int)
    } else {
        s + repeat(' ', (w - s.len()) as nat)
    }
}

/// Filled with spaces on the right up to `w` cells.
pub open spec fn pad_right(s: Seq<char>, w: nat) -> Seq<char> {
    s + repeat(' ', minus(w as int, s.len() as int))
}

/// Filled with spaces on the left up to `w` cells.
pub open spec fn pad_left(s: Seq<char>, w: nat) -> Seq<char> {
    repeat(' ', minus(w as int, s.len() as int)) + s
}

pub fn padded_right(s: &str, w: usize) -> (r: String)
    ensures
        r@ == pad_right(s@, w as nat),
{
    let n: usize = char_count(s);
    let mut r: String = s.to_owned();
    push_repeat(&mut r, ' ', sat_sub(w, n));
    r
}

pub fn padded_left(s: &str, w: usize) -> (r: String)
    ensures
        r@ == pad_left(s@, w as nat),
{
    let n: usize = char_count(s);
    let mut r: String = repeated(' ', sat_sub(w, n));
    r.append(s);
    r
}

/// Two texts, one after the other.
pub fn concat2(a: &str, b: &str) -> (r: String)
    ensures
        r@ == a@ + b@,
{
    let mut r: String = a.to_owned();
    r.append(b);
    r
}

pub fn concat3(a: &str, b: &str, c: &str) -> (r: String)
    ensures
        r@ == a@ + b@ + c@,
{
    let mut r: String = a.to_owned();
    r.append(b);
    r.append(c);
    r
}

pub open spec fn digit_char(d: int) -> char {
    (0x30 + d) as u8 as char
}

/// The decimal digits of a number.
pub open spec fn decimal(n: nat) -> Seq<char>
    decreases n,
{
    if n < 10 {
        seq![digit_char(n as int)]
    } else {
        decimal(n / 10).push(digit_char((n % 10) as int))
    }
}

/// The decimal digits of a number of up to 128 bits.
pub fn wide_decimal_str(n: u128) -> (s: String)
    ensures
        s@ == decimal(n as nat),
    decreases n,
{
    let d: char = (0x30u8 + (n % 10) as u8) as char;
    if n < 10 {
        let mut s: String = String::new();
        s.push(d);
        assert(s@ == decimal(n as nat));
        s
    } else {
        let mut s: String = wide_decimal_str(n / 10);
        s.push(d);
        s
    }
}

pub fn decimal_str(n: u64) -> (s: String)
    ensures
        s@ == decimal(n as nat),
{
    wide_decimal_str(n as u128)
}

/// The decimal form of an integer, with `-` before a negative one.
pub open spec fn signed_decimal(n: int) -> Seq<char> {
    if n < 0 {
        "-"@ + decimal((-n) as nat)
    } else {
        decimal(n as nat)
    }
}

pub fn signed_decimal_str(n: i64) -> (s: String)
    ensures
        s@ == signed_decimal(n as int),
{
    if n < 0 {
        let m: u64 = (-(n as i128)) as u64;
        concat2("-", decimal_str(m).as_str())
    } else {
        decimal_str(n as u64)
    }
}

pub open spec fn is_digit(c: char) -> bool {
    '0' <= c <= '9'
}

pub open spec fn all_digits(s: Seq<char>) -> bool {
    forall|i: int| 0 <= i < s.len() ==> is_digit(#[trigger] s[i])
}

pub open spec fn digit_value(c: char) -> int {
    c as int - '0' as int
}

/// The number that a row of digits writes.
pub open spec fn digits_value(s: Seq<char>) -> nat
    decreases s.len(),
{
    if s.len() == 0 {
        0
    } else {
        (digits_value(s.drop_last()) * 10 + digit_value(s.last())) as nat
    }
}

/// A row of at least one digit.
pub open spec fn is_number(s: Seq<char>) -> bool {
    s.len() > 0 && all_digits(s)
}

/// An optional `+`, then digits: the number written, where it is below `limit`.
pub open spec fn parse_unsigned(s: Seq<char>, limit: int) -> Option<nat> {
    let body = if s.len() > 0 && s[0] == '+' {
        s.skip(1)
    } else {
        s
    };
    if is_number(body) && digits_value(body) < limit {
        Some(digits_value(body))
    } else {
        None
    }
}

pub proof fn lemma_digits_value_monotone(s: Seq<char>, n: int)
    requires
        all_digits(s),
        0 <= n <= s.len(),
    ensures
        digits_value(s.take(n)) <= digits_value(s),
    decreases s.len(),
{
    if n == s.len() {
        assert(s.take(n) == s);
    } else {
        lemma_digits_value_monotone(s.drop_last(), n);
        assert(s.drop_last().take(n) == s.take(n));
        assert(is_digit(s[s.len() - 1]));
    }
}

/// The number that the digits `from..` write, where it is below `limit`.
pub fn parse_digits(v: &Vec<char>, from: usize, limit: u128) -> (r: Option<u64>)
    requires
        from <= v.len(),
        limit <= 0x1_0000_0000_0000_0000,
    ensures
        match r {
            Some(x) => is_number(v@.skip(from as int)) && digits_value(v@.skip(from as int)) == x
                && x < limit,
            None => !(is_number(v@.skip(from as int)) && digits_value(v@.skip(from as int))
                < limit),
        },
{
    let ghost s = v@.skip(from as int);
    if from == v.len() {
        return None;
    }
    let mut acc: u128 = 0;
    let mut i: usize = from;
    assert(s.take(0) == Seq::<char>::empty());
    while i < v.len()
        invariant
            from <= i <= v.len(),
            s == v@.skip(from as int),
            limit <= 0x1_0000_0000_0000_0000,
            all_digits(s.take(i - from)),
            acc == digits_value(s.take(i - from)),
            acc < limit || i == from,
            acc < 0x1_0000_0000_0000_0000,
        decreases v.len() - i,
    {
        let c: char = v[i];
        assert(c == s[i - from]);
        let ghost pre = s.take(i - from);
        let ghost next = s.take(i - from + 1);
        assert(next.drop_last() == pre);
        assert(next.last() == c);
        if !(c >= '0' && c <= '9') {
            assert(!is_digit(s[i - from]));
            return None;
        }
        acc = acc * 10 + (c as u32 - '0' as u32) as u128;
        assert(all_digits(next)) by {
            assert forall|k: int| 0 <= k < next.len() implies is_digit(#[trigger] next[k]) by {
                if k < i - from {
                    assert(next[k] == pre[k]);
                }
            }
        }
        if acc >= limit {
            proof {
                if all_digits(s) {
                    lemma_digits_value_monotone(s, i - from + 1);
                }
            }
            return None;
        }
        i += 1;
    }
    assert(s.take(i - from) == s);
    Some(acc as u64)
}

/// Reads an unsigned number as `str::parse` does: an optional `+`, then
/// digits only, and a value below `limit`.
pub fn parse_below(s: &str, limit: u128) -> (r: Option<u64>)
    requires
        limit <= 0x1_0000_0000_0000_0000,
    ensures
        match r {
            Some(x) => parse_unsigned(s@, limit as int) == Some(x as nat),
            None => parse_unsigned(s@, limit as int) is None,
        },
{
    let v: Vec<char> = chars_of(s);
    if v.len() > 0 && v[0] == '+' {
        parse_digits(&v, 1, limit)
    } else {
        assert(v@.skip(0) == v@);
        parse_digits(&v, 0, limit)
    }
}

/// Unicode white space.
pub open spec fn is_space(c: char) -> bool {
    let n = c as int;
    0x09 <= n <= 0x0d || n == 0x20 || n == 0x85 || n == 0xa0 || n == 0x1680 || 0x2000 <= n <= 0x200a
        || n == 0x2028 || n == 0x2029 || n == 0x202f || n == 0x205f || n == 0x3000
}

pub fn space(c: char) -> (b: bool)
    ensures
        b == is_space(c),
{
    let n: u32 = c as u32;
    (0x09 <= n && n <= 0x0d) || n == 0x20 || n == 0x85 || n == 0xa0 || n == 0x1680 || (0x2000 <= n
        && n <= 0x200a) || n == 0x2028 || n == 0x2029 || n == 0x202f || n == 0x205f || n == 0x3000
}

/// Without white space in front.
pub open spec fn trim_front(s: Seq<char>) -> Seq<char>
    decreases s.len(),
{
    if s.len() > 0 && is_space(s[0]) {
        trim_front(s.skip(1))
    } else {
        s
    }
}

/// Without white space behind.
pub open spec fn trim_back(s: Seq<char>) -> Seq<char>
    decreases s.len(),
{
    if s.len() > 0 && is_space(s.last()) {
        trim_back(s.drop_last())
    } else {
        s
    }
}

/// Without white space around.
pub open spec fn trim(s: Seq<char>) -> Seq<char> {
    trim_back(trim_front(s))
}

pub fn trimmed(s: &str) -> (r: String)
    ensures
        r@ == trim(s@),
{
    let v: Vec<char> = chars_of(s);
    let mut from: usize = 0;
    assert(v@.skip(0) == v@);
    while from < v.len() && space(v[from])
        invariant
            from <= v.len(),
            trim_front(v@) == trim_front(v@.skip(from as int)),
        decreases v.len() - from,
    {
        assert(v@.skip(from as int).skip(1) == v@.skip(from as int + 1));
        from += 1;
    }
    assert(trim_front(v@) == v@.skip(from as int));
    let mut to: usize = v.len();
    assert(v@.subrange(from as int, to as int) == v@.skip(from as int));
    while to > from && space(v[to - 1])
        invariant
            from <= to <= v.len(),
            trim_back(v@.skip(from as int)) == trim_back(v@.subrange(from as int, to as int)),
        decreases to,
    {
        assert(v@.subrange(from as int, to as int).drop_last() == v@.subrange(
            from as int,
            to as int - 1,
        ));
        to -= 1;
    }
    string_of(&v, from, to)
}

/// `needle` stands in `s` at `i`.
pub open spec fn occurs_at(s: Seq<char>, needle: Seq<char>, i: int) -> bool {
    0 <= i && i + needle.len() <= s.len() && s.subrange(i, i + needle.len()) == needle
}

pub open spec fn contains(s: Seq<char>, needle: Seq<char>) -> bool {
    exists|i: int| occurs_at(s, needle, i)
}

/// The first place of `needle` in `s` at or after `from`.
pub open spec fn is_first_at(s: Seq<char>, needle: Seq<char>, from: int, i: int) -> bool {
    from <= i && occurs_at(s, needle, i) && forall|j: int|
        from <= j < i ==> !#[trigger] occurs_at(s, needle, j)
}

fn stands_at(v: &Vec<char>, needle: &Vec<char>, i: usize) -> (b: bool)
    requires
        i + needle.len() <= v.len(),
    ensures
        b == occurs_at(v@, needle@, i as int),
{
    let mut k: usize = 0;
    while k < needle.len()
        invariant
            i + needle.len() <= v.len(),
            k <= needle.len(),
            forall|m: int| 0 <= m < k ==> v@[i + m] == #[trigger] needle@[m],
        decreases needle.len() - k,
    {
        if v[i + k] != needle[k] {
            assert(v@.subrange(i as int, i + needle.len())[k as int] != needle@[k as int]);
            return false;
        }
        k += 1;
    }
    assert(v@.subrange(i as int, i + needle.len()) == needle@);
    true
}

/// The first place of `needle` in `v` at or after `from`, counted in
/// characters.
pub fn find_from(v: &Vec<char>, needle: &Vec<char>, from: usize) -> (r: Option<usize>)
    requires
        from <= v.len(),
    ensures
        match r {
            Some(i) => is_first_at(v@, needle@, from as int, i as int),
            None => forall|j: int| from <= j ==> !#[trigger] occurs_at(v@, needle@, j),
        },
{
    if needle.len() > v.len() {
        return None;
    }
    let last: usize = v.len() - needle.len();
    let mut i: usize = from;
    while i <= last
        invariant
            last == v.len() - needle.len(),
            from <= i,
            from <= v.len(),
            i <= last + 1 || i == from,
            forall|j: int| from <= j < i ==> !#[trigger] occurs_at(v@, needle@, j),
        decreases last + 1 - i,
    {
        if stands_at(v, needle, i) {
            return Some(i);
        }
        if i == last {
            assert(forall|j: int| from <= j ==> !#[trigger] occurs_at(v@, needle@, j));
            return None;
        }
        i += 1;
    }
    None
}

/// The first place of `needle` in `s` at or after `from`, where there is one.
pub open spec fn find(s: Seq<char>, needle: Seq<char>, from: int) -> Option<int>
    decreases s.len() + 1 - from,
{
    if from + needle.len() > s.len() {
        None
    } else if occurs_at(s, needle, from) {
        Some(from)
    } else {
        find(s, needle, from + 1)
    }
}

proof fn lemma_find(s: Seq<char>, needle: Seq<char>, from: int, i: Option<int>)
    requires
        0 <= from,
        match i {
            Some(k) => is_first_at(s, needle, from, k),
            None => forall|j: int| from <= j ==> !#[trigger] occurs_at(s, needle, j),
        },
    ensures
        find(s, needle, from) == i,
    decreases s.len() + 1 - from,
{
    if from + needle.len() <= s.len() && !occurs_at(s, needle, from) {
        lemma_find(s, needle, from + 1, i);
    }
}

/// The first place of `needle` in `v` at or after `from`, where there is one.
pub fn find_text(v: &Vec<char>, needle: &Vec<char>, from: usize) -> (r: Option<usize>)
    requires
        from <= v.len(),
    ensures
        match r {
            Some(i) => find(v@, needle@, from as int) == Some(i as int) && from <= i && i
                + needle@.len() <= v@.len(),
            None => find(v@, needle@, from as int) is None,
        },
{
    let r: Option<usize> = find_from(v, needle, from);
    proof {
        lemma_find(
            v@,
            needle@,
            from as int,
            match r {
                Some(i) => Some(i as int),
                None => None,
            },
        );
    }
    r
}

pub fn has_text(s: &str, needle: &str) -> (b: bool)
    ensures
        b == contains(s@, needle@),
{
    let v: Vec<char> = chars_of(s);
    let n: Vec<char> = chars_of(needle);
    match find_from(&v, &n, 0) {
        Some(i) => {
            assert(occurs_at(s@, needle@, i as int));
            true
        },
        None => false,
    }
}

pub open spec fn starts(s: Seq<char>, p: Seq<char>) -> bool {
    p.len() <= s.len() && s.take(p.len() as int) == p
}

pub fn has_prefix(s: &str, p: &str) -> (b: bool)
    ensures
        b == starts(s@, p@),
{
    let v: Vec<char> = chars_of(s);
    let n: Vec<char> = chars_of(p);
    if n.len() > v.len() {
        return false;
    }
    let b: bool = stands_at(&v, &n, 0);
    assert(v@.subrange(0, n@.len() as int) == v@.take(n@.len() as int));
    b
}

/// A quotient rounded to the nearest whole number, halves to the even one.
pub open spec fn round_div(a: nat, b: nat) -> nat {
    let q = a / b;
    let r = a % b;
    if 2 * r < b || (2 * r == b && q % 2 == 0) {
        q
    } else {
        q + 1
    }
}

pub fn rounded_div(a: u128, b: u128) -> (r: u128)
    requires
        b > 0,
    ensures
        r == round_div(a as nat, b as nat),
{
    let q: u128 = a / b;
    let m: u128 = a % b;
    if m < b - m || (m == b - m && q % 2 == 0) {
        q
    } else {
        assert(m <= a) by (nonlinear_arith)
            requires
                b > 0,
                m == a % b,
        ;
        assert(q < a) by (nonlinear_arith)
            requires
                b >= 2,
                a > 0,
                q == a / b,
        ;
        q + 1
    }
}

/// A number of hundredths, written with as many decimals as it needs.
pub open spec fn fixed2(v: int) -> Seq<char> {
    let sign = if v < 0 {
        "-"@
    } else {
        ""@
    };
    let m = if v < 0 {
        -v
    } else {
        v
    };
    let r = m % 100;
    sign + decimal((m / 100) as nat) + (if r == 0 {
        ""@
    } else if r % 10 == 0 {
        "."@.push(digit_char(r / 10))
    } else {
        "."@.push(digit_char(r / 10)).push(digit_char(r % 10))
    })
}

pub fn fixed2_str(v: i64) -> (s: String)
    ensures
        s@ == fixed2(v as int),
{
    let m: u64 = if v < 0 {
        (-(v as i128)) as u64
    } else {
        v as u64
    };
    let mut s: String = if v < 0 {
        "-".to_owned()
    } else {
        "".to_owned()
    };
    s.append(decimal_str(m / 100).as_str());
    let r: u64 = m % 100;
    if r == 0 {
        s.append("");
    } else if r % 10 == 0 {
        let mut f: String = ".".to_owned();
        f.push((0x30u8 + (r / 10) as u8) as char);
        s.append(f.as_str());
    } else {
        let mut f: String = ".".to_owned();
        f.push((0x30u8 + (r / 10) as u8) as char);
        f.push((0x30u8 + (r % 10) as u8) as char);
        s.append(f.as_str());
    }
    s
}

/// Texts joined by a separator.
pub open spec fn joined(parts: Seq<Seq<char>>, sep: Seq<char>) -> Seq<char>
    decreases parts.len(),
{
    if parts.len() == 0 {
        Seq::empty()
    } else if parts.len() == 1 {
        parts[0]
    } else {
        joined(parts.drop_last(), sep) + sep + parts.last()
    }
}

pub fn join_strs(parts: &Vec<String>, sep: &str) -> (s: String)
    ensures
        s@ == joined(strs(parts@), sep@),
{
    let ghost all = strs(parts@);
    if parts.len() == 0 {
        return String::new();
    }
    let mut s: String = parts[0].clone();
    let mut i: usize = 1;
    assert(all.take(1).len() == 1);
    while i < parts.len()
        invariant
            1 <= i <= parts.len(),
            all == strs(parts@),
            s@ == joined(all.take(i as int), sep@),
        decreases parts.len() - i,
    {
        assert(all.take(i + 1).drop_last() == all.take(i as int));
        assert(all.take(i + 1).last() == parts@[i as int]@);
        s.append(sep);
        s.append(parts[i].as_str());
        i += 1;
    }
    assert(all.take(i as int) == all);
    s
}

/// Copies a list of strings.
pub fn clone_strs(v: &Vec<String>) -> (r: Vec<String>)
    ensures
        strs(r@) == strs(v@),
{
    let mut r: Vec<String> = Vec::new();
    let mut i: usize = 0;
    while i < v.len()
        invariant
            i <= v.len(),
            strs(r@) == strs(v@).take(i as int),
        decreases v.len() - i,
    {
        let ghost before = strs(r@);
        r.push(v[i].clone());
        i += 1;
        assert(strs(r@) == before.push(v@[i - 1]@));
        assert(strs(v@).take(i as int) == strs(v@).take(i - 1).push(v@[i - 1]@));
    }
    assert(strs(v@).take(i as int) == strs(v@));
    r
}

/// The pieces of a text between the places of `sep`.
pub open spec fn split_on(s: Seq<char>, sep: char) -> Seq<Seq<char>>
    decreases s.len(),
{
    if s.len() == 0 {
        seq![s]
    } else {
        let before = split_on(s.drop_last(), sep);
        if s.last() == sep {
            before.push(Seq::empty())
        } else {
            before.drop_last().push(before.last().push(s.last()))
        }
    }
}

pub proof fn lemma_split_some(s: Seq<char>, sep: char)
    ensures
        split_on(s, sep).len() > 0,
    decreases s.len(),
{
    if s.len() > 0 {
        lemma_split_some(s.drop_last(), sep);
    }
}

pub fn split_text(s: &str, sep: char) -> (parts: Vec<String>)
    ensures
        strs(parts@) == split_on(s@, sep),
{
    let v: Vec<char> = chars_of(s);
    let mut parts: Vec<String> = Vec::new();
    let mut cur: String = String::new();
    let mut i: usize = 0;
    assert(v@.take(0) == Seq::<char>::empty());
    assert(strs(parts@).push(cur@) == split_on(v@.take(0), sep));
    while i < v.len()
        invariant
            i <= v.len(),
            strs(parts@).push(cur@) == split_on(v@.take(i as int), sep),
        decreases v.len() - i,
    {
        let ghost before = strs(parts@);
        let ghost piece = cur@;
        assert(v@.take(i + 1).drop_last() == v@.take(i as int));
        assert(before.push(piece).drop_last() == before);
        if v[i] == sep {
            parts.push(cur);
            cur = String::new();
            assert(strs(parts@) == before.push(piece));
        } else {
            cur.push(v[i]);
        }
        i += 1;
        assert(strs(parts@).push(cur@) == split_on(v@.take(i as int), sep));
    }
    assert(v@.take(i as int) == v@);
    let ghost before = strs(parts@);
    let ghost piece = cur@;
    parts.push(cur);
    assert(strs(parts@) == before.push(piece));
    parts
}

/// At most `w` characters, the last of them `…` where something was cut off;
/// nothing where there is no room for both.
pub open spec fn ellipsis(s: Seq<char>, w: nat) -> Seq<char> {
    if w <= 2 {
        Seq::empty()
    } else if s.len() > w {
        s.take(w - 1).push('…')
    } else {
        s
    }
}

pub fn clip_text(s: &str, w: usize) -> (r: String)
    ensures
        r@ == ellipsis(s@, w as nat),
{
    if w <= 2 {
        return String::new();
    }
    let v: Vec<char> = chars_of(s);
    if v.len() > w {
        let mut r: String = string_of(&v, 0, w - 1);
        assert(r@ == s@.take(w - 1));
        r.push('…');
        r
    } else {
        s.to_owned()
    }
}

pub fn fit_text(s: &str, w: usize) -> (r: String)
    ensures
        r@ == fit(s@, w as nat),
{
    let v: Vec<char> = chars_of(s);
    if v.len() >= w {
        let r: String = string_of(&v, 0, w);
        assert(r@ == s@.take(w as int));
        r
    } else {
        let mut r: String = s.to_owned();
        push_repeat(&mut r, ' ', w - v.len());
        r
    }
}

/// A fitted text has exactly the width asked for.
pub proof fn fit_is_exact(s: Seq<char>, w: nat)
    ensures
        fit(s, w).len() == w,
{
}

/// A clipped text is never wider than asked for, and keeps what fits.
pub proof fn ellipsis_fits(s: Seq<char>, w: nat)
    ensures
        ellipsis(s, w).len() <= w,
        w > 2 && s.len() <= w ==> ellipsis(s, w) == s,
        w > 2 && s.len() > w ==> ellipsis(s, w).len() == w,
{
}

/// The characters of an optional text, nothing for none.
pub open spec fn text_or_empty(s: Option<String>) -> Seq<char> {
    match s {
        Some(t) => t@,
        None => Seq::empty(),
    }
}

pub fn str_or_empty(s: &Option<String>) -> (r: String)
    ensures
        r@ == text_or_empty(*s),
{
    match s {
        Some(t) => t.clone(),
        None => String::new(),
    }
}

pub fn trimmed_end(s: &str) -> (r: String)
    ensures
        r@ == trim_back(s@),
{
    let v: Vec<char> = chars_of(s);
    let mut to: usize = v.len();
    assert(v@.take(to as int) == v@);
    while to > 0 && space(v[to - 1])
        invariant
            to <= v.len(),
            trim_back(v@) == trim_back(v@.take(to as int)),
        decreases to,
    {
        assert(v@.take(to as int).drop_last() == v@.take(to as int - 1));
        to -= 1;
    }
    assert(v@.subrange(0, to as int) == v@.take(to as int));
    string_of(&v, 0, to)
}

pub proof fn lemma_trim_back_len(s: Seq<char>)
    ensures
        trim_back(s).len() <= s.len(),
    decreases s.len(),
{
    if s.len() > 0 && is_space(s.last()) {
        lemma_trim_back_len(s.drop_last());
    }
}

/// A text without its last character.
pub open spec fn shortened(s: Seq<char>) -> Seq<char> {
    if s.len() == 0 {
        s
    } else {
        s.drop_last()
    }
}

/// Takes the last character off.
pub fn pop_char(s: &mut String)
    ensures
        final(s)@ == shortened(old(s)@),
{
    let v: Vec<char> = chars_of(s.as_str());
    let n: usize = v.len();
    if n > 0 {
        *s = string_of(&v, 0, n - 1);
        assert(s@ =~= old(s)@.drop_last());
    }
}

} // verus!
