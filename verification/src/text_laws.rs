//! How texts are taken apart and put together again, and what versions and keys
//! read as.
use crate::compat::{camelot, key_distance, wheel_steps};
use crate::logs::message_of;
use crate::readings::decimal_reads_back;
use crate::text::{decimal, is_digit, is_space, joined, split_on, trim};
use crate::update_check::{above, newer, version};
use vstd::prelude::*;

verus! {

/// A character does not occur in a text.
pub open spec fn lacks(s: Seq<char>, c: char) -> bool {
    forall|i: int| 0 <= i < s.len() ==> s[i] != c
}

/// A text without the separator is one piece.
pub proof fn plain_text_is_one_piece(s: Seq<char>, sep: char)
    requires
        lacks(s, sep),
    ensures
        split_on(s, sep) == seq![s],
    decreases s.len(),
{
    if s.len() > 0 {
        plain_text_is_one_piece(s.drop_last(), sep);
        assert(split_on(s, sep) =~= seq![s.drop_last().push(s.last())]);
        assert(s.drop_last().push(s.last()) =~= s);
    }
}

/// A separator ends one piece and starts the next.
pub proof fn separator_parts_the_pieces(a: Seq<char>, sep: char, b: Seq<char>)
    ensures
        split_on(a.push(sep) + b, sep) == split_on(a, sep) + split_on(b, sep),
    decreases b.len(),
{
    crate::text::lemma_split_some(a, sep);
    if b.len() == 0 {
        assert(a.push(sep) + b =~= a.push(sep));
        assert(a.push(sep).drop_last() =~= a);
        assert(split_on(a.push(sep), sep) =~= split_on(a, sep).push(Seq::empty()));
        assert(b =~= Seq::<char>::empty());
        assert(split_on(a, sep) + split_on(b, sep) =~= split_on(a, sep).push(Seq::empty()));
    } else {
        let rest = b.drop_last();
        separator_parts_the_pieces(a, sep, rest);
        crate::text::lemma_split_some(rest, sep);
        let whole = a.push(sep) + b;
        assert(whole.drop_last() =~= a.push(sep) + rest);
        assert(whole.last() == b.last());
        assert(split_on(whole, sep) =~= split_on(a, sep) + split_on(b, sep));
    }
}

/// Texts that are joined and split again come out as they were.
pub proof fn split_undoes_join(parts: Seq<Seq<char>>, sep: char)
    requires
        parts.len() > 0,
        forall|i: int| 0 <= i < parts.len() ==> lacks(#[trigger] parts[i], sep),
    ensures
        split_on(joined(parts, seq![sep]), sep) == parts,
    decreases parts.len(),
{
    if parts.len() == 1 {
        plain_text_is_one_piece(parts[0], sep);
        assert(seq![parts[0]] =~= parts);
    } else {
        let front = parts.drop_last();
        assert forall|i: int| 0 <= i < front.len() implies lacks(#[trigger] front[i], sep) by {
            assert(front[i] == parts[i]);
        }
        split_undoes_join(front, sep);
        plain_text_is_one_piece(parts.last(), sep);
        let a = joined(front, seq![sep]);
        assert(a + seq![sep] + parts.last() =~= a.push(sep) + parts.last());
        separator_parts_the_pieces(a, sep, parts.last());
        assert(front + seq![parts.last()] =~= parts);
    }
}

/// A version as it is written.
pub open spec fn version_text(a: nat, b: nat, c: nat) -> Seq<char> {
    joined(seq![decimal(a), decimal(b), decimal(c)], seq!['.'])
}

proof fn lemma_digits_lack(n: nat, c: char)
    requires
        !is_digit(c),
    ensures
        lacks(decimal(n), c),
{
    decimal_reads_back(n);
    assert forall|i: int| 0 <= i < decimal(n).len() implies decimal(n)[i] != c by {
        assert(is_digit(decimal(n)[i]));
    }
}

proof fn lemma_number(n: nat)
    requires
        n < 0x1_0000_0000_0000_0000,
    ensures
        crate::update_check::number(decimal(n)) == Some(n),
{
    decimal_reads_back(n);
    assert(is_digit(decimal(n)[0]));
}

/// A version reads as its three numbers, in their order.
pub proof fn versions_read_back(a: nat, b: nat, c: nat)
    requires
        a < 0x1_0000_0000_0000_0000,
        b < 0x1_0000_0000_0000_0000,
        c < 0x1_0000_0000_0000_0000,
    ensures
        version(version_text(a, b, c)) == Some((a, b, c)),
{
    let parts = seq![decimal(a), decimal(b), decimal(c)];
    let text = version_text(a, b, c);
    lemma_digits_lack(a, '.');
    lemma_digits_lack(b, '.');
    lemma_digits_lack(c, '.');
    lemma_digits_lack(a, '-');
    lemma_digits_lack(b, '-');
    lemma_digits_lack(c, '-');
    lemma_digits_lack(a, '+');
    lemma_digits_lack(b, '+');
    lemma_digits_lack(c, '+');
    decimal_reads_back(a);
    split_undoes_join(parts, '.');
    assert(parts.drop_last() =~= seq![decimal(a), decimal(b)]);
    assert(parts.drop_last().drop_last() =~= seq![decimal(a)]);
    let two = decimal(a) + seq!['.'] + decimal(b);
    assert(joined(seq![decimal(a), decimal(b)], seq!['.']) == two) by {
        reveal_with_fuel(joined, 2);
        assert(seq![decimal(a), decimal(b)].drop_last() =~= seq![decimal(a)]);
    }
    assert(text == two + seq!['.'] + decimal(c));
    assert(lacks(text, '-')) by {
        assert forall|i: int| 0 <= i < text.len() implies text[i] != '-' by {
            if i < two.len() {
                if i < decimal(a).len() {
                    assert(text[i] == decimal(a)[i]);
                } else if i > decimal(a).len() {
                    assert(text[i] == decimal(b)[i - decimal(a).len() - 1]);
                }
            } else if i > two.len() {
                assert(text[i] == decimal(c)[i - two.len() - 1]);
            }
        }
    }
    assert(lacks(text, '+')) by {
        assert forall|i: int| 0 <= i < text.len() implies text[i] != '+' by {
            if i < two.len() {
                if i < decimal(a).len() {
                    assert(text[i] == decimal(a)[i]);
                } else if i > decimal(a).len() {
                    assert(text[i] == decimal(b)[i - decimal(a).len() - 1]);
                }
            } else if i > two.len() {
                assert(text[i] == decimal(c)[i - two.len() - 1]);
            }
        }
    }
    assert(is_digit(decimal(a)[0]));
    assert(text[0] == decimal(a)[0]);
    plain_text_is_one_piece(text, '-');
    plain_text_is_one_piece(text, '+');
    assert(crate::update_check::release_part(crate::update_check::without_v(text)) == text);
    lemma_number(a);
    lemma_number(b);
    lemma_number(c);
    let pieces = split_on(text, '.');
    assert(pieces == parts);
    assert forall|k: int| 0 <= k < 3 && k < pieces.len() implies crate::update_check::number(
        #[trigger] pieces[k],
    ) is Some by {
        assert(k == 0 || k == 1 || k == 2);
    }
}

/// The first number of a version counts before the second, and the second before the
/// third.
pub proof fn earlier_numbers_count_first(a: nat, b: nat, c: nat, x: nat, y: nat)
    requires
        a + 1 < 0x1_0000_0000_0000_0000,
        b + 1 < 0x1_0000_0000_0000_0000,
        c + 1 < 0x1_0000_0000_0000_0000,
        x < 0x1_0000_0000_0000_0000,
        y < 0x1_0000_0000_0000_0000,
    ensures
        above((a + 1, x, y), (a, b, c)),
        above((a, b + 1, y), (a, b, c)),
        above((a, b, c + 1), (a, b, c)),
        newer(version_text(a + 1, x, y), version_text(a, b, c)),
        newer(version_text(a, b + 1, y), version_text(a, b, c)),
        newer(version_text(a, b, c + 1), version_text(a, b, c)),
        !newer(version_text(a, b, c), version_text(a, b, c)),
{
    versions_read_back(a, b, c);
    versions_read_back(a + 1, x, y);
    versions_read_back(a, b + 1, y);
    versions_read_back(a, b, c + 1);
}

/// A line of the log is shown without its stamp.
pub proof fn stamps_are_left_out(stamp: Seq<char>, message: Seq<char>)
    requires
        lacks(stamp, ']'),
    ensures
        message_of(stamp.push(']') + message) == trim(message),
{
    let line = stamp.push(']') + message;
    lemma_first_bracket(line, stamp.len() as int, 0);
    assert(line.skip((stamp.len() + 1) as int) =~= message);
}

proof fn lemma_first_bracket(line: Seq<char>, at: int, from: int)
    requires
        0 <= from <= at < line.len(),
        line[at] == ']',
        forall|i: int| 0 <= i < at ==> line[i] != ']',
    ensures
        crate::boxes::first_of(line, ']', from) == at,
    decreases at - from,
{
    if from < at {
        lemma_first_bracket(line, at, from + 1);
    }
}

proof fn lemma_trimmed(s: Seq<char>)
    requires
        s.len() > 0,
        !is_space(s[0]),
        !is_space(s.last()),
    ensures
        trim(s) == s,
{
    assert(crate::text::trim_front(s) == s);
    assert(crate::text::trim_back(s) == s);
}

/// A key reads as its number and its letter.
pub proof fn keys_read_back(n: nat, letter: char)
    requires
        n <= 99,
        letter == 'A' || letter == 'B',
    ensures
        camelot(decimal(n).push(letter)) == Some((n as int, letter)),
{
    decimal_reads_back(n);
    let key = decimal(n).push(letter);
    assert(is_digit(decimal(n)[0]));
    assert(key[0] == decimal(n)[0]);
    lemma_trimmed(key);
    assert(key.drop_last() =~= decimal(n));
}

/// On the wheel no key is more than half way round from another; neighbours are one
/// step apart, the last and the first too; and a change of letter alone is one step.
pub proof fn wheel_goes_round(a: nat, b: nat)
    requires
        1 <= a <= 12,
        1 <= b <= 12,
    ensures
        wheel_steps(a as int, b as int) <= 6,
        wheel_steps(a as int, b as int) == wheel_steps(b as int, a as int),
        wheel_steps(12, 1) == 1,
        a < 12 ==> wheel_steps(a as int, (a + 1) as int) == 1,
        key_distance(decimal(a).push('A'), decimal(a).push('B')) == 1,
        key_distance(decimal(a).push('A'), decimal(b).push('A')) == wheel_steps(
            a as int,
            b as int,
        ),
        key_distance(decimal(a).push('B'), decimal(b).push('B')) == wheel_steps(
            a as int,
            b as int,
        ),
{
    keys_read_back(a, 'A');
    keys_read_back(a, 'B');
    keys_read_back(b, 'A');
    keys_read_back(b, 'B');
}

} // verus!
