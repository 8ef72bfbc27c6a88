//! The tail of the log file as the dashboard shows it.
use crate::boxes::{first_of, first_of_char};
use crate::text::{
    chars_of, min_of, minus, owned, sat_sub, split_on, split_text, string_of, strs, trim, trimmed,
};
use vstd::prelude::*;
use vstd::string::*;

verus! {

/// A log line without its time stamp: what follows the first `]`, trimmed.
pub open spec fn message_of(line: Seq<char>) -> Seq<char> {
    let b = first_of(line, ']', 0);
    if b < line.len() {
        trim(line.skip(b + 1))
    } else {
        line
    }
}

fn message(line: &str) -> (s: String)
    ensures
        s@ == message_of(line@),
{
    let v: Vec<char> = chars_of(line);
    let b: usize = first_of_char(&v, ']', 0);
    if b < v.len() {
        let rest: String = string_of(&v, b + 1, v.len());
        assert(rest@ == line@.skip(b + 1));
        trimmed(rest.as_str())
    } else {
        owned(line)
    }
}

/// A line of a text cut at its line feeds: a carriage return before the line
/// feed belongs to the line end.
pub open spec fn line_at(segments: Seq<Seq<char>>, i: int) -> Seq<char> {
    let s = segments[i];
    if i + 1 < segments.len() && s.len() > 0 && s.last() == '\r' {
        s.drop_last()
    } else {
        s
    }
}

/// The messages of the first `n` lines; empty lines are left out.
pub open spec fn messages(segments: Seq<Seq<char>>, n: nat) -> Seq<Seq<char>>
    decreases n,
{
    if n == 0 {
        Seq::empty()
    } else {
        let before = messages(segments, (n - 1) as nat);
        let line = line_at(segments, n - 1);
        if line.len() == 0 {
            before
        } else {
            before.push(message_of(line))
        }
    }
}

/// The messages of a log.
pub open spec fn log_messages(log: Seq<char>) -> Seq<Seq<char>> {
    let segments = split_on(log, '\n');
    messages(segments, segments.len())
}

/// The messages of a log, oldest first.
pub fn log_lines(log: &str) -> (lines: Vec<String>)
    ensures
        strs(lines@) == log_messages(log@),
{
    let segments: Vec<String> = split_text(log, '\n');
    let ghost segs = strs(segments@);
    let mut lines: Vec<String> = Vec::new();
    let mut i: usize = 0;
    assert(strs(lines@) == messages(segs, 0));
    while i < segments.len()
        invariant
            i <= segments.len(),
            segs == strs(segments@),
            strs(lines@) == messages(segs, i as nat),
        decreases segments.len() - i,
    {
        let v: Vec<char> = chars_of(segments[i].as_str());
        let n: usize = v.len();
        let cut: bool = i < segments.len() - 1 && n > 0 && v[n - 1] == '\r';
        let end: usize = if cut {
            n - 1
        } else {
            n
        };
        let line: String = string_of(&v, 0, end);
        assert(line@ == line_at(segs, i as int));
        if end > 0 {
            let ghost before = strs(lines@);
            lines.push(message(line.as_str()));
            assert(strs(lines@) == before.push(message_of(line@)));
        }
        i += 1;
    }
    lines
}

/// The last `count` lines before the last `offset` ones.
pub open spec fn window(lines: Seq<Seq<char>>, count: nat, offset: nat) -> Seq<Seq<char>> {
    let end = minus(lines.len() as int, offset as int);
    lines.subrange(minus(end as int, count as int) as int, end as int)
}

/// The last `count` lines before the last `offset` ones.
pub fn log_window(lines: &Vec<String>, count: usize, offset: usize) -> (r: Vec<String>)
    ensures
        strs(r@) == window(strs(lines@), count as nat, offset as nat),
{
    let end: usize = sat_sub(lines.len(), offset);
    let start: usize = sat_sub(end, count);
    let mut r: Vec<String> = Vec::new();
    let mut i: usize = start;
    while i < end
        invariant
            start <= i <= end <= lines.len(),
            strs(r@) == strs(lines@).subrange(start as int, i as int),
        decreases end - i,
    {
        let ghost before = strs(r@);
        r.push(owned(lines[i].as_str()));
        assert(strs(r@) == before.push(lines@[i as int]@));
        i += 1;
        assert(strs(r@) == strs(lines@).subrange(start as int, i as int));
    }
    r
}

/// A window shows no more lines than asked for, and with no offset the newest
/// line last.
pub proof fn window_shows_the_newest(lines: Seq<Seq<char>>, count: nat)
    requires
        lines.len() > 0,
        count > 0,
    ensures
        window(lines, count, 0).len() == min_of(lines.len() as int, count as int),
        window(lines, count, 0).last() == lines.last(),
{
}

/// The log as it was last read. The file is looked at twice a second at most,
/// and read again only where its length has changed.
pub struct LogCache {
    pub last_len: u64,
    pub lines: Vec<String>,
    /// When the file was last looked at.
    pub last_stat: Option<u64>,
}

/// Milliseconds between two looks at the log file.
pub const STAT_INTERVAL: u64 = 500;

/// How much of the end of the log file is read.
pub const LOG_WINDOW: u64 = 65536;

/// Where reading starts in a log file of the given length.
pub fn log_start(len: u64) -> (at: u64)
    ensures
        at == minus(len as int, LOG_WINDOW as int),
{
    if len > LOG_WINDOW {
        len - LOG_WINDOW
    } else {
        0
    }
}

impl LogCache {
    pub fn new() -> (c: LogCache)
        ensures
            c.last_len == 0,
            c.lines@.len() == 0,
            c.last_stat is None,
    {
        LogCache { last_len: 0, lines: Vec::new(), last_stat: None }
    }

    /// Whether the file is due for a look.
    pub open spec fn due(&self, now: int) -> bool {
        match self.last_stat {
            Some(t) => now - t >= STAT_INTERVAL,
            None => true,
        }
    }

    /// Says whether to look at the file now, and notes that this was done.
    pub fn should_stat(&mut self, now: u64) -> (b: bool)
        ensures
            b == old(self).due(now as int),
            final(self).last_stat == (if b {
                Some(now)
            } else {
                old(self).last_stat
            }),
            final(self).lines == old(self).lines,
            final(self).last_len == old(self).last_len,
    {
        let b: bool = match self.last_stat {
            Some(t) => now >= t && now - t >= STAT_INTERVAL,
            None => true,
        };
        if b {
            self.last_stat = Some(now);
        }
        b
    }

    /// Whether a file of this length has to be read again.
    pub fn is_stale(&self, len: u64) -> (b: bool)
        ensures
            b == (len != self.last_len),
    {
        len != self.last_len
    }

    /// Takes over the end of a log file of the given length.
    pub fn refill(&mut self, len: u64, log: &str)
        ensures
            final(self).last_len == len,
            strs(final(self).lines@) == log_messages(log@),
            final(self).last_stat == old(self).last_stat,
    {
        self.lines = log_lines(log);
        self.last_len = len;
    }
}

/// How far the log can be scrolled back.
pub const LOG_SCROLL_MAX: usize = 1000;

pub open spec fn scrolled_up(offset: int) -> int {
    min_of(offset + 1, LOG_SCROLL_MAX as int)
}

pub open spec fn scrolled_down(offset: int) -> int {
    minus(offset, 1) as int
}

/// Scrolls one line back.
pub fn log_scroll_up(offset: usize) -> (r: usize)
    ensures
        r == scrolled_up(offset as int),
{
    if offset >= LOG_SCROLL_MAX {
        LOG_SCROLL_MAX
    } else {
        offset + 1
    }
}

/// Scrolls one line towards the newest.
pub fn log_scroll_down(offset: usize) -> (r: usize)
    ensures
        r == scrolled_down(offset as int),
{
    sat_sub(offset, 1)
}

/// Scrolling back and forth comes back to the start, short of the limit.
pub proof fn log_scroll_round_trip(offset: int)
    requires
        0 <= offset < LOG_SCROLL_MAX,
    ensures
        scrolled_down(scrolled_up(offset)) == offset,
{
}

} // verus!
