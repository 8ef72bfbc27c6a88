//! The help screen: the rows of the command registry, then the bindings that
//! are not commands, and the filter over both.
use crate::command::{
    builtin, commands_view, help_row, help_rows, help_rows_view, registry, rows_of, Command,
    CommandV, HelpRow, HelpRowV, Registry,
};
use crate::keymap::{lower_all, lowered};
use crate::style::{
    add_line, add_span, add_text_line, lines_view, span, spans_view, Color, Line, Span, SpanV,
    Style,
};
use crate::text::{
    concat2, contains, has_text, minus, pad_right, padded_right, str_eq, trim, trimmed,
};
use vstd::prelude::*;
use vstd::string::*;

verus! {

/// The bindings and notes outside the command registry: a key and what it
/// does. A row without a description is a section header, one without a key is
/// blank.
pub const LEGACY_HELP: [(&'static str, &'static str); 114] = [
    ("BROWSING", ""),
    ("↑ / ↓", "Navigate"),
    ("Enter / →", "Select / drill into"),
    ("Esc", "Back (quit at root)"),
    ("/ or s", "Search"),
    ("", ""),
    ("PLAYBACK", ""),
    ("Space", "Preview track (toggle)"),
    ("Enter", "Queue track"),
    ("a", "Queue all tracks on screen"),
    ("p", "Pause / resume"),
    ("n", "Skip / next track"),
    ("t", "Teleport to mix point"),
    ("T", "Rewind last mix (replay/experiment)"),
    ("G", "Toggle analyzer engine + re-grid"),
    ("m", "Mix now (force crossfade)"),
    ("A", "AI analyze mix alignment"),
    ("< / >", "Jump back/forward N bars (click middle of ◀ JUMP N ▶ label to cycle N)"),
    ("[ / ]", "Nudge incoming deck (hold to keep nudging)"),
    ("; / '", "Shift beat grid ±2ms (phase fix)"),
    ("( / )", "Shift beat grid ±1 beat (downbeat fix)"),
    (":", "Open command prompt (e.g. :queue 12345, :tx echoout)"),
    ("u / U / i / I / O", "Loop 1 / 2 / 4 / 8 / 16 beats (quantized, toggle)"),
    ("S", "Split cue (A=left, B=right)"),
    ("M", "Metronome"),
    ("B", "Bail (manual panic — switch in-progress crossfade to EchoOut)"),
    ("", ""),
    ("HOT CUES (playing deck)", ""),
    ("1..4", "Jump to hot cue 1–4"),
    ("Shift+1..4 (!@#$)", "Set hot cue 1–4 at current position"),
    ("", ""),
    ("MIXER OVERLAY (z / Z)", ""),
    ("Tab", "Switch deck A ↔ B"),
    ("↑ / ↓", "Select row (EQ low/mid/high, filter, fader)"),
    ("← / →", "Adjust selected row"),
    ("r / R", "Reset row / reset all mixer controls"),
    ("Esc", "Close overlay"),
    ("", ""),
    ("RULES EDITOR (Settings → Edit Transition Rules)", ""),
    ("↑ / ↓", "Navigate rules"),
    ("Enter", "Edit rule (or cycle Default)"),
    ("i", "Insert new rule"),
    ("D", "Delete rule / remove choice"),
    ("{ / }", "Reorder rules"),
    ("Tab", "Switch When / Then / Choices panes"),
    ("+", "Add transition to cycle/weighted action"),
    ("Esc", "Save + close"),
    ("", ""),
    ("QUEUE & TRACKS", ""),
    ("q", "View queue"),
    ("x", "Smart shuffle (BPM + key)"),
    ("X", "Clear queue"),
    ("{ / }", "Grab / drop (reorder queue)"),
    ("+ / - (history view)", "Rate selected mix good / bad (saves to DJ memory)"),
    ("+ / - (dashboard)", "Rate the most-recent mix good / bad"),
    ("f / *", "Toggle favorite"),
    ("&", "Add track to Beatport cart"),
    ("K", "MIDI learn — bind controller controls to mixr actions"),
    ("r", "Sync favorites audio"),
    ("o", "Open in browser (column-aware)"),
    ("+", "Add to playlist"),
    ("w / W", "Follow / unfollow artist/label"),
    ("e", "Export history"),
    ("y", "Copy screen to clipboard"),
    ("L", "Load more (pagination) / Load Next from dashboard mini-browse"),
    ("Ctrl+F", "Filter current list"),
    ("", ""),
    ("VIEWS", ""),
    ("d", "Dashboard (live mix view)"),
    ("C", "Toggle AI DJ on/off"),
    ("/ (dashboard)", "Ask AI DJ (type prompt)"),
    ("Tab", "Dashboard focus (Controller→Queue→History→Browse)"),
    ("b", "Browse (jump to library)"),
    ("h", "Play history"),
    (",", "Settings"),
    ("v", "Compact / Full view"),
    ("w", "Waveform mode (phrase/audio/off)"),
    ("?", "This help"),
    ("Ctrl+C", "Quit"),
    ("", ""),
    ("CLI OPTIONS", ""),
    ("--play", "Queue default genre chart"),
    ("--play \"Genre\"", "Queue specific genre chart"),
    ("--shuffle", "Smart shuffle on startup"),
    ("--quality flac|256k|128k", "Set audio quality"),
    ("--search \"query\"", "Jump to search"),
    ("--browse \"path\"", "Navigate to path"),
    ("--dashboard", "Start on dashboard view"),
    ("--status", "Print current status"),
    ("--command JSON", "Send IPC command"),
    ("--favorites", "List favorites"),
    ("--version", "Show version"),
    ("--logout", "Clear credentials"),
    ("", ""),
    ("FILES", ""),
    ("~/.mixr/config.json", "Settings"),
    ("~/.mixr/auth.json", "Stored credentials"),
    ("~/.mixr/claude_key", "AI DJ API key"),
    ("~/.mixr/mixr.log", "Engine log"),
    ("~/.mixr/favorites.json", "Favorited tracks"),
    ("~/.mixr/status.json", "Live status (auto-updated)"),
    ("~/.mixr/quick.txt", "Quick status"),
    ("~/.mixr/command", "Remote control (JSON)"),
    ("~/.mixr/screen.txt", "Screen dump"),
    ("(memory only)", "Tracks live in RAM during playback, no disk cache"),
    ("", ""),
    ("BEATPORT NAVIGATION", ""),
    ("Discover", "Trending, Global Top 100, Hype Top 100"),
    ("Genres", "All genres, favorites first"),
    ("  [Genre]", "Top 100, Charts, Tracks, Releases, Hype"),
    ("Decades", "2020s–1980s → Tracks, Releases, Charts"),
    ("My Beatport", "Tracks, Artists, Labels, Recommendations"),
    ("My Library", "Collection, Cart, Playlists"),
    ("Favorites", "Locally saved tracks"),
];

/// A row of the help screen.
#[verifier::ext_equal]
pub struct PairV {
    pub key: Seq<char>,
    pub desc: Seq<char>,
}

pub open spec fn pairs_view(v: Seq<(String, String)>) -> Seq<PairV> {
    Seq::new(v.len(), |i: int| PairV { key: v[i].0@, desc: v[i].1@ })
}

pub open spec fn pair(key: Seq<char>, desc: Seq<char>) -> PairV {
    PairV { key, desc }
}

fn add_pair(v: &mut Vec<(String, String)>, key: &str, desc: &str)
    ensures
        pairs_view(final(v)@) == pairs_view(old(v)@).push(pair(key@, desc@)),
{
    v.push((key.to_owned(), desc.to_owned()));
    assert(pairs_view(v@) == pairs_view(old(v)@).push(pair(key@, desc@)));
}

/// The rows of the registry: a header before each group, a blank row between
/// groups.
pub open spec fn command_rows(rows: Seq<HelpRowV>, n: nat) -> Seq<PairV>
    decreases n,
{
    if n == 0 {
        Seq::empty()
    } else {
        let r = rows[n - 1];
        let before = command_rows(rows, (n - 1) as nat);
        let group = if n == 1 {
            ""@
        } else {
            rows[n - 2].group@
        };
        let headed = if r.group@ == group {
            before
        } else if group.len() == 0 {
            before.push(pair(r.group@, ""@))
        } else {
            before.push(pair(""@, ""@)).push(pair(r.group@, ""@))
        };
        headed.push(pair(r.keys, r.title@))
    }
}

/// The key is a default key of a command.
pub open spec fn migrated(commands: Seq<CommandV>, key: Seq<char>) -> bool {
    exists|i: int| 0 <= i < commands.len() && is_key_of(#[trigger] commands[i], key)
}

pub open spec fn is_key_of(c: CommandV, key: Seq<char>) -> bool {
    exists|k: int| 0 <= k < c.keys.len() && trim((#[trigger] c.keys[k])@) == key
}

/// The other bindings among the first `n`, without those that a command
/// covers; headers and blank rows stay.
pub open spec fn other_rows(commands: Seq<CommandV>, n: nat) -> Seq<PairV>
    decreases n,
{
    if n == 0 {
        Seq::empty()
    } else {
        let (key, desc) = LEGACY_HELP@[n - 1];
        let before = other_rows(commands, (n - 1) as nat);
        if key@.len() > 0 && desc@.len() > 0 && migrated(commands, key@) {
            before
        } else {
            before.push(pair(key@, desc@))
        }
    }
}

/// All rows of the help screen.
pub open spec fn all_rows() -> Seq<PairV> {
    let rows = rows_of(builtin());
    command_rows(rows, rows.len()).push(pair(""@, ""@)) + other_rows(
        builtin(),
        LEGACY_HELP@.len(),
    )
}

fn is_migrated(reg: &Registry, key: &str) -> (b: bool)
    ensures
        b == migrated(commands_view(reg.commands@), key@),
{
    let ghost all = commands_view(reg.commands@);
    let mut i: usize = 0;
    while i < reg.commands.len()
        invariant
            i <= reg.commands.len(),
            all == commands_view(reg.commands@),
            forall|j: int| 0 <= j < i ==> !is_key_of(#[trigger] all[j], key@),
        decreases reg.commands.len() - i,
    {
        let c: &Command = &reg.commands[i];
        assert(all[i as int] == c@);
        let mut k: usize = 0;
        while k < c.keys.len()
            invariant
                k <= c.keys.len(),
                i < reg.commands.len(),
                all == commands_view(reg.commands@),
                all[i as int] == c@,
                forall|j: int| 0 <= j < k ==> trim((#[trigger] c.keys@[j])@) != key@,
            decreases c.keys.len() - k,
        {
            if str_eq(trimmed(c.keys[k]).as_str(), key) {
                assert(trim(all[i as int].keys[k as int]@) == key@);
                return true;
            }
            k += 1;
        }
        i += 1;
    }
    false
}

/// The bindings that are not commands.
pub fn legacy_help_lines() -> (v: Vec<(&'static str, &'static str)>)
    ensures
        v@ == LEGACY_HELP@,
{
    let mut v: Vec<(&'static str, &'static str)> = Vec::new();
    let mut i: usize = 0;
    while i < LEGACY_HELP.len()
        invariant
            i <= LEGACY_HELP@.len(),
            v@ == LEGACY_HELP@.take(i as int),
        decreases LEGACY_HELP@.len() - i,
    {
        v.push(LEGACY_HELP[i]);
        i += 1;
        assert(LEGACY_HELP@.take(i as int) == LEGACY_HELP@.take(i - 1).push(LEGACY_HELP@[i - 1]));
    }
    assert(LEGACY_HELP@.take(i as int) == LEGACY_HELP@);
    v
}

/// The rows of the help screen: the registry's section by section, then the
/// other bindings.
pub fn help_lines() -> (out: Vec<(String, String)>)
    ensures
        pairs_view(out@) == all_rows(),
{
    proof {
        reveal_strlit("");
        lemma_some_rows();
    }
    let reg: Registry = registry();
    let rows: Vec<HelpRow> = help_rows();
    let ghost rv = help_rows_view(rows@);
    let mut out: Vec<(String, String)> = Vec::new();
    assert(pairs_view(out@) == Seq::<PairV>::empty());
    let mut i: usize = 0;
    while i < rows.len()
        invariant
            i <= rows.len(),
            rv == help_rows_view(rows@),
            ""@.len() == 0,
            pairs_view(out@) == command_rows(rv, i as nat),
        decreases rows.len() - i,
    {
        let r: &HelpRow = &rows[i];
        assert(rv[i as int] == r@);
        if i > 0 {
            assert(rv[i - 1] == rows@[i - 1]@);
        }
        let group: &'static str = if i == 0 {
            ""
        } else {
            rows[i - 1].group
        };
        if !str_eq(r.group, group) {
            if !group.is_empty() {
                add_pair(&mut out, "", "");
            }
            add_pair(&mut out, r.group, "");
        }
        add_pair(&mut out, r.keys.as_str(), r.title);
        i += 1;
    }
    add_pair(&mut out, "", "");
    let ghost head = pairs_view(out@);
    let legacy: Vec<(&'static str, &'static str)> = legacy_help_lines();
    let mut k: usize = 0;
    assert(head == head + other_rows(builtin(), 0));
    while k < legacy.len()
        invariant
            k <= legacy.len(),
            legacy@ == LEGACY_HELP@,
            commands_view(reg.commands@) == builtin(),
            pairs_view(out@) == head + other_rows(builtin(), k as nat),
        decreases legacy.len() - k,
    {
        let (key, desc): (&'static str, &'static str) = legacy[k];
        let skip: bool = !key.is_empty() && !desc.is_empty() && is_migrated(&reg, key);
        if !skip {
            add_pair(&mut out, key, desc);
        }
        k += 1;
        assert(pairs_view(out@) == head + other_rows(builtin(), k as nat));
    }
    out
}

/// The registry has rows.
proof fn lemma_some_rows()
    ensures
        rows_of(builtin()).len() > 0,
{
    let b = builtin();
    assert(b.last().keys.len() == 1);
}

/// Every command with keys has a row in the help with its joined keys and its
/// title.
pub proof fn every_bound_command_has_a_help_row(i: int)
    requires
        0 <= i < builtin().len(),
        builtin()[i].keys.len() > 0,
    ensures
        all_rows().contains(pair(help_row(builtin()[i]).keys, builtin()[i].title@)),
{
    let rows = rows_of(builtin());
    lemma_row_of(builtin(), i);
    let k = choose|k: int| 0 <= k < rows.len() && rows[k] == help_row(builtin()[i]);
    lemma_command_row(rows, rows.len(), k);
    let p = pair(rows[k].keys, rows[k].title@);
    let head = command_rows(rows, rows.len());
    let j = choose|j: int| 0 <= j < head.len() && head[j] == p;
    assert(all_rows()[j] == p);
}

proof fn lemma_row_of(commands: Seq<CommandV>, i: int)
    requires
        0 <= i < commands.len(),
        commands[i].keys.len() > 0,
    ensures
        exists|k: int|
            0 <= k < rows_of(commands).len() && rows_of(commands)[k] == help_row(commands[i]),
    decreases commands.len(),
{
    let rows = rows_of(commands);
    if i == commands.len() - 1 {
        assert(rows[rows.len() - 1] == help_row(commands[i]));
    } else {
        let rest = commands.drop_last();
        lemma_row_of(rest, i);
        let k = choose|k: int|
            0 <= k < rows_of(rest).len() && rows_of(rest)[k] == help_row(rest[i]);
        assert(rows[k] == help_row(commands[i]));
    }
}

proof fn lemma_command_row(rows: Seq<HelpRowV>, n: nat, k: int)
    requires
        0 <= k < n <= rows.len(),
    ensures
        command_rows(rows, n).contains(pair(rows[k].keys, rows[k].title@)),
    decreases n,
{
    let p = pair(rows[k].keys, rows[k].title@);
    let all = command_rows(rows, n);
    if k == n - 1 {
        assert(all[all.len() - 1] == p);
    } else {
        lemma_command_row(rows, (n - 1) as nat, k);
        let before = command_rows(rows, (n - 1) as nat);
        let j = choose|j: int| 0 <= j < before.len() && before[j] == p;
        assert(all[j] == p);
    }
}

/// A row that a filter keeps: no header or blank row, and the filter occurs in
/// its key or description, whatever the case.
pub open spec fn matches_filter(row: PairV, filter: Seq<char>) -> bool {
    &&& row.key.len() > 0
    &&& row.desc.len() > 0
    &&& (contains(lower_all(row.key), lower_all(filter)) || contains(
        lower_all(row.desc),
        lower_all(filter),
    ))
}

/// The line of a row.
pub open spec fn help_line(row: PairV) -> Seq<SpanV> {
    if row.key.len() == 0 {
        seq![span(""@, Style::plain())]
    } else if row.desc.len() == 0 {
        seq![span("  "@ + row.key, Style::plain().bold())]
    } else {
        seq![
            span("    "@ + pad_right(row.key, 28), Style::plain()),
            span(row.desc, Style::of(Color::DarkGray)),
        ]
    }
}

/// The lines of the rows that the filter keeps among the first `n`; all rows
/// without a filter.
pub open spec fn kept_lines(rows: Seq<PairV>, filter: Seq<char>, n: nat) -> Seq<Seq<SpanV>>
    decreases n,
{
    if n == 0 {
        Seq::empty()
    } else {
        let before = kept_lines(rows, filter, (n - 1) as nat);
        if filter.len() == 0 || matches_filter(rows[n - 1], filter) {
            before.push(help_line(rows[n - 1]))
        } else {
            before
        }
    }
}

/// The filter prompt.
pub open spec fn prompt_line(filter: Seq<char>) -> Seq<SpanV> {
    let dim = Style::of(Color::DarkGray);
    if filter.len() == 0 {
        seq![
            span("  filter: "@, dim),
            span("_  "@, Style::of(Color::Cyan)),
            span("(type to search · ↑↓ PgUp/PgDn scroll · Esc close)"@, dim),
        ]
    } else {
        seq![
            span("  filter: "@, dim),
            span(filter, Style::of(Color::Cyan).bold()),
            span("_  "@, Style::of(Color::Cyan)),
            span("(Esc to clear)"@, dim),
        ]
    }
}

/// The lines of the help screen under a filter.
pub open spec fn help_screen(filter: Seq<char>) -> Seq<Seq<SpanV>> {
    let rows = all_rows();
    let kept = kept_lines(rows, filter, rows.len());
    let head = seq![prompt_line(filter), seq![span(""@, Style::plain())]];
    if filter.len() > 0 && kept.len() == 0 {
        head.push(seq![span("    (no matches)"@, Style::of(Color::DarkGray))])
    } else {
        head + kept
    }
}

/// How far `n` lines can be scrolled in a viewport, and still fill it.
pub open spec fn max_scroll(n: int, height: int) -> int {
    minus(n, if height > 1 { height } else { 1 }) as int
}

fn draw_help_row(lines: &mut Vec<Line>, key: &str, desc: &str)
    ensures
        lines_view(final(lines)@) == lines_view(old(lines)@).push(
            help_line(pair(key@, desc@)),
        ),
{
    if key.is_empty() {
        add_text_line(lines, "", Style::plain());
    } else if desc.is_empty() {
        add_text_line(lines, concat2("  ", key).as_str(), Style::plain().bold());
    } else {
        let mut spans: Vec<Span> = Vec::new();
        let head: String = concat2("    ", padded_right(key, 28).as_str());
        add_span(&mut spans, head.as_str(), Style::plain());
        add_span(&mut spans, desc, Style::of(Color::DarkGray));
        assert(spans_view(spans@) == help_line(pair(key@, desc@)));
        add_line(lines, spans);
    }
}

fn draw_prompt(filter: &str) -> (spans: Vec<Span>)
    ensures
        spans_view(spans@) == prompt_line(filter@),
{
    let dim: Style = Style::of(Color::DarkGray);
    let mut spans: Vec<Span> = Vec::new();
    add_span(&mut spans, "  filter: ", dim);
    if filter.is_empty() {
        add_span(&mut spans, "_  ", Style::of(Color::Cyan));
        add_span(&mut spans, "(type to search · ↑↓ PgUp/PgDn scroll · Esc close)", dim);
    } else {
        add_span(&mut spans, filter, Style::of(Color::Cyan).bold());
        add_span(&mut spans, "_  ", Style::of(Color::Cyan));
        add_span(&mut spans, "(Esc to clear)", dim);
    }
    assert(spans_view(spans@) == prompt_line(filter@));
    spans
}

/// Draws the help screen and keeps the scroll position within it. With a
/// filter only matching bindings are shown, without headers.
pub fn render_help(height: u16, filter: &str, scroll: &mut u16) -> (lines: Vec<Line>)
    ensures
        lines_view(lines@) == help_screen(filter@),
        *final(scroll) == (if *old(scroll) <= max_scroll(lines@.len() as int, height as int) {
            *old(scroll) as int
        } else {
            max_scroll(lines@.len() as int, height as int)
        }),
{
    let rows: Vec<(String, String)> = help_lines();
    let ghost all = pairs_view(rows@);
    let f: String = lowered(filter);
    let mut lines: Vec<Line> = Vec::new();
    add_line(&mut lines, draw_prompt(filter));
    add_text_line(&mut lines, "", Style::plain());
    let ghost head = lines_view(lines@);
    assert(head == seq![prompt_line(filter@), seq![span(""@, Style::plain())]]);
    let mut kept: usize = 0;
    let mut i: usize = 0;
    assert(head == head + kept_lines(all, filter@, 0));
    while i < rows.len()
        invariant
            i <= rows.len(),
            all == pairs_view(rows@),
            f@ == lower_all(filter@),
            kept <= i,
            kept == kept_lines(all, filter@, i as nat).len(),
            lines_view(lines@) == head + kept_lines(all, filter@, i as nat),
        decreases rows.len() - i,
    {
        let key: &str = rows[i].0.as_str();
        let desc: &str = rows[i].1.as_str();
        assert(all[i as int] == pair(key@, desc@));
        let show: bool = filter.is_empty() || (!key.is_empty() && !desc.is_empty() && (has_text(
            lowered(key).as_str(),
            f.as_str(),
        ) || has_text(lowered(desc).as_str(), f.as_str())));
        if show {
            draw_help_row(&mut lines, key, desc);
            kept += 1;
        }
        i += 1;
        assert(lines_view(lines@) == head + kept_lines(all, filter@, i as nat));
    }
    if !filter.is_empty() && kept == 0 {
        assert(head + kept_lines(all, filter@, i as nat) == head);
        add_text_line(&mut lines, "    (no matches)", Style::of(Color::DarkGray));
    }
    let port: usize = if height > 1 {
        height as usize
    } else {
        1
    };
    let most: usize = crate::text::sat_sub(lines.len(), port);
    if *scroll as usize > most {
        *scroll = most as u16;
    }
    lines
}

} // verus!
