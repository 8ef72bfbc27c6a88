//! What the lists and bars of the screens show.
use crate::app::App;
use crate::catalog::BrowseScreen;
use crate::claude_screen::{entry_line, head_lines, log_lines, LogEntry};
use crate::deck::NowPlaying;
use crate::frame::{
    genre_item, incoming_text, picker_lines, playing_bars, playlist_items, shown, ContentV, DrawEnv,
};
use crate::hints::{browse_hints, position_text};
use crate::key::KeyCode;
use crate::layout::FrameLayout;
use crate::midi_learn::{action_line, binding_lines, captured_lines, ActionRow};
use crate::mixer_laws::ends_in;
use crate::nav::track_step;
use crate::readings::{clock_reads_back, clock_value, decimal_reads_back};
use crate::report_laws::starts_with;
use crate::screens::{
    compact_header, compact_lines, compact_row, menu_line, track_list, CompactCols,
};
use crate::settings::RowV;
use crate::settings_list::{choice_line, option_spans};
use crate::style::{Color, Style};
use crate::text::{decimal, digits_value, ellipsis, fit, trim_back};
use crate::theme::{hex_byte, hex_color, hex_digit, projected, role, Palette};
use crate::track::{track_name, Named, Track};
use crate::wire_input::{code_of, modifiers, mouse_kind, WireButton, WireKeyCode, WireMods, WireMouse};
use vstd::prelude::*;

verus! {

/// A cell shows a text: it begins like it, as far as it has room.
pub open spec fn shows(cell: Seq<char>, text: Seq<char>, w: nat) -> bool {
    &&& cell.len() == w
    &&& forall|j: int| 0 <= j < text.len() && j < w - 2 ==> #[trigger] cell[j] == text[j]
}

proof fn lemma_shows(text: Seq<char>, w: nat)
    requires
        w >= 4,
    ensures
        shows(fit(ellipsis(text, (w - 1) as nat), w), text, w),
{
}

/// A row of the compact list shows title, artist, playing time, tempo and key,
/// label, genre and date of its track, in that order, each in its own column, and
/// its number, counted from one.
pub proof fn compact_row_shows_its_track(t: Track, i: int, column: i32, c: CompactCols)
    requires
        0 <= i < 99,
        c.title >= 4,
        c.artist >= 4,
        c.label >= 4,
        c.genre >= 4,
        c.date >= 4,
    ensures
        ({
            let row = compact_row(t, i, false, column, c);
            &&& row.len() == 8
            &&& row[0].text.len() == 6
            &&& digits_value(
                row[0].text.subrange(
                    if i < 9 {
                        3
                    } else {
                        2
                    },
                    4,
                ),
            ) == i + 1
            &&& shows(row[1].text, t.title@, c.title as nat)
            &&& shows(row[2].text, t.artist@, c.artist as nat)
            &&& row[3].text == fit(t.duration@, 6)
            &&& row[4].text.len() == 10
            &&& t.label_name matches Some(n) ==> shows(row[5].text, n@, c.label as nat)
            &&& t.genre_name matches Some(n) ==> shows(row[6].text, n@, c.genre as nat)
            &&& t.release_date matches Some(d) ==> row[7].text == fit(d@, c.date as nat)
        }),
{
    reveal_strlit("▸");
    reveal_strlit(" ");
    reveal_strlit(".");
    decimal_reads_back((i + 1) as nat);
    lemma_shows(t.title@, c.title as nat);
    lemma_shows(t.artist@, c.artist as nat);
    if let Some(n) = t.label_name {
        lemma_shows(n@, c.label as nat);
    }
    if let Some(n) = t.genre_name {
        lemma_shows(n@, c.genre as nat);
    }
    let row = compact_row(t, i, false, column, c);
    assert(" "@.len() == 1 && "."@.len() == 1 && "▸"@.len() == 1);
    assert(row[0].text.subrange(
        if i < 9 {
            3
        } else {
            2
        },
        4,
    ) =~= decimal((i + 1) as nat));
}

/// The names in the header stand in the order of the columns, each a cell before the
/// column that it names.
pub proof fn header_names_the_columns_in_order(c: CompactCols)
    requires
        c.title >= 10,
        c.artist >= 8,
        c.label >= 6,
        c.genre >= 6,
        c.date >= 10,
    ensures
        ({
            let h = compact_header(c);
            let artist = 5 + c.title;
            let label = artist + c.artist + 6 + 10;
            let genre = label + c.label;
            let date = genre + c.genre;
            &&& h.subrange(5, 10) == "TITLE"@
            &&& h.subrange(artist, artist + 6) == "ARTIST"@
            &&& h.subrange(label, label + 5) == "LABEL"@
            &&& h.subrange(genre, genre + 5) == "GENRE"@
            &&& h.subrange(date, date + 4) == "DATE"@
        }),
{
    reveal_strlit("TITLE");
    reveal_strlit("ARTIST");
    reveal_strlit("DUR");
    reveal_strlit("BPM/KEY");
    reveal_strlit("LABEL");
    reveal_strlit("GENRE");
    reveal_strlit("DATE");
    assert("TITLE"@.len() == 5 && "ARTIST"@.len() == 6 && "DUR"@.len() == 3 && "BPM/KEY"@.len() == 7
        && "LABEL"@.len() == 5 && "GENRE"@.len() == 5 && "DATE"@.len() == 4);
    let h = compact_header(c);
    let artist = 5 + c.title;
    let label = artist + c.artist + 6 + 10;
    let genre = label + c.label;
    let date = genre + c.genre;
    assert(h.subrange(5, 10) =~= "TITLE"@);
    assert(h.subrange(artist, artist + 6) =~= "ARTIST"@);
    assert(h.subrange(label, label + 5) =~= "LABEL"@);
    assert(h.subrange(genre, genre + 5) =~= "GENRE"@);
    assert(h.subrange(date, date + 4) =~= "DATE"@);
}

/// The row scrolled to comes first, and every row is of the track at its place.
pub proof fn rows_are_of_the_track_at_their_place(
    tracks: Seq<Track>,
    selected: int,
    offset: int,
    column: i32,
    c: CompactCols,
    height: int,
    k: int,
)
    requires
        0 <= offset,
        0 <= k < height - 1,
        offset + k < tracks.len(),
    ensures
        compact_lines(tracks, selected, offset, column, c, height)[k + 1] == compact_row(
            tracks[offset + k],
            offset + k,
            offset + k == selected,
            column,
            c,
        ),
{
}

/// The column that a step starts from is the one that is underlined: the label of
/// the track where it leads to the label, the genre where it leads to the genre.
pub proof fn underlined_column_is_the_one_followed(t: Track, i: int, c: CompactCols, at: usize)
    requires
        c.title >= 4,
        c.artist >= 4,
        c.label >= 4,
        c.genre >= 4,
    ensures
        track_step(t, at, 2) is ToLabel ==> {
            let cell = compact_row(t, i, true, 2, c)[5];
            cell.style == Style::of(Color::White).underlined() && cell.text == trim_back(
                fit(ellipsis(t.label_name->0@, (c.label - 1) as nat), c.label as nat),
            )
        },
        track_step(t, at, 3) is ToGenre ==> {
            let cell = compact_row(t, i, true, 3, c)[6];
            cell.style == Style::of(Color::White).underlined() && cell.text == trim_back(
                fit(ellipsis(t.genre_name->0@, (c.genre - 1) as nat), c.genre as nat),
            )
        },
        track_step(t, at, 0) is ToArtist ==> {
            let cell = compact_row(t, i, true, 0, c)[2];
            cell.style == Style::of(Color::White).underlined() && cell.text == trim_back(
                fit(ellipsis(t.artist@, (c.artist - 1) as nat), c.artist as nat),
            )
        },
{
}

/// A line of a menu is its item, marked where it is selected.
pub proof fn menu_lines_are_their_items(item: Seq<char>, selected: bool)
    ensures
        menu_line(item, selected).len() == 1,
        ends_in(menu_line(item, selected)[0].text, item),
        menu_line(item, selected)[0].text[0] == '▸' <==> selected,
{
    reveal_strlit("▸");
    reveal_strlit(" ");
    let text = menu_line(item, selected)[0].text;
    assert(text.skip(text.len() - item.len()) =~= item);
}

/// The bar below shows the name of what plays, and behind a minus how much of it is
/// left.
pub proof fn bar_shows_what_is_left(info: NowPlaying, t: Track)
    requires
        info.playing_track == Some(t),
        info.playing_time_ms <= info.playing_duration_ms,
    ensures
        ({
            let text = playing_bars(info)[0].text;
            let left = (info.playing_duration_ms - info.playing_time_ms) / 1000;
            let tail = crate::screens::clock(left as nat);
            &&& starts_with(text, "▶ "@ + track_name(t))
            &&& ends_in(text, "  -"@ + tail)
            &&& clock_value(tail) == left
        }),
        playing_bars(info).len() == 2 <==> info.crossfading && info.incoming_track is Some,
{
    let text = playing_bars(info)[0].text;
    let left = (info.playing_duration_ms - info.playing_time_ms) / 1000;
    let tail = crate::screens::clock(left as nat);
    clock_reads_back(left as nat);
    let head = "▶ "@ + track_name(t);
    assert(text.take(head.len() as int) =~= head);
    let end = "  -"@ + tail;
    assert(text.skip(text.len() - end.len()) =~= end);
}

/// The track that comes in is shown by its own name, with how far the mix is.
pub proof fn incoming_bar_shows_the_progress(inc: Track, playing_bpm: Option<u32>, percent: nat)
    requires
        percent <= 100,
    ensures
        ({
            let text = incoming_text(inc, playing_bpm, (percent * 10_000) as u32);
            &&& starts_with(text, "◀ "@ + track_name(inc))
            &&& ends_in(text, "  "@ + decimal(percent) + "%"@)
        }),
{
    let text = incoming_text(inc, playing_bpm, (percent * 10_000) as u32);
    let head = "◀ "@ + track_name(inc);
    assert(text.take(head.len() as int) =~= head);
    let end = "  "@ + decimal(percent) + "%"@;
    assert(text.skip(text.len() - end.len()) =~= end);
}

/// The question which deck to favour offers deck A's track under A and deck B's
/// under B.
pub proof fn decks_are_offered_under_their_letter(info: NowPlaying)
    ensures
        ({
            let lines = picker_lines(info);
            &&& lines[2][0].text[3] == 'a'
            &&& lines[3][0].text[3] == 'b'
            &&& info.deck_a.track matches Some(t) ==> lines[2][1].text == track_name(t)
            &&& info.deck_b.track matches Some(t) ==> lines[3][1].text == track_name(t)
        }),
{
    reveal_strlit("  [a] ");
    reveal_strlit("  [b] ");
}

/// The hint for Enter names what a step from the column leads to.
pub proof fn hints_name_what_enter_leads_to(screen: BrowseScreen, esc: Seq<char>)
    requires
        screen.items is Tracks,
    ensures
        starts_with(browse_hints(screen, -1, esc), "[Enter] Release"@),
        starts_with(browse_hints(screen, 0, esc), "[Enter] Artist"@),
        starts_with(browse_hints(screen, 1, esc), "[Enter] Remixer"@),
        starts_with(browse_hints(screen, 2, esc), "[Enter] Label"@),
        starts_with(browse_hints(screen, 3, esc), "[Enter] Genre"@),
        starts_with(browse_hints(screen, 4, esc), "[Enter] Year"@),
{
    reveal_strlit("[Enter] Release");
    reveal_strlit("[Enter] Artist");
    reveal_strlit("[Enter] Remixer");
    reveal_strlit("[Enter] Label");
    reveal_strlit("[Enter] Genre");
    reveal_strlit("[Enter] Year");
    reveal_strlit("[Enter] Release  [o] Open  [←] Back  [→] Next Column");
    reveal_strlit("[Enter] Artist  [o] Open  [←] Back  [→] Next Column");
    reveal_strlit("[Enter] Remixer  [o] Open  [←] Back  [→] Next Column");
    reveal_strlit("[Enter] Label  [o] Open  [←] Back  [→] Next Column");
    reveal_strlit("[Enter] Genre  [o] Open  [←] Back  [→] Next Column");
    reveal_strlit("[Enter] Year  [o] Open  [←] Back");
    assert("[Enter] Release"@.len() == 15 && "[Enter] Artist"@.len() == 14
        && "[Enter] Remixer"@.len() == 15 && "[Enter] Label"@.len() == 13
        && "[Enter] Genre"@.len() == 13 && "[Enter] Year"@.len() == 12);
    assert(browse_hints(screen, -1, esc).take(15) =~= "[Enter] Release"@);
    assert(browse_hints(screen, 0, esc).take(14) =~= "[Enter] Artist"@);
    assert(browse_hints(screen, 1, esc).take(15) =~= "[Enter] Remixer"@);
    assert(browse_hints(screen, 2, esc).take(13) =~= "[Enter] Label"@);
    assert(browse_hints(screen, 3, esc).take(13) =~= "[Enter] Genre"@);
    assert(browse_hints(screen, 4, esc).take(12) =~= "[Enter] Year"@);
}

/// The place in a list counts from one, with the length of the list behind it.
pub proof fn place_in_list_counts_from_one(selected: usize, count: nat)
    requires
        selected < count,
    ensures
        ({
            let text = position_text(selected, count);
            let n = decimal((selected + 1) as nat).len() as int;
            &&& digits_value(text.subrange(3, 3 + n)) == selected + 1
            &&& text[3 + n] == '/'
            &&& digits_value(text.subrange(4 + n, text.len() - 1)) == count
        }),
{
    reveal_strlit("  [");
    reveal_strlit("/");
    reveal_strlit("]");
    decimal_reads_back((selected + 1) as nat);
    decimal_reads_back(count);
    let text = position_text(selected, count);
    let n = decimal((selected + 1) as nat).len() as int;
    assert("  ["@.len() == 3 && "/"@.len() == 1 && "]"@.len() == 1);
    assert(text.subrange(3, 3 + n) =~= decimal((selected + 1) as nat));
    assert(text.subrange(4 + n, text.len() - 1) =~= decimal(count));
}

/// A playlist stands on the row by which it is picked.
pub proof fn playlists_stand_on_their_row(playlists: Seq<Named>, i: int)
    requires
        0 <= i < playlists.len(),
    ensures
        playlist_items(playlists)[i + 1] == playlists[i].name@,
        playlist_items(playlists).len() == playlists.len() + 1,
{
}

/// A genre carries a star exactly where it is a favourite.
pub proof fn stars_mark_favorites(name: Seq<char>, favorites: Seq<Seq<char>>)
    ensures
        genre_item(name, favorites, true)[0] == '★' <==> favorites.contains(name),
        ends_in(genre_item(name, favorites, true), name),
        genre_item(name, favorites, false) == name,
{
    reveal_strlit("★");
    reveal_strlit("·");
    reveal_strlit(" ");
    let text = genre_item(name, favorites, true);
    assert(text.skip(text.len() - name.len()) =~= name);
}

/// The options of a row stand in order, and exactly the current one in brackets.
pub proof fn current_option_is_in_brackets(options: Seq<Seq<char>>, current: int, n: nat, j: int)
    requires
        0 <= j < n,
        n <= options.len(),
    ensures
        option_spans(options, current, n).len() == 2 * n - 1,
        j == current ==> option_spans(options, current, n)[2 * j].text == "["@ + options[j] + "]"@,
        j != current ==> option_spans(options, current, n)[2 * j].text == options[j],
    decreases n,
{
    assert(option_spans(options, current, 0).len() == 0);
    if n > 1 {
        current_option_is_in_brackets(
            options,
            current,
            (n - 1) as nat,
            if j < n - 1 {
                j
            } else {
                0
            },
        );
    }
}

/// A row is starred exactly where it is not at its default.
pub proof fn star_marks_a_change(row: RowV, selected: bool)
    requires
        row.options.len() > 0,
        row.key@ != crate::settings::RESET_ALL_KEY@,
        0 <= row.current_idx < row.options.len(),
        row.options.last() != "  *"@,
    ensures
        choice_line(row, selected).last().text == "  *"@ <==> row.current_idx != row.default_idx,
{
    reveal_strlit("  *");
    reveal_strlit("[");
    reveal_strlit("]");
    let n = row.options.len();
    current_option_is_in_brackets(row.options, row.current_idx, n, n - 1);
    let spans = option_spans(row.options, row.current_idx, n);
    let all = crate::settings_list::row_head(row.label@, selected) + spans;
    assert(all.last() == spans.last());
    assert(spans.last() == spans[2 * (n - 1)]);
    if row.current_idx == n - 1 {
        assert(spans.last().text[0] == '[');
        assert("  *"@[0] == ' ');
    }
}

/// The newest entry of the DJ's log comes first, and the log starts as far back as
/// it is scrolled.
pub proof fn newest_entry_comes_first(log: Seq<LogEntry>, skip: int, k: int)
    requires
        0 <= skip,
        0 <= k,
        skip + k < log.len(),
    ensures
        log_lines(log, skip)[k + 2] == entry_line(log[log.len() - 1 - skip - k]),
        entry_line(log[log.len() - 1 - skip - k])[3].text == log[log.len() - 1 - skip
            - k].message@,
{
}

/// The screen of the DJ says whether it is on.
pub proof fn dj_screen_says_whether_it_is_on(enabled: bool)
    ensures
        head_lines(enabled)[0][2].text == "ON"@ <==> enabled,
        head_lines(enabled)[0][1].text[0] == '●' <==> enabled,
{
    reveal_strlit("ON");
    reveal_strlit("OFF");
    reveal_strlit("●");
    reveal_strlit("○");
    assert("ON"@.len() == 2 && "OFF"@.len() == 3);
}

/// An action is ticked exactly where it is bound, with what it is bound to behind
/// it; a binding leads from the control to the action.
pub proof fn bindings_are_shown(row: ActionRow, bindings: Seq<(String, String)>, i: int)
    requires
        0 <= i < bindings.len(),
    ensures
        action_line(row)[0].text[0] == '✓' <==> row.event is Some,
        action_line(row)[1].text == row.label@,
        row.event matches Some(e) ==> action_line(row)[2].text == "    ["@ + e@ + "]"@,
        binding_lines(bindings)[i][0].text == "  "@ + bindings[i].0@ + "  →  "@ + bindings[i].1@,
{
    reveal_strlit("✓");
    reveal_strlit("○");
}

/// What is bound and what is not add up to all the actions there are.
pub proof fn bound_and_unmapped_add_up(
    captured: Option<Seq<char>>,
    value: u32,
    bound: nat,
    total: nat,
)
    requires
        bound <= total,
    ensures
        ({
            let text = captured_lines(captured, value, bound, total)[1][0].text;
            let b = decimal(bound).len() as int;
            let t = decimal(total).len() as int;
            &&& digits_value(text.subrange(7, 7 + b)) == bound
            &&& digits_value(text.subrange(8 + b, 8 + b + t)) == total
            &&& digits_value(text.skip(8 + b + t + 14)) == total - bound
        }),
{
    reveal_strlit("Bound: ");
    reveal_strlit("/");
    reveal_strlit("    Unmapped: ");
    decimal_reads_back(bound);
    decimal_reads_back(total);
    decimal_reads_back((total - bound) as nat);
    let text = captured_lines(captured, value, bound, total)[1][0].text;
    let b = decimal(bound).len() as int;
    let t = decimal(total).len() as int;
    assert("Bound: "@.len() == 7 && "/"@.len() == 1 && "    Unmapped: "@.len() == 14);
    assert(text.subrange(7, 7 + b) =~= decimal(bound));
    assert(text.subrange(8 + b, 8 + b + t) =~= decimal(total));
    assert(text.skip(8 + b + t + 14) =~= decimal((total - bound) as nat));
}

/// A hexadecimal digit.
pub open spec fn hex_char(n: int) -> char {
    if n < 10 {
        ('0' as int + n) as u8 as char
    } else {
        ('a' as int + n - 10) as u8 as char
    }
}

/// A colour written in hexadecimal: red, green, blue.
pub open spec fn hex_text(r: u8, g: u8, b: u8) -> Seq<char> {
    seq![
        '#',
        hex_char(r as int / 16),
        hex_char(r as int % 16),
        hex_char(g as int / 16),
        hex_char(g as int % 16),
        hex_char(b as int / 16),
        hex_char(b as int % 16),
    ]
}

proof fn lemma_hex_byte(n: u8)
    ensures
        hex_byte(hex_char(n as int / 16), hex_char(n as int % 16)) == Some(n),
{
    let h = n as int / 16;
    let l = n as int % 16;
    assert(hex_digit(hex_char(h)) == Some(h));
    assert(hex_digit(hex_char(l)) == Some(l));
    assert(16 * h + l == n);
}

/// A colour that is written in hexadecimal reads back as it was.
pub proof fn colors_read_back(r: u8, g: u8, b: u8)
    ensures
        hex_color(hex_text(r, g, b)) == Some((r, g, b)),
{
    lemma_hex_byte(r);
    lemma_hex_byte(g);
    lemma_hex_byte(b);
    let t = hex_text(r, g, b);
    assert(!crate::text::is_space(t[0]));
    assert(!crate::text::is_space(t[6]));
    assert(crate::text::trim(t) =~= t);
}

/// A theme that names no colour leaves the palette as it is; each role takes the
/// colour of its own name.
pub proof fn roles_go_by_their_name(src: Seq<char>)
    ensures
        ({
            let d = Palette::spec_defaults();
            let p = projected(src);
            &&& p.red == role(src, "red"@, d.red)
            &&& p.green == role(src, "green"@, d.green)
            &&& p.yellow == role(src, "yellow"@, d.yellow)
            &&& p.blue == role(src, "blue"@, d.blue)
            &&& p.cyan == role(src, "cyan"@, d.cyan)
            &&& p.purple == role(src, "purple"@, d.purple)
            &&& p.orange == role(src, "orange"@, d.orange)
        }),
{
}

/// A key that comes over the wire is the key that was pressed: no two keys become
/// one, and what was held is held.
pub proof fn wire_keys_are_kept(a: WireKeyCode, b: WireKeyCode, m: WireMods)
    ensures
        code_of(a) == code_of(b) ==> a == b,
        a is Up <==> code_of(a) is Up,
        a is Down <==> code_of(a) is Down,
        a is Left <==> code_of(a) is Left,
        a is Right <==> code_of(a) is Right,
        a is Home <==> code_of(a) is Home,
        a is End <==> code_of(a) is End,
        a is PageUp <==> code_of(a) is PageUp,
        a is PageDown <==> code_of(a) is PageDown,
        a is Enter <==> code_of(a) is Enter,
        a is Esc <==> code_of(a) is Esc,
        a is Tab <==> code_of(a) is Tab,
        a is BackTab <==> code_of(a) is BackTab,
        a matches WireKeyCode::Char(c) ==> code_of(a) == KeyCode::Char(c),
        a matches WireKeyCode::F(n) ==> code_of(a) == KeyCode::F(n),
        modifiers(m).shift == m.shift,
        modifiers(m).ctrl == m.ctrl,
        modifiers(m).alt == m.alt,
        modifiers(m).logo == m.logo,
{
}

/// A click with the right button is one, and only a press or a drag is a click.
pub proof fn wire_clicks_are_kept(kind: WireMouse, button: WireButton)
    ensures
        mouse_kind(kind, button) is RightDown <==> kind is Down && button is Right,
        mouse_kind(kind, button) is LeftDown ==> kind is Down && !(button is Right),
        mouse_kind(kind, button) is LeftDrag ==> kind is Drag && !(button is Right),
        kind is Down && button is Left ==> mouse_kind(kind, button) is LeftDown,
        mouse_kind(kind, button) is ScrollUp <==> kind is ScrollUp,
        mouse_kind(kind, button) is ScrollDown <==> kind is ScrollDown,
        mouse_kind(kind, button) is ScrollLeft <==> kind is ScrollLeft,
        mouse_kind(kind, button) is ScrollRight <==> kind is ScrollRight,
{
}

/// Each list shows its own tracks: the queue what is queued, the history what was
/// played, the search what was found.
pub proof fn lists_show_their_own_tracks(
    a: App,
    l: FrameLayout,
    info: NowPlaying,
    env: DrawEnv,
)
    ensures
        a.view is Queue ==> shown(a, l, info, env) == ContentV::Lines(
            track_list(
                info.queue@,
                a.nav.cursor.selected as int,
                a.nav.cursor.scroll as int,
                (-1) as i32,
                true,
                l.content.width as int,
                l.content.height as int,
            ),
        ),
        a.view is History ==> shown(a, l, info, env) == ContentV::Lines(
            track_list(
                env.history@,
                a.nav.cursor.selected as int,
                a.nav.cursor.scroll as int,
                (-1) as i32,
                true,
                l.content.width as int,
                l.content.height as int,
            ),
        ),
        a.view is Search ==> (shown(a, l, info, env) matches ContentV::Beside(list, line)
            && line[1].text == a.search.query@ && (env.results@.len() > 0 ==> list == track_list(
            env.results@,
            a.nav.cursor.selected as int,
            a.nav.cursor.scroll as int,
            (-1) as i32,
            a.config.compact_view,
            l.list.width as int,
            l.list.height as int,
        ))),
        a.view is Browse && l.line is Some ==> (shown(a, l, info, env) matches ContentV::Beside(
            _,
            line,
        ) && line[1].text == a.nav@.filter),
{
}

} // verus!
