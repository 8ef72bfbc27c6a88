//! What menus, requests and inputs lead to, and what is said of them.
use crate::blit::{ansi256, attr_bits, base_index, own_color, shown_color, HostPalette};
use crate::catalog::{counted, MenuAction};
use crate::dj_app::{key_note, seek_text};
use crate::effects::EffectV;
use crate::hints::{esc_hint, play_hint};
use crate::inputs::{filter_step, help_step, HelpV, ViewMode};
use crate::key::KeyCode;
use crate::menus::{browser_app, library_plan, menu_plan, start_genre, MenuPlanV};
use crate::mixer_laws::ends_in;
use crate::nav::NavV;
use crate::readings::decimal_reads_back;
use crate::report_laws::starts_with;
use crate::requests::{created_text, outcome, started, Created};
use crate::search_guard::{refusal, Refusal};
use crate::style::{Color, Modifier};
use crate::text::{decimal, digits_value};
use crate::toast::{shown, Toast};
use crate::usb_libraries::{drive, kind_at, roots, Platform, StickEntry};
use vstd::prelude::*;

verus! {

/// The local library opens where it is set to and a directory; else it is said what
/// is wrong.
pub proof fn library_opens_where_it_is(dir: Seq<char>, is_dir: bool)
    ensures
        library_plan(dir, is_dir).0 matches MenuPlanV::LocalFolder(p) ==> p == dir && is_dir
            && dir.len() > 0,
        dir.len() > 0 && is_dir ==> library_plan(dir, is_dir).0 is LocalFolder && library_plan(
            dir,
            is_dir,
        ).1.len() == 0,
        dir.len() == 0 || !is_dir ==> library_plan(dir, is_dir).0 is Refused && library_plan(
            dir,
            is_dir,
        ).1.len() == 1,
{
}

/// An entry for a place leads to that place, and to the kind of list it names.
pub proof fn entries_lead_to_their_place(p: String, dir: Seq<char>, is_dir: bool, signed_in: bool)
    ensures
        menu_plan(MenuAction::PushLocalFolder(p), dir, is_dir, signed_in).0
            == MenuPlanV::LocalFolder(p@),
        menu_plan(MenuAction::LoadLocalFolderTracks(p), dir, is_dir, signed_in).0
            == MenuPlanV::FolderTracks(p@),
        menu_plan(MenuAction::LoadLocalLibraryRecursive(p), dir, is_dir, signed_in).0
            == MenuPlanV::FolderRecursive(p@),
        menu_plan(MenuAction::PushUsbStick(p), dir, is_dir, signed_in).0 == MenuPlanV::UsbStick(
            p@,
        ),
        menu_plan(MenuAction::PushRekordbox, dir, is_dir, signed_in).0 is Rekordbox,
        menu_plan(MenuAction::PushEngineDj, dir, is_dir, signed_in).0 is EngineDj,
        menu_plan(MenuAction::PushSerato, dir, is_dir, signed_in).0 is Serato,
        menu_plan(MenuAction::PushFavorites, dir, is_dir, signed_in).0 is Favorites,
        menu_plan(MenuAction::Load(p), dir, is_dir, signed_in).0 is Load <==> signed_in,
        menu_plan(MenuAction::Load(p), dir, is_dir, signed_in).0 is Refused <==> !signed_in,
{
}

/// The genre asked for is played; without one the first favourite, and without any
/// the default.
pub proof fn genre_asked_for_is_played(asked: String, favorites: Seq<String>, default: Seq<char>)
    ensures
        start_genre(Some(asked), favorites, default) == asked@,
        favorites.len() > 0 ==> start_genre(None, favorites, default) == favorites[0]@,
        favorites.len() == 0 ==> start_genre(None, favorites, default) == default,
{
}

/// A browser that is known is the one that opens pages.
pub proof fn known_browser_is_used(name: Seq<char>)
    requires
        name == "Safari"@ || name == "Firefox"@ || name == "Arc"@ || name == "Google Chrome"@,
    ensures
        browser_app(name) == name,
{
}

/// A request starts only for an account; what is said of it is that it worked, or
/// what went wrong.
pub proof fn requests_say_what_happened(signed_in: bool, done: Seq<char>, failed: Seq<char>, e: String)
    ensures
        started(signed_in, done).0 == signed_in,
        started(true, done).1 == seq![EffectV::Toast(done, 2000)],
        outcome(done, failed, None) == done,
        starts_with(outcome(done, failed, Some(e)), failed),
        ends_in(outcome(done, failed, Some(e)), e@),
{
    let text = outcome(done, failed, Some(e));
    assert(text.take(failed.len() as int) =~= failed);
    assert(text.skip(text.len() - e@.len()) =~= e@);
}

/// What is said of a new playlist tells a failed start from a failed addition.
pub proof fn new_playlist_says_what_happened(name: Seq<char>, e: String)
    ensures
        starts_with(created_text(name, Created::Both), "Created '"@ + name),
        ends_in(created_text(name, Created::AddFailed(e)), "add failed: "@ + e@),
        ends_in(created_text(name, Created::CreateFailed(e)), "Create playlist failed: "@ + e@),
{
    reveal_strlit("Created playlist but add failed: ");
    reveal_strlit("add failed: ");
    let head = "Created '"@ + name;
    assert(created_text(name, Created::Both).take(head.len() as int) =~= head);
    let a = created_text(name, Created::AddFailed(e));
    let tail = "add failed: "@ + e@;
    assert("Created playlist but add failed: "@.len() == 33 && "add failed: "@.len() == 12);
    assert(a.skip(a.len() - tail.len()) =~= tail);
    let c = created_text(name, Created::CreateFailed(e));
    assert(c.skip(0) =~= c);
}

/// The hint for play says what the key would do, and the one for Esc whether it goes
/// back or quits.
pub proof fn hints_say_what_keys_would_do(playing: bool, depth: nat)
    ensures
        play_hint(playing) == "[p] Pause"@ <==> playing,
        play_hint(playing) == "[p] Play"@ <==> !playing,
        esc_hint(depth) == "[Esc] Quit"@ <==> depth <= 1,
{
    reveal_strlit("[p] Pause");
    reveal_strlit("[p] Play");
    reveal_strlit("[Esc] Quit");
    reveal_strlit("[Esc] Back");
    assert("[p] Pause"@.len() == 9 && "[p] Play"@.len() == 8);
    assert("[Esc] Quit"@[6] == 'Q' && "[Esc] Back"@[6] == 'B');
}

/// The help scrolls up and down by a line, pages by ten, and typing narrows it from
/// the top.
pub proof fn help_scrolls_by_lines_and_pages(h: HelpV, c: char)
    requires
        10 <= h.scroll <= 60_000,
    ensures
        help_step(h, KeyCode::Up).0.scroll == h.scroll - 1,
        help_step(h, KeyCode::Down).0.scroll == h.scroll + 1,
        help_step(h, KeyCode::PageUp).0.scroll == h.scroll - 10,
        help_step(h, KeyCode::PageDown).0.scroll == h.scroll + 10,
        help_step(h, KeyCode::Home).0.scroll == 0,
        help_step(h, KeyCode::Char(c)).0 == (HelpV { filter: h.filter.push(c), scroll: 0 }),
        help_step(help_step(h, KeyCode::Char(c)).0, KeyCode::Backspace).0.filter == h.filter,
        h.filter.len() == 0 ==> help_step(h, KeyCode::Esc).1 == ViewMode::Dashboard,
        h.filter.len() > 0 ==> help_step(h, KeyCode::Esc).1 == ViewMode::Help && help_step(
            h,
            KeyCode::Esc,
        ).0.filter.len() == 0,
{
    assert(h.filter.push(c).drop_last() =~= h.filter);
}

/// Typing a filter adds what is typed, Backspace takes it off again, Enter keeps the
/// filter and Esc drops it.
pub proof fn filter_is_what_was_typed(n: NavV, c: char)
    ensures
        filter_step(n, KeyCode::Char(c)).filter == n.filter.push(c),
        filter_step(n, KeyCode::Char(c)).cursor.selected == 0,
        filter_step(filter_step(n, KeyCode::Char(c)), KeyCode::Backspace).filter == n.filter,
        filter_step(n, KeyCode::Enter).filter == n.filter && !filter_step(
            n,
            KeyCode::Enter,
        ).filtering,
        filter_step(n, KeyCode::Esc).filter.len() == 0 && !filter_step(n, KeyCode::Esc).filtering,
        n.cursor.selected > 0 ==> filter_step(n, KeyCode::Up).cursor.selected == n.cursor.selected
            - 1,
{
    assert(n.filter.push(c).drop_last() =~= n.filter);
}

/// A toast is shown until its time is over.
pub proof fn toasts_show_until_they_expire(t: Toast, m: String, from: u64, for_ms: u64, now: u64)
    requires
        t.message == Some(m),
        from + for_ms <= u64::MAX,
        t.expiry == Some((from + for_ms) as u64),
        from <= now,
    ensures
        now - from < for_ms ==> shown(t, now) == Some(m@),
        now - from >= for_ms ==> shown(t, now) is None,
{
}

/// A title counts what it lists.
pub proof fn titles_count_what_they_list(name: Seq<char>, count: nat)
    ensures
        starts_with(counted(name, count), name),
        digits_value(
            counted(name, count).subrange(
                name.len() + 2 as int,
                counted(name, count).len() - 1,
            ),
        ) == count,
{
    reveal_strlit(" (");
    reveal_strlit(")");
    decimal_reads_back(count);
    let text = counted(name, count);
    assert(" ("@.len() == 2 && ")"@.len() == 1);
    assert(text.take(name.len() as int) =~= name);
    assert(text.subrange(name.len() + 2 as int, text.len() - 1) =~= decimal(count));
}

/// Keys that lie far apart are warned of, near ones are not; both keys are named,
/// the playing one first.
pub proof fn far_keys_are_warned_of(p: String, q: String, distance: u32)
    ensures
        ({
            let note = key_note(Some(p), Some(q), distance)[0];
            &&& key_note(Some(p), Some(q), distance).len() == 1
            &&& note[0] == '⚠' <==> distance > 3
            &&& distance == 0 ==> starts_with(note, "key "@ + p@ + "="@ + q@)
            &&& 0 < distance <= 3 ==> starts_with(note, "key "@ + p@ + "→"@ + q@)
            &&& distance > 3 ==> starts_with(note, "⚠ key "@ + p@ + "→"@ + q@)
        }),
{
    reveal_strlit("key ");
    reveal_strlit("⚠ key ");
    let note = key_note(Some(p), Some(q), distance)[0];
    if distance == 0 {
        let head = "key "@ + p@ + "="@ + q@;
        assert(note.take(head.len() as int) =~= head);
    } else if distance <= 3 {
        let head = "key "@ + p@ + "→"@ + q@;
        assert(note.take(head.len() as int) =~= head);
    } else {
        let head = "⚠ key "@ + p@ + "→"@ + q@;
        assert(note.take(head.len() as int) =~= head);
    }
}

/// The answer to a seek names the deck.
pub proof fn seek_answer_names_the_deck(is_a: bool, label: Seq<char>, found: Option<i64>)
    ensures
        seek_text(is_a, label, found)[5] == (if is_a {
            'A'
        } else {
            'B'
        }),
{
    reveal_strlit("Deck ");
    reveal_strlit("A");
    reveal_strlit("B");
}

/// A tempo is looked for only where a number stands beside it; a genre is refused
/// before anything else.
pub proof fn searches_are_refused_for_their_reason(query: Seq<char>)
    ensures
        refusal(query) == Some(Refusal::Bpm) ==> crate::search_guard::has_digit(query),
        crate::search_guard::names_genre(crate::keymap::lower_all(query)) ==> refusal(query)
            == Some(Refusal::Genre),
        refusal(query) is None ==> !crate::search_guard::names_genre(
            crate::keymap::lower_all(query),
        ),
{
}

/// The stick at a place is the first one that is mounted there.
pub proof fn stick_is_the_one_mounted(sticks: Seq<StickEntry>, i: int)
    requires
        0 <= i < sticks.len(),
        forall|j: int| 0 <= j < i ==> (#[trigger] sticks[j]).mount@ != sticks[i].mount@,
    ensures
        kind_at(sticks, sticks[i].mount@) == Some(sticks[i].kind),
    decreases sticks.len(),
{
    if i > 0 {
        let rest = sticks.skip(1);
        assert(sticks[0].mount@ != sticks[i].mount@);
        assert forall|j: int| 0 <= j < i - 1 implies (#[trigger] rest[j]).mount@ != rest[i
            - 1].mount@ by {
            assert(rest[j] == sticks[j + 1]);
        }
        stick_is_the_one_mounted(rest, i - 1);
    }
}

/// The drives that are looked at run from D to Z.
pub proof fn drives_run_from_d_to_z(user: Seq<char>)
    ensures
        roots(Platform::Windows, user).len() == 23,
        roots(Platform::Windows, user)[0][0] == 'D',
        roots(Platform::Windows, user)[22][0] == 'Z',
        drive(0)[1] == ':',
{
}

/// The bits of an attribute tell exactly what is set.
pub proof fn attributes_read_back(m: Modifier, n: Modifier)
    ensures
        attr_bits(m) == attr_bits(n) ==> m.bold == n.bold && m.dim == n.dim && m.italic == n.italic
            && m.underlined == n.underlined && m.reversed == n.reversed && m.crossed_out
            == n.crossed_out,
        0 <= attr_bits(m) < 64,
        attr_bits(m) % 2 == 1 <==> m.bold,
        attr_bits(m) >= 32 <==> m.crossed_out,
{
}

/// A colour given by its channels is shown so; without a palette a named colour is
/// its place among the first sixteen; the greys grow lighter.
pub proof fn colors_are_their_own(r: u8, g: u8, b: u8, is_bg: bool, c: Color, i: u8)
    requires
        233 <= i,
        !(c is Rgb) && !(c is Indexed) && !(c is Reset),
    ensures
        own_color(Color::Rgb(r, g, b), is_bg).r == r,
        own_color(Color::Rgb(r, g, b), is_bg).g == g,
        own_color(Color::Rgb(r, g, b), is_bg).b == b,
        base_index(c) matches Some(k) && 0 <= k < 16 && own_color(c, is_bg) == ansi256(k as u8),
        ansi256(i).r == ansi256(i).g && ansi256(i).g == ansi256(i).b,
        ansi256(i).r > ansi256((i - 1) as u8).r,
{
}

/// With a host palette the ground and the text take its colours, and colours given by
/// their channels keep their own.
pub proof fn host_palette_gives_ground_and_text(p: HostPalette, r: u8, g: u8, b: u8)
    ensures
        shown_color(Color::Reset, true, Some(p)) == p.bg,
        shown_color(Color::Reset, false, Some(p)) == p.fg,
        shown_color(Color::White, false, Some(p)) == p.fg,
        shown_color(Color::Black, true, Some(p)) == p.bg,
        shown_color(Color::Green, false, Some(p)) == p.accent,
        shown_color(Color::Rgb(r, g, b), false, Some(p)) == own_color(Color::Rgb(r, g, b), false),
{
}

} // verus!
