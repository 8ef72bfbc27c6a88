//! What the entries of the menus lead to, web pages of what is selected, and how
//! the program starts.
use crate::app::App;
use crate::catalog::{counted, counted_str, BrowseScreen, Items, MenuAction};
use crate::effects::{
    add_act, add_text, add_toast, fx_view, no_effects, only_toast, Act, Effect, EffectV, TextAct,
};
use crate::inputs::{search_effects, trigger_search, SearchV, ViewMode};
use crate::keymap::{lower_all, lowered};
use crate::nav::{first_holding, NavV};
use crate::text::{
    char_count, chars_of, concat2, concat3, decimal, decimal_str, has_text, lowercase_of, owned,
    signed_decimal, signed_decimal_str, str_eq, to_lowercase,
};
use crate::track::{Named, Track};
use vstd::prelude::*;
use vstd::string::*;

verus! {

/// What an entry of a menu leads to.
pub enum MenuPlan {
    /// Nothing but a message.
    Refused,
    /// The favourites, listed.
    Favorites,
    /// A folder of the local library.
    LocalFolder(String),
    /// The tracks of a folder, or of everything below it.
    FolderTracks(String),
    FolderRecursive(String),
    /// The library of another program.
    Rekordbox,
    EngineDj,
    Serato,
    /// A stick that is plugged in, by its place.
    UsbStick(String),
    /// A screen that needs no service.
    Fixed,
    /// Something to load from the service, from its first page.
    Load,
}

#[verifier::ext_equal]
pub enum MenuPlanV {
    Refused,
    Favorites,
    LocalFolder(Seq<char>),
    FolderTracks(Seq<char>),
    FolderRecursive(Seq<char>),
    Rekordbox,
    EngineDj,
    Serato,
    UsbStick(Seq<char>),
    Fixed,
    Load,
}

impl View for MenuPlan {
    type V = MenuPlanV;

    open spec fn view(&self) -> MenuPlanV {
        match *self {
            MenuPlan::Refused => MenuPlanV::Refused,
            MenuPlan::Favorites => MenuPlanV::Favorites,
            MenuPlan::LocalFolder(p) => MenuPlanV::LocalFolder(p@),
            MenuPlan::FolderTracks(p) => MenuPlanV::FolderTracks(p@),
            MenuPlan::FolderRecursive(p) => MenuPlanV::FolderRecursive(p@),
            MenuPlan::Rekordbox => MenuPlanV::Rekordbox,
            MenuPlan::EngineDj => MenuPlanV::EngineDj,
            MenuPlan::Serato => MenuPlanV::Serato,
            MenuPlan::UsbStick(p) => MenuPlanV::UsbStick(p@),
            MenuPlan::Fixed => MenuPlanV::Fixed,
            MenuPlan::Load => MenuPlanV::Load,
        }
    }
}

/// The local library: it has to be set, and to be a directory.
pub open spec fn library_plan(dir: Seq<char>, is_dir: bool) -> (MenuPlanV, Seq<EffectV>) {
    if dir.len() == 0 {
        (
            MenuPlanV::Refused,
            seq![
                EffectV::Toast(
                    "Local Library: set Settings → Local Library Directory first"@,
                    3000,
                ),
            ],
        )
    } else if !is_dir {
        (
            MenuPlanV::Refused,
            seq![EffectV::Toast("Local Library: "@ + dir + " is not a directory"@, 3000)],
        )
    } else {
        (MenuPlanV::LocalFolder(dir), Seq::empty())
    }
}

/// What an entry leads to, and what is said. `is_dir` tells whether the local
/// library is a directory.
pub open spec fn menu_plan(action: MenuAction, dir: Seq<char>, is_dir: bool, signed_in: bool) -> (
    MenuPlanV,
    Seq<EffectV>,
) {
    let none = Seq::<EffectV>::empty();
    match action {
        MenuAction::PushFavorites => (MenuPlanV::Favorites, none),
        MenuAction::PushLocalLibrary => library_plan(dir, is_dir),
        MenuAction::PushLocalFolder(p) => (MenuPlanV::LocalFolder(p@), none),
        MenuAction::LoadLocalFolderTracks(p) => (MenuPlanV::FolderTracks(p@), none),
        MenuAction::LoadLocalLibraryRecursive(p) => (MenuPlanV::FolderRecursive(p@), none),
        MenuAction::PushRekordbox => (MenuPlanV::Rekordbox, none),
        MenuAction::PushEngineDj => (MenuPlanV::EngineDj, none),
        MenuAction::PushSerato => (MenuPlanV::Serato, none),
        MenuAction::PushUsbStick(p) => (MenuPlanV::UsbStick(p@), none),
        MenuAction::PushDiscover
        | MenuAction::PushTrending
        | MenuAction::PushGenreTrending(_, _)
        | MenuAction::PushDecades
        | MenuAction::PushGenreDecades(_)
        | MenuAction::PushDecade(_, _, _)
        | MenuAction::PushDecadeYears(_, _, _)
        | MenuAction::PushYear(_, _, _)
        | MenuAction::PushMyBeatport
        | MenuAction::PushMyLibrary => (MenuPlanV::Fixed, none),
        MenuAction::LoadReleaseTracks(_)
        | MenuAction::LoadChartTracks(_)
        | MenuAction::LoadDecadeTracks(_, _)
        | MenuAction::Load(_) => if signed_in {
            (MenuPlanV::Load, seq![EffectV::Toast("Loading..."@, 2000)])
        } else {
            (MenuPlanV::Refused, seq![EffectV::Toast("Not authenticated"@, 2000)])
        },
    }
}

fn plan_library(dir: &str, is_dir: bool) -> (r: (MenuPlan, Vec<Effect>))
    ensures
        (r.0@, fx_view(r.1@)) == library_plan(dir@, is_dir),
{
    if char_count(dir) == 0 {
        (
            MenuPlan::Refused,
            only_toast("Local Library: set Settings → Local Library Directory first", 3000),
        )
    } else if !is_dir {
        let text: String = concat3("Local Library: ", dir, " is not a directory");
        (MenuPlan::Refused, only_toast(text.as_str(), 3000))
    } else {
        (MenuPlan::LocalFolder(owned(dir)), no_effects())
    }
}

fn plan_menu(action: &MenuAction, dir: &str, is_dir: bool, signed_in: bool) -> (r: (
    MenuPlan,
    Vec<Effect>,
))
    ensures
        (r.0@, fx_view(r.1@)) == menu_plan(*action, dir@, is_dir, signed_in),
{
    match action {
        MenuAction::PushFavorites => (MenuPlan::Favorites, no_effects()),
        MenuAction::PushLocalLibrary => plan_library(dir, is_dir),
        MenuAction::PushLocalFolder(p) => (MenuPlan::LocalFolder(owned(p.as_str())), no_effects()),
        MenuAction::LoadLocalFolderTracks(p) => (
            MenuPlan::FolderTracks(owned(p.as_str())),
            no_effects(),
        ),
        MenuAction::LoadLocalLibraryRecursive(p) => (
            MenuPlan::FolderRecursive(owned(p.as_str())),
            no_effects(),
        ),
        MenuAction::PushRekordbox => (MenuPlan::Rekordbox, no_effects()),
        MenuAction::PushEngineDj => (MenuPlan::EngineDj, no_effects()),
        MenuAction::PushSerato => (MenuPlan::Serato, no_effects()),
        MenuAction::PushUsbStick(p) => (MenuPlan::UsbStick(owned(p.as_str())), no_effects()),
        MenuAction::PushDiscover
        | MenuAction::PushTrending
        | MenuAction::PushGenreTrending(_, _)
        | MenuAction::PushDecades
        | MenuAction::PushGenreDecades(_)
        | MenuAction::PushDecade(_, _, _)
        | MenuAction::PushDecadeYears(_, _, _)
        | MenuAction::PushYear(_, _, _)
        | MenuAction::PushMyBeatport
        | MenuAction::PushMyLibrary => (MenuPlan::Fixed, no_effects()),
        MenuAction::LoadReleaseTracks(_)
        | MenuAction::LoadChartTracks(_)
        | MenuAction::LoadDecadeTracks(_, _)
        | MenuAction::Load(_) => {
            if signed_in {
                (MenuPlan::Load, only_toast("Loading...", 2000))
            } else {
                (MenuPlan::Refused, only_toast("Not authenticated", 2000))
            }
        },
    }
}

/// Where a list of tracks comes from.
#[derive(Debug, Clone, Copy, PartialEq, Eq, Structural)]
pub enum Source {
    Favorites,
    Rekordbox,
    EngineDj,
    Serato,
    Usb,
}

pub open spec fn source_name(s: Source, label: Seq<char>) -> Seq<char> {
    match s {
        Source::Favorites => "Favorites"@,
        Source::Rekordbox => "Rekordbox"@,
        Source::EngineDj => "Engine DJ"@,
        Source::Serato => "Serato"@,
        Source::Usb => "USB: "@ + label,
    }
}

/// The title of the tracks of a source; a stick goes by its label.
pub fn source_title(s: Source, label: &str, count: usize) -> (t: String)
    ensures
        t@ == counted(source_name(s, label@), count as nat),
{
    let name: String = match s {
        Source::Favorites => owned("Favorites"),
        Source::Rekordbox => owned("Rekordbox"),
        Source::EngineDj => owned("Engine DJ"),
        Source::Serato => owned("Serato"),
        Source::Usb => concat2("USB: ", label),
    };
    counted_str(name.as_str(), count)
}

/// What is said of a source that could not be read.
pub fn import_failed(s: Source, error: &str) -> (fx: Vec<Effect>)
    ensures
        fx_view(fx@) == seq![
            EffectV::Toast(
                (match s {
                    Source::Usb => "USB"@,
                    _ => source_name(s, Seq::empty()),
                }) + " import failed: "@ + error@,
                3000,
            ),
        ],
{
    let name: &str = match s {
        Source::Favorites => "Favorites",
        Source::Rekordbox => "Rekordbox",
        Source::EngineDj => "Engine DJ",
        Source::Serato => "Serato",
        Source::Usb => "USB",
    };
    only_toast(concat3(name, " import failed: ", error).as_str(), 3000)
}

impl App {
    /// Chooses an entry of a menu.
    pub fn execute_menu_action(&mut self, action: &MenuAction, is_dir: bool, signed_in: bool) -> (r: (
        MenuPlan,
        Vec<Effect>,
    ))
        requires
            old(self).wf(),
        ensures
            final(self).wf(),
            (r.0@, fx_view(r.1@)) == menu_plan(
                *action,
                old(self).config.local_library_dir@,
                is_dir,
                signed_in,
            ),
            *final(self) == (App { nav: final(self).nav, ..*old(self) }),
            final(self).nav@ == (if r.0 is Load {
                NavV { page: 1, ..old(self).nav@ }
            } else {
                old(self).nav@
            }),
    {
        let r: (MenuPlan, Vec<Effect>) = plan_menu(
            action,
            self.config.local_library_dir.as_str(),
            is_dir,
            signed_in,
        );
        if let MenuPlan::Load = r.0 {
            self.nav.page = 1;
        }
        r
    }

    /// Asks for the next page of a list.
    pub fn load_more(&mut self, signed_in: bool) -> (fx: Vec<Effect>)
        requires
            old(self).wf(),
            old(self).nav.page < u32::MAX,
        ensures
            final(self).wf(),
            *final(self) == (App { nav: final(self).nav, ..*old(self) }),
            final(self).nav@ == (if signed_in {
                NavV { page: (old(self).nav.page + 1) as u32, ..old(self).nav@ }
            } else {
                old(self).nav@
            }),
            fx_view(fx@) == (if signed_in {
                seq![
                    EffectV::Toast(
                        "Loading page "@ + decimal((old(self).nav.page + 1) as nat) + "..."@,
                        2000,
                    ),
                    EffectV::Do(Act::LoadPage((old(self).nav.page + 1) as u32)),
                ]
            } else {
                seq![EffectV::Toast("Not authenticated"@, 2000)]
            }),
    {
        if !signed_in {
            return only_toast("Not authenticated", 2000);
        }
        let page: u32 = self.nav.page + 1;
        self.nav.page = page;
        let text: String = concat3("Loading page ", decimal_str(page as u64).as_str(), "...");
        let mut fx: Vec<Effect> = only_toast(text.as_str(), 2000);
        add_act(&mut fx, Act::LoadPage(page));
        assert(fx_view(fx@) =~= seq![
            EffectV::Toast(text@, 2000),
            EffectV::Do(Act::LoadPage(page)),
        ]);
        fx
    }
}

/// What is said of a page that brought nothing: the end of the list, or a list
/// that has no pages.
pub fn empty_page(paged: bool) -> (fx: Vec<Effect>)
    ensures
        fx_view(fx@) == seq![
            EffectV::Toast(
                if paged {
                    "No more"@
                } else {
                    "Load More not supported"@
                },
                2000,
            ),
        ],
{
    if paged {
        only_toast("No more", 2000)
    } else {
        only_toast("Load More not supported", 2000)
    }
}

/// A name in small letters as part of an address.
pub open spec fn dashed(lower: Seq<char>) -> Seq<char> {
    Seq::new(
        lower.len(),
        |i: int|
            if lower[i] == ' ' {
                '-'
            } else {
                lower[i]
            },
    )
}

pub fn dashed_str(lower: &str) -> (s: String)
    ensures
        s@ == dashed(lower@),
{
    let v: Vec<char> = chars_of(lower);
    let mut s: String = String::new();
    let mut i: usize = 0;
    assert(s@ =~= dashed(v@).take(0));
    while i < v.len()
        invariant
            i <= v.len(),
            s@ == dashed(v@).take(i as int),
        decreases v.len() - i,
    {
        let c: char = v[i];
        s.push(
            if c == ' ' {
                '-'
            } else {
                c
            },
        );
        i += 1;
        assert(s@ =~= dashed(v@).take(i as int));
    }
    assert(dashed(v@).take(i as int) =~= dashed(v@));
    s
}

/// The name of someone as part of an address.
pub open spec fn slug(name: Seq<char>) -> Seq<char> {
    dashed(lowercase_of(name))
}

fn slug_str(name: &str) -> (s: String)
    ensures
        s@ == slug(name@),
{
    dashed_str(to_lowercase(name).as_str())
}

/// A page of the shop.
pub open spec fn page(kind: Seq<char>, slug: Seq<char>, id: i64) -> Seq<char> {
    "https://www.beatport.com/"@ + kind + "/"@ + slug + "/"@ + signed_decimal(id as int)
}

pub fn page_str(kind: &str, slug: &str, id: i64) -> (s: String)
    ensures
        s@ == page(kind@, slug@, id),
{
    let s: String = concat3("https://www.beatport.com/", kind, "/");
    let s: String = concat3(s.as_str(), slug, "/");
    concat2(s.as_str(), signed_decimal_str(id).as_str())
}

/// The page of a track, by the column the cursor is on.
pub open spec fn track_page(t: Track, column: int) -> Option<Seq<char>> {
    if column == 0 {
        if t.artists@.len() > 0 {
            Some(page("artist"@, slug(t.artists@[0].name@), t.artists@[0].id))
        } else {
            None
        }
    } else if column == 1 {
        if t.remixer_links@.len() > 0 {
            Some(page("artist"@, slug(t.remixer_links@[0].name@), t.remixer_links@[0].id))
        } else {
            None
        }
    } else if column == 2 {
        match t.label_id {
            Some(id) => Some(
                page(
                    "label"@,
                    slug(
                        match t.label_name {
                            Some(n) => n@,
                            None => "label"@,
                        },
                    ),
                    id,
                ),
            ),
            None => None,
        }
    } else if column == 3 {
        match t.genre_id {
            Some(id) => Some(
                page(
                    "genre"@,
                    match t.genre_slug {
                        Some(s) => s@,
                        None => "genre"@,
                    },
                    id,
                ),
            ),
            None => None,
        }
    } else if column == 4 {
        match t.release_id {
            Some(id) => Some(page("release"@, "r"@, id)),
            None => None,
        }
    } else {
        Some(page("track"@, "t"@, t.id))
    }
}

/// The page of what is selected on a screen.
pub open spec fn web_page(screen: BrowseScreen, i: usize, column: int) -> Option<Seq<char>> {
    if i >= screen.items.spec_len() {
        None
    } else {
        match screen.items {
            Items::Tracks(v) => track_page(v@[i as int], column),
            Items::Artists(v) => Some(
                page("artist"@, slug(v@[i as int].name@), v@[i as int].id),
            ),
            Items::Labels(v) => Some(page("label"@, slug(v@[i as int].name@), v@[i as int].id)),
            Items::Releases(v) => Some(page("release"@, "r"@, v@[i as int].id)),
            Items::Genres(v) => Some(page("genre"@, v@[i as int].slug@, v@[i as int].id)),
            _ => None,
        }
    }
}

fn page_of_track(t: &Track, column: i32) -> (r: Option<String>)
    ensures
        crate::boxes::opt_str(r) == track_page(*t, column as int),
{
    if column == 0 {
        if t.artists.len() > 0 {
            let a: &Named = &t.artists[0];
            Some(page_str("artist", slug_str(a.name.as_str()).as_str(), a.id))
        } else {
            None
        }
    } else if column == 1 {
        if t.remixer_links.len() > 0 {
            let a: &Named = &t.remixer_links[0];
            Some(page_str("artist", slug_str(a.name.as_str()).as_str(), a.id))
        } else {
            None
        }
    } else if column == 2 {
        match t.label_id {
            Some(id) => {
                let name: &str = match &t.label_name {
                    Some(n) => n.as_str(),
                    None => "label",
                };
                Some(page_str("label", slug_str(name).as_str(), id))
            },
            None => None,
        }
    } else if column == 3 {
        match t.genre_id {
            Some(id) => {
                let s: &str = match &t.genre_slug {
                    Some(n) => n.as_str(),
                    None => "genre",
                };
                Some(page_str("genre", s, id))
            },
            None => None,
        }
    } else if column == 4 {
        match t.release_id {
            Some(id) => Some(page_str("release", "r", id)),
            None => None,
        }
    } else {
        Some(page_str("track", "t", t.id))
    }
}

/// The page of what is selected on a screen.
pub fn page_of(screen: &BrowseScreen, i: usize, column: i32) -> (r: Option<String>)
    ensures
        crate::boxes::opt_str(r) == web_page(*screen, i, column as int),
{
    match &screen.items {
        Items::Tracks(v) => if i < v.len() {
            page_of_track(&v[i], column)
        } else {
            None
        },
        Items::Artists(v) => if i < v.len() {
            Some(page_str("artist", slug_str(v[i].name.as_str()).as_str(), v[i].id))
        } else {
            None
        },
        Items::Labels(v) => if i < v.len() {
            Some(page_str("label", slug_str(v[i].name.as_str()).as_str(), v[i].id))
        } else {
            None
        },
        Items::Releases(v) => if i < v.len() {
            Some(page_str("release", "r", v[i].id))
        } else {
            None
        },
        Items::Genres(v) => if i < v.len() {
            Some(page_str("genre", v[i].slug.as_str(), v[i].id))
        } else {
            None
        },
        _ => None,
    }
}

/// The program that opens web pages.
pub open spec fn browser_app(browser: Seq<char>) -> Seq<char> {
    if browser == "Safari"@ || browser == "Firefox"@ || browser == "Arc"@ {
        browser
    } else {
        "Google Chrome"@
    }
}

pub fn browser_app_of(browser: &str) -> (s: &'static str)
    ensures
        s@ == browser_app(browser@),
{
    if str_eq(browser, "Safari") {
        "Safari"
    } else if str_eq(browser, "Firefox") {
        "Firefox"
    } else if str_eq(browser, "Arc") {
        "Arc"
    } else {
        "Google Chrome"
    }
}

impl App {
    /// Opens the page of what is selected, where it has one.
    pub fn open_in_browser(&self) -> (fx: Vec<Effect>)
        requires
            self.wf(),
        ensures
            fx_view(fx@) == (match web_page(
                self.nav@.screen(),
                self.nav.cursor.selected,
                self.nav.cursor.column as int,
            ) {
                Some(url) => seq![EffectV::With(TextAct::OpenUrl, url)],
                None => seq![EffectV::Toast("Nothing to open"@, 1000)],
            }),
    {
        match page_of(
            self.nav.current_screen(),
            self.nav.cursor.selected,
            self.nav.cursor.column,
        ) {
            Some(url) => {
                let mut fx: Vec<Effect> = no_effects();
                add_text(&mut fx, TextAct::OpenUrl, url.as_str());
                assert(fx_view(fx@) =~= seq![EffectV::With(TextAct::OpenUrl, url@)]);
                fx
            },
            None => only_toast("Nothing to open", 1000),
        }
    }
}

/// What is said once a page was opened, or could not be.
pub fn opened(app: &str, error: &Option<String>) -> (fx: Vec<Effect>)
    ensures
        fx_view(fx@) == (match *error {
            None => seq![EffectV::Toast("Opening in "@ + app@, 1500)],
            Some(e) => seq![EffectV::Toast("Failed to open: "@ + e@, 2000)],
        }),
{
    match error {
        None => only_toast(concat2("Opening in ", app).as_str(), 1500),
        Some(e) => only_toast(concat2("Failed to open: ", e.as_str()).as_str(), 2000),
    }
}

/// How the program is started.
pub struct CliArgs {
    pub browse: Option<String>,
    pub play: bool,
    pub genre: Option<String>,
    pub search: Option<String>,
    pub dashboard: bool,
}

/// The item that a segment of the path at the start names: the first whose label
/// holds it, case aside.
pub fn start_segment(labels: &Vec<String>, segment: &str) -> (r: Option<usize>)
    ensures
        match r {
            Some(i) => first_holding(labels@, segment@, 0) == Some(i as int) && i < labels@.len(),
            None => first_holding(labels@, segment@, 0) is None,
        },
{
    let wanted: String = to_lowercase(segment);
    let mut k: usize = 0;
    while k < labels.len()
        invariant
            k <= labels.len(),
            wanted@ == lowercase_of(segment@),
            first_holding(labels@, segment@, 0) == first_holding(labels@, segment@, k as int),
        decreases labels.len() - k,
    {
        if has_text(to_lowercase(labels[k].as_str()).as_str(), wanted.as_str()) {
            return Some(k);
        }
        k += 1;
    }
    None
}

/// The genre that is played at the start: the one asked for, else the first of
/// the favourites, else the default one.
pub open spec fn start_genre(asked: Option<String>, favorites: Seq<String>, default: Seq<char>) -> Seq<
    char,
> {
    match asked {
        Some(g) => g@,
        None => if favorites.len() > 0 {
            favorites[0]@
        } else {
            default
        },
    }
}

/// The genre with a name, ASCII case aside.
pub open spec fn genre_named(genres: Seq<crate::catalog::Genre>, name: Seq<char>, from: int) -> Option<
    int,
>
    decreases genres.len() - from,
{
    if from >= genres.len() {
        None
    } else if lower_all(genres[from].name@) == lower_all(name) {
        Some(from)
    } else {
        genre_named(genres, name, from + 1)
    }
}

/// What comes of the genres at the start: the one to list, with the title of its
/// list, or a message.
pub fn start_chart(genres: &Vec<crate::catalog::Genre>, name: &str) -> (r: Result<
    (usize, String),
    Vec<Effect>,
>)
    ensures
        match r {
            Ok(x) => genre_named(genres@, name@, 0) == Some(x.0 as int) && x.0 < genres@.len()
                && x.1@ == genres@[x.0 as int].name@ + " Top 100"@,
            Err(fx) => genre_named(genres@, name@, 0) is None && fx_view(fx@) == seq![
                EffectV::Toast("Genre '"@ + name@ + "' not found"@, 2000),
            ],
        },
{
    let wanted: String = lowered(name);
    let mut k: usize = 0;
    while k < genres.len()
        invariant
            k <= genres.len(),
            wanted@ == lower_all(name@),
            genre_named(genres@, name@, 0) == genre_named(genres@, name@, k as int),
        decreases genres.len() - k,
    {
        if str_eq(lowered(genres[k].name.as_str()).as_str(), wanted.as_str()) {
            return Ok((k, concat2(genres[k].name.as_str(), " Top 100")));
        }
        k += 1;
    }
    Err(only_toast(concat3("Genre '", name, "' not found").as_str(), 2000))
}

/// What the arguments ask for, after the path was followed.
pub open spec fn started(a: App, b: App, fx: Seq<EffectV>, cli: CliArgs, signed_in: bool) -> bool {
    let genre = start_genre(
        cli.genre,
        a.config.favorite_genres@,
        a.config.default_genre@,
    );
    let play = if cli.play {
        seq![EffectV::Toast("Loading "@ + genre + " charts..."@, 3000)] + (if signed_in {
            seq![EffectV::With(TextAct::LoadChart, genre)]
        } else {
            Seq::empty()
        })
    } else {
        Seq::empty()
    };
    let search = match cli.search {
        Some(q) => search_effects(q@, signed_in),
        None => Seq::empty(),
    };
    &&& b == App { search: b.search, view: b.view, ..a }
    &&& b.search@ == (match cli.search {
        Some(q) => SearchV { query: q@, ..a.search@ },
        None => a.search@,
    })
    &&& b.view == (if cli.dashboard || cli.play {
        ViewMode::Dashboard
    } else if cli.search is Some {
        ViewMode::Search
    } else {
        a.view
    })
    &&& fx == play + search
}

impl App {
    /// Does what the arguments ask for, after the path was followed.
    pub fn apply_cli_args(&mut self, cli: &CliArgs, signed_in: bool) -> (fx: Vec<Effect>)
        requires
            old(self).wf(),
        ensures
            final(self).wf(),
            started(*old(self), *final(self), fx_view(fx@), *cli, signed_in),
    {
        let mut fx: Vec<Effect> = no_effects();
        if cli.play {
            let genre: String = match &cli.genre {
                Some(g) => owned(g.as_str()),
                None => if self.config.favorite_genres.len() > 0 {
                    owned(self.config.favorite_genres[0].as_str())
                } else {
                    owned(self.config.default_genre.as_str())
                },
            };
            let text: String = concat3("Loading ", genre.as_str(), " charts...");
            add_toast(&mut fx, text.as_str(), 3000);
            if signed_in {
                add_text(&mut fx, TextAct::LoadChart, genre.as_str());
            }
        }
        let ghost play = fx_view(fx@);
        if let Some(q) = &cli.search {
            let more: Vec<Effect> = trigger_search(q.as_str(), signed_in);
            self.search.query = owned(q.as_str());
            self.view = ViewMode::Search;
            crate::effects::add_effects(&mut fx, more);
        } else {
            assert(fx_view(fx@) =~= play + Seq::<EffectV>::empty());
        }
        if cli.dashboard || cli.play {
            self.view = ViewMode::Dashboard;
        }
        proof {
            let genre = start_genre(
                cli.genre,
                old(self).config.favorite_genres@,
                old(self).config.default_genre@,
            );
            assert(play =~= (if cli.play {
                seq![EffectV::Toast("Loading "@ + genre + " charts..."@, 3000)] + (if signed_in {
                    seq![EffectV::With(TextAct::LoadChart, genre)]
                } else {
                    Seq::empty()
                })
            } else {
                Seq::empty()
            }));
        }
        fx
    }
}

} // verus!
