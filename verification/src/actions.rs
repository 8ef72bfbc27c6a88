//! What comes back from the services, and what it changes.
use crate::app::{App, DashState};
use crate::catalog::{BrowseScreen, Genre, Items};
use crate::controls::DashFocus;
use crate::effects::{
    add_act, add_toast, fx_view, no_effects, only_act, only_toast, Act, Effect, EffectV,
};
use crate::inputs::{GenrePicker, GenreV, PlaylistPicker, PlaylistV, ViewMode};
use crate::keymap::{lower_all, lowered};
use crate::meters::{abs, phase_str, phase_text};
use crate::modals::{resume_start, resume_start_ms};
use crate::nav::NavV;
use crate::numbers::{plain3, plain3_str};
use crate::text::{concat2, concat3, decimal, decimal_str, min_of, str_eq};
use crate::track::{bpm_whole, bpm_whole_str, track_name, Named, Track};
use vstd::prelude::*;
use vstd::string::*;

verus! {

/// A genre is one of the favourites, case aside.
pub open spec fn is_favorite(name: Seq<char>, favorites: Seq<String>) -> bool {
    exists|i: int|
        0 <= i < favorites.len() && lower_all((#[trigger] favorites[i])@) == lower_all(name)
}

pub fn favorite(name: &str, favorites: &Vec<String>) -> (b: bool)
    ensures
        b == is_favorite(name@, favorites@),
{
    let wanted: String = lowered(name);
    let mut i: usize = 0;
    while i < favorites.len()
        invariant
            i <= favorites.len(),
            wanted@ == lower_all(name@),
            forall|k: int|
                0 <= k < i ==> lower_all((#[trigger] favorites@[k])@) != lower_all(name@),
        decreases favorites.len() - i,
    {
        if str_eq(lowered(favorites[i].as_str()).as_str(), wanted.as_str()) {
            assert(lower_all(favorites@[i as int]@) == lower_all(name@));
            return true;
        }
        i += 1;
    }
    false
}

/// The genres of a list that are, or are not, favourites, in their order; and with
/// each its label.
pub open spec fn genres_kept(genres: Seq<Genre>, favorites: Seq<String>, wanted: bool) -> Seq<Genre>
    decreases genres.len(),
{
    if genres.len() == 0 {
        Seq::empty()
    } else {
        let before = genres_kept(genres.drop_last(), favorites, wanted);
        if is_favorite(genres.last().name@, favorites) == wanted {
            before.push(genres.last())
        } else {
            before
        }
    }
}

pub open spec fn labels_kept(
    genres: Seq<Genre>,
    labels: Seq<String>,
    favorites: Seq<String>,
    wanted: bool,
) -> Seq<String>
    decreases genres.len(),
{
    if genres.len() == 0 {
        Seq::empty()
    } else {
        let before = labels_kept(genres.drop_last(), labels.drop_last(), favorites, wanted);
        if is_favorite(genres.last().name@, favorites) == wanted {
            before.push(labels.last())
        } else {
            before
        }
    }
}

/// A list of genres with the favourites first, each group in its order.
pub open spec fn favorites_first(genres: Seq<Genre>, favorites: Seq<String>) -> Seq<Genre> {
    genres_kept(genres, favorites, true) + genres_kept(genres, favorites, false)
}

proof fn lemma_kept_len(genres: Seq<Genre>, labels: Seq<String>, favorites: Seq<String>)
    requires
        genres.len() == labels.len(),
    ensures
        genres_kept(genres, favorites, true).len() + genres_kept(genres, favorites, false).len()
            == genres.len(),
        labels_kept(genres, labels, favorites, true).len() == genres_kept(
            genres,
            favorites,
            true,
        ).len(),
        labels_kept(genres, labels, favorites, false).len() == genres_kept(
            genres,
            favorites,
            false,
        ).len(),
    decreases genres.len(),
{
    if genres.len() > 0 {
        lemma_kept_len(genres.drop_last(), labels.drop_last(), favorites);
    }
}

proof fn lemma_kept_are(genres: Seq<Genre>, favorites: Seq<String>, wanted: bool)
    ensures
        forall|i: int|
            0 <= i < genres_kept(genres, favorites, wanted).len() ==> is_favorite(
                (#[trigger] genres_kept(genres, favorites, wanted)[i]).name@,
                favorites,
            ) == wanted,
    decreases genres.len(),
{
    if genres.len() > 0 {
        let front = genres.drop_last();
        lemma_kept_are(front, favorites, wanted);
        let before = genres_kept(front, favorites, wanted);
        assert forall|i: int| 0 <= i < genres_kept(genres, favorites, wanted).len() implies is_favorite(
            (#[trigger] genres_kept(genres, favorites, wanted)[i]).name@,
            favorites,
        ) == wanted by {
            if i < before.len() {
                assert(genres_kept(genres, favorites, wanted)[i] == before[i]);
            }
        }
    }
}

/// No genre is lost, and no favourite stands behind another genre.
pub proof fn favorites_stand_first(genres: Seq<Genre>, favorites: Seq<String>, i: int, j: int)
    requires
        0 <= i < j < genres.len(),
    ensures
        favorites_first(genres, favorites).len() == genres.len(),
        is_favorite(favorites_first(genres, favorites)[j].name@, favorites) ==> is_favorite(
            favorites_first(genres, favorites)[i].name@,
            favorites,
        ),
{
    let labels = Seq::new(genres.len(), |k: int| genres[k].name);
    lemma_kept_len(genres, labels, favorites);
    lemma_kept_are(genres, favorites, true);
    lemma_kept_are(genres, favorites, false);
    let front = genres_kept(genres, favorites, true);
    let back = genres_kept(genres, favorites, false);
    let all = favorites_first(genres, favorites);
    assert(all.len() == genres.len());
    if j < front.len() {
        assert(all[i] == front[i]);
    } else {
        assert(all[j] == back[j - front.len()]);
    }
}

/// A screen as it is shown: of a list of genres the favourites come first.
pub open spec fn shown_screen(s: BrowseScreen, t: BrowseScreen, favorites: Seq<String>) -> bool {
    match s.items {
        Items::Genres(v) => {
            &&& t.title == s.title
            &&& t.items is Genres
            &&& t.items->Genres_0@ == favorites_first(v@, favorites)
            &&& t.labels@ == labels_kept(v@, s.labels@, favorites, true) + labels_kept(
                v@,
                s.labels@,
                favorites,
                false,
            )
        },
        _ => t == s,
    }
}

fn sort_genres(genres: Vec<Genre>, labels: Vec<String>, favorites: &Vec<String>) -> (r: (
    Vec<Genre>,
    Vec<String>,
))
    requires
        genres@.len() == labels@.len(),
    ensures
        r.0@ == favorites_first(genres@, favorites@),
        r.1@ == labels_kept(genres@, labels@, favorites@, true) + labels_kept(
            genres@,
            labels@,
            favorites@,
            false,
        ),
{
    let ghost all = genres@;
    let ghost names = labels@;
    let mut genres: Vec<Genre> = genres;
    let mut labels: Vec<String> = labels;
    let mut front: Vec<Genre> = Vec::new();
    let mut front_labels: Vec<String> = Vec::new();
    let mut back: Vec<Genre> = Vec::new();
    let mut back_labels: Vec<String> = Vec::new();
    let ghost mut n: int = 0;
    assert(all.take(0) =~= Seq::<Genre>::empty());
    assert(names.take(0) =~= Seq::<String>::empty());
    assert(all.skip(0) =~= all);
    assert(names.skip(0) =~= names);
    while genres.len() > 0
        invariant
            0 <= n <= all.len(),
            all.len() == names.len(),
            genres@ == all.skip(n),
            labels@ == names.skip(n),
            front@ == genres_kept(all.take(n), favorites@, true),
            back@ == genres_kept(all.take(n), favorites@, false),
            front_labels@ == labels_kept(all.take(n), names.take(n), favorites@, true),
            back_labels@ == labels_kept(all.take(n), names.take(n), favorites@, false),
        decreases genres.len(),
    {
        let g: Genre = genres.remove(0);
        let l: String = labels.remove(0);
        assert(g == all[n] && l == names[n]);
        assert(all.take(n + 1).drop_last() =~= all.take(n));
        assert(names.take(n + 1).drop_last() =~= names.take(n));
        assert(all.take(n + 1).last() == g);
        assert(names.take(n + 1).last() == l);
        if favorite(g.name.as_str(), favorites) {
            front.push(g);
            front_labels.push(l);
        } else {
            back.push(g);
            back_labels.push(l);
        }
        proof {
            n = n + 1;
            assert(genres@ =~= all.skip(n));
            assert(labels@ =~= names.skip(n));
        }
    }
    assert(all.take(n) =~= all);
    assert(names.take(n) =~= names);
    front.append(&mut back);
    front_labels.append(&mut back_labels);
    (front, front_labels)
}

fn show_screen(s: BrowseScreen, favorites: &Vec<String>) -> (t: BrowseScreen)
    requires
        s.wf(),
    ensures
        t.wf(),
        shown_screen(s, t, favorites@),
{
    let BrowseScreen { title, labels, items } = s;
    match items {
        Items::Genres(v) => {
            proof {
                lemma_kept_len(v@, labels@, favorites@);
            }
            let (genres, names): (Vec<Genre>, Vec<String>) = sort_genres(v, labels, favorites);
            BrowseScreen { title, labels: names, items: Items::Genres(genres) }
        },
        other => BrowseScreen { title, labels, items: other },
    }
}

/// More items for a list, with their labels.
pub enum Page {
    Tracks(Vec<Track>, Vec<String>),
    Charts(Vec<Named>, Vec<String>),
    Releases(Vec<Named>, Vec<String>),
}

impl Page {
    /// Every item has a label.
    pub open spec fn wf(self) -> bool {
        match self {
            Page::Tracks(v, l) => v@.len() == l@.len(),
            Page::Charts(v, l) => v@.len() == l@.len(),
            Page::Releases(v, l) => v@.len() == l@.len(),
        }
    }
}

/// `+3 tracks (103 total)`.
pub open spec fn added_text(count: nat, noun: Seq<char>, total: nat) -> Seq<char> {
    "+"@ + decimal(count) + " "@ + noun + " ("@ + decimal(total) + " total)"@
}

fn added_str(count: usize, noun: &str, total: usize) -> (s: String)
    ensures
        s@ == added_text(count as nat, noun@, total as nat),
{
    let s: String = concat3("+", decimal_str(count as u64).as_str(), " ");
    let s: String = concat3(s.as_str(), noun, " (");
    concat3(s.as_str(), decimal_str(total as u64).as_str(), " total)")
}

/// A screen with a page added, where it is a list of the same kind, and what is
/// said then.
pub open spec fn page_added(s: BrowseScreen, t: BrowseScreen, fx: Seq<EffectV>, page: Page) -> bool {
    match (s.items, page) {
        (Items::Tracks(v), Page::Tracks(more, labels)) => {
            &&& t.title == s.title
            &&& t.items is Tracks
            &&& t.items->Tracks_0@ == v@ + more@
            &&& t.labels@ == s.labels@ + labels@
            &&& fx == seq![
                EffectV::Toast(
                    added_text(more@.len(), "tracks"@, v@.len() + more@.len()),
                    1000,
                ),
            ]
        },
        (Items::Charts(v), Page::Charts(more, labels)) => {
            &&& t.title == s.title
            &&& t.items is Charts
            &&& t.items->Charts_0@ == v@ + more@
            &&& t.labels@ == s.labels@ + labels@
            &&& fx == seq![
                EffectV::Toast(
                    added_text(more@.len(), "charts"@, v@.len() + more@.len()),
                    1000,
                ),
            ]
        },
        (Items::Releases(v), Page::Releases(more, labels)) => {
            &&& t.title == s.title
            &&& t.items is Releases
            &&& t.items->Releases_0@ == v@ + more@
            &&& t.labels@ == s.labels@ + labels@
            &&& fx == seq![
                EffectV::Toast(
                    added_text(more@.len(), "releases"@, v@.len() + more@.len()),
                    1000,
                ),
            ]
        },
        _ => t == s && fx.len() == 0,
    }
}

fn add_page(s: BrowseScreen, page: Page) -> (r: (BrowseScreen, Vec<Effect>))
    requires
        s.wf(),
        page.wf(),
    ensures
        r.0.wf(),
        page_added(s, r.0, fx_view(r.1@), page),
{
    let BrowseScreen { title, labels, items } = s;
    let mut labels: Vec<String> = labels;
    match (items, page) {
        (Items::Tracks(v), Page::Tracks(more, names)) => {
            let mut v: Vec<Track> = v;
            let mut more: Vec<Track> = more;
            let mut names: Vec<String> = names;
            let count: usize = more.len();
            v.append(&mut more);
            labels.append(&mut names);
            let text: String = added_str(count, "tracks", v.len());
            (
                BrowseScreen { title, labels, items: Items::Tracks(v) },
                only_toast(text.as_str(), 1000),
            )
        },
        (Items::Charts(v), Page::Charts(more, names)) => {
            let mut v: Vec<Named> = v;
            let mut more: Vec<Named> = more;
            let mut names: Vec<String> = names;
            let count: usize = more.len();
            v.append(&mut more);
            labels.append(&mut names);
            let text: String = added_str(count, "charts", v.len());
            (
                BrowseScreen { title, labels, items: Items::Charts(v) },
                only_toast(text.as_str(), 1000),
            )
        },
        (Items::Releases(v), Page::Releases(more, names)) => {
            let mut v: Vec<Named> = v;
            let mut more: Vec<Named> = more;
            let mut names: Vec<String> = names;
            let count: usize = more.len();
            v.append(&mut more);
            labels.append(&mut names);
            let text: String = added_str(count, "releases", v.len());
            (
                BrowseScreen { title, labels, items: Items::Releases(v) },
                only_toast(text.as_str(), 1000),
            )
        },
        (other, _) => (BrowseScreen { title, labels, items: other }, no_effects()),
    }
}

/// The place kept for a track: the last one that was put down.
pub open spec fn kept_place(places: Seq<(i64, u64)>, id: i64) -> Option<u64>
    decreases places.len(),
{
    if places.len() == 0 {
        None
    } else if places.last().0 == id {
        Some(places.last().1)
    } else {
        kept_place(places.drop_last(), id)
    }
}

/// The places without those of a track.
pub open spec fn without_place(places: Seq<(i64, u64)>, id: i64) -> Seq<(i64, u64)>
    decreases places.len(),
{
    if places.len() == 0 {
        places
    } else {
        let before = without_place(places.drop_last(), id);
        if places.last().0 == id {
            before
        } else {
            before.push(places.last())
        }
    }
}

/// A place that was taken is gone.
pub proof fn places_are_taken_once(places: Seq<(i64, u64)>, id: i64)
    ensures
        kept_place(without_place(places, id), id) is None,
    decreases places.len(),
{
    if places.len() > 0 {
        places_are_taken_once(places.drop_last(), id);
        let before = without_place(places.drop_last(), id);
        if places.last().0 != id {
            assert(before.push(places.last()).drop_last() =~= before);
        }
    }
}

pub fn take_place(places: &mut Vec<(i64, u64)>, id: i64) -> (r: Option<u64>)
    ensures
        r == kept_place(old(places)@, id),
        final(places)@ == without_place(old(places)@, id),
{
    let ghost all = places@;
    let mut kept: Vec<(i64, u64)> = Vec::new();
    let mut found: Option<u64> = None;
    let mut i: usize = 0;
    assert(all.take(0) =~= Seq::<(i64, u64)>::empty());
    while i < places.len()
        invariant
            i <= places.len(),
            places@ == all,
            kept@ == without_place(all.take(i as int), id),
            found == kept_place(all.take(i as int), id),
        decreases places.len() - i,
    {
        let p: (i64, u64) = places[i];
        assert(all.take(i + 1).drop_last() =~= all.take(i as int));
        assert(all.take(i + 1).last() == p);
        if p.0 == id {
            found = Some(p.1);
        } else {
            kept.push(p);
        }
        i += 1;
    }
    assert(all.take(i as int) =~= all);
    *places = kept;
    found
}

/// What is known of the sound of a loaded track, in milliseconds.
#[derive(Debug, Clone, Copy)]
pub struct Decoded {
    pub first_audio: u64,
    pub first_beat: u64,
    pub total: u64,
    /// It is loaded beside the track that plays.
    pub as_incoming: bool,
    /// The transition into it is an echo-out.
    pub echo_out: bool,
}

/// Where a loaded track starts.
pub open spec fn start_at(d: Decoded, resumed: Option<u64>) -> int {
    match resumed {
        Some(p) => resume_start(p as int, d.total as int, d.first_beat as int),
        None => if d.as_incoming && !d.echo_out {
            d.first_beat as int
        } else {
            d.first_audio as int
        },
    }
}

/// The screen that gives way to the dashboard when the first track plays.
pub open spec fn gives_way(v: ViewMode) -> bool {
    v is Browse || v is Queue || v is History || v is Settings || v is Search
}

/// What comes back from the services.
pub enum AppAction {
    Toast(String),
    ShowPlaylistPicker { track: i64, playlists: Vec<Named> },
    ShowGenrePicker { favorites: bool, genres: Vec<Genre> },
    PushScreen(BrowseScreen),
    Append(Page),
    /// The tempo, in thousandths, and the first beat, in microseconds.
    PreviewReady { bpm: u32, first_beat_us: i64 },
    /// How far the mix is off, in microseconds.
    AlignmentResult { nudge_us: i64, is_aligned: bool },
    DownloadFailed(String),
}

impl AppAction {
    pub open spec fn wf(self) -> bool {
        match self {
            AppAction::PushScreen(s) => s.wf(),
            AppAction::Append(p) => p.wf(),
            _ => true,
        }
    }
}

/// How many nudges bring a mix together: one for each five milliseconds begun, at
/// most five.
pub open spec fn nudges(us: i64) -> int {
    min_of((abs(us as int) + 4999) as int / 5000, 5)
}

/// What is done about a mix that is off.
pub open spec fn alignment_effects(us: i64, aligned: bool) -> Seq<EffectV> {
    if !aligned && abs(us as int) > 2000 {
        let dir: i32 = if us > 0 {
            (-1) as i32
        } else {
            1
        };
        Seq::new(nudges(us) as nat, |i: int| EffectV::Do(Act::Nudge(dir))).push(
            EffectV::Toast("Mix: aligned ("@ + phase_text(us as int) + " nudge applied)"@, 2000),
        )
    } else {
        seq![EffectV::Toast("Mix: already aligned ("@ + phase_text(us as int) + ")"@, 2000)]
    }
}

/// A mix within two milliseconds is left alone, and no mix is nudged more than
/// five times.
pub proof fn nudges_are_bounded(us: i64, aligned: bool)
    ensures
        abs(us as int) <= 2000 ==> alignment_effects(us, aligned).len() == 1,
        alignment_effects(us, aligned).len() <= 6,
{
}

fn align(us: i64, aligned: bool) -> (fx: Vec<Effect>)
    ensures
        fx_view(fx@) == alignment_effects(us, aligned),
{
    let m: u128 = if us < 0 {
        (-(us as i128)) as u128
    } else {
        us as u128
    };
    if !aligned && m > 2000 {
        let dir: i32 = if us > 0 {
            -1
        } else {
            1
        };
        let want: u128 = (m + 4999) / 5000;
        let n: u128 = if want > 5 {
            5
        } else {
            want
        };
        let mut fx: Vec<Effect> = no_effects();
        let mut i: u128 = 0;
        assert(fx_view(fx@) =~= Seq::new(0, |k: int| EffectV::Do(Act::Nudge(dir))));
        while i < n
            invariant
                i <= n,
                fx_view(fx@) == Seq::new(i as nat, |k: int| EffectV::Do(Act::Nudge(dir))),
            decreases n - i,
        {
            add_act(&mut fx, Act::Nudge(dir));
            i += 1;
            assert(fx_view(fx@) =~= Seq::new(i as nat, |k: int| EffectV::Do(Act::Nudge(dir))));
        }
        let text: String = concat3("Mix: aligned (", phase_str(us).as_str(), " nudge applied)");
        add_toast(&mut fx, text.as_str(), 2000);
        assert(n == nudges(us));
        fx
    } else {
        let text: String = concat3("Mix: already aligned (", phase_str(us).as_str(), ")");
        only_toast(text.as_str(), 2000)
    }
}

/// What an action of the services does.
pub open spec fn action_done(a: App, b: App, fx: Seq<EffectV>, action: AppAction) -> bool {
    match action {
        AppAction::Toast(m) => b == a && fx == seq![EffectV::Toast(m@, 2000)],
        AppAction::ShowPlaylistPicker { track, playlists } => {
            &&& b == App { playlist: b.playlist, view: ViewMode::PlaylistPicker, ..a }
            &&& crate::inputs::playlist_view(b.playlist) == Some(
                PlaylistV { playlists: playlists@, track, selected: 0, new_name: Seq::empty() },
            )
            &&& fx.len() == 0
        },
        AppAction::ShowGenrePicker { favorites, genres } => {
            &&& b == App {
                genre: b.genre,
                view: if favorites {
                    ViewMode::FavoritesPicker
                } else {
                    ViewMode::GenrePicker
                },
                ..a
            }
            &&& crate::inputs::genre_view(b.genre) == Some(
                GenreV { genres: genres@, selected: 0, scroll: 0 },
            )
            &&& fx.len() == 0
        },
        AppAction::PushScreen(s) => {
            let t = b.nav@.screen();
            &&& b == App {
                nav: b.nav,
                view: if a.view is Search {
                    ViewMode::Browse
                } else {
                    a.view
                },
                ..a
            }
            &&& shown_screen(s, t, a.config.favorite_genres@)
            &&& b.nav@ == NavV { page: 1, ..a.nav@.pushed(t) }
            &&& fx == seq![
                EffectV::Toast(
                    s.title@ + ": "@ + decimal(s.labels@.len()) + " items"@,
                    1000,
                ),
            ]
        },
        AppAction::Append(page) => {
            let t = b.nav@.screen();
            &&& b == App { nav: b.nav, ..a }
            &&& page_added(a.nav@.screen(), t, fx, page)
            &&& b.nav@ == NavV { stack: a.nav@.stack.drop_last().push(t), ..a.nav@ }
        },
        AppAction::PreviewReady { bpm, first_beat_us } => b == a && fx == seq![
            EffectV::Toast(
                "Preview: "@ + bpm_whole(bpm) + " BPM, beat at "@ + plain3(first_beat_us as int)
                    + "s"@,
                3000,
            ),
        ],
        AppAction::AlignmentResult { nudge_us, is_aligned } => b == a && fx == alignment_effects(
            nudge_us,
            is_aligned,
        ),
        AppAction::DownloadFailed(m) => b == App { in_flight: false, ..a } && fx == seq![
            EffectV::Toast(m@, 3000),
        ],
    }
}

impl App {
    fn show_pushed(&mut self, s: BrowseScreen) -> (fx: Vec<Effect>)
        requires
            old(self).wf(),
            s.wf(),
        ensures
            final(self).wf(),
            action_done(*old(self), *final(self), fx_view(fx@), AppAction::PushScreen(s)),
    {
        let head: String = concat2(s.title.as_str(), ": ");
        let text: String = concat3(
            head.as_str(),
            decimal_str(s.labels.len() as u64).as_str(),
            " items",
        );
        let t: BrowseScreen = show_screen(s, &self.config.favorite_genres);
        let ghost shown = t;
        self.nav.push_screen(t);
        self.nav.page = 1;
        if self.view == ViewMode::Search {
            self.view = ViewMode::Browse;
        }
        assert(self.nav@.screen() == shown);
        assert(self.nav@ =~= (NavV { page: 1, ..old(self).nav@.pushed(shown) }));
        only_toast(text.as_str(), 1000)
    }

    fn append_page(&mut self, page: Page) -> (fx: Vec<Effect>)
        requires
            old(self).wf(),
            page.wf(),
        ensures
            final(self).wf(),
            action_done(*old(self), *final(self), fx_view(fx@), AppAction::Append(page)),
    {
        let ghost n = self.nav@;
        proof {
            assert(n.stack[n.stack.len() - 1].wf());
        }
        match self.nav.stack.pop() {
            Some(s) => {
                let (t, fx): (BrowseScreen, Vec<Effect>) = add_page(s, page);
                let ghost shown = t;
                self.nav.stack.push(t);
                assert(self.nav@.screen() == shown);
                assert(self.nav@ =~= (NavV { stack: n.stack.drop_last().push(shown), ..n }));
                assert forall|i: int| 0 <= i < self.nav@.stack.len() implies (
                #[trigger] self.nav@.stack[i]).wf() by {
                    if i < n.stack.len() - 1 {
                        assert(n.stack[i].wf());
                    }
                }
                fx
            },
            None => no_effects(),
        }
    }

    /// Takes in what comes back from the services.
    pub fn handle_action(&mut self, action: AppAction) -> (fx: Vec<Effect>)
        requires
            old(self).wf(),
            action.wf(),
        ensures
            final(self).wf(),
            action_done(*old(self), *final(self), fx_view(fx@), action),
    {
        match action {
            AppAction::Toast(m) => only_toast(m.as_str(), 2000),
            AppAction::ShowPlaylistPicker { track, playlists } => {
                let p: PlaylistPicker = PlaylistPicker {
                    playlists,
                    track,
                    selected: 0,
                    new_name: String::new(),
                };
                assert(p.new_name@ =~= Seq::<char>::empty());
                self.playlist = Some(p);
                self.view = ViewMode::PlaylistPicker;
                no_effects()
            },
            AppAction::ShowGenrePicker { favorites, genres } => {
                self.genre = Some(GenrePicker { genres, selected: 0, scroll: 0 });
                self.view = if favorites {
                    ViewMode::FavoritesPicker
                } else {
                    ViewMode::GenrePicker
                };
                no_effects()
            },
            AppAction::PushScreen(s) => self.show_pushed(s),
            AppAction::Append(page) => self.append_page(page),
            AppAction::PreviewReady { bpm, first_beat_us } => {
                let s: String = concat3("Preview: ", bpm_whole_str(bpm).as_str(), " BPM, beat at ");
                let s: String = concat3(s.as_str(), plain3_str(first_beat_us).as_str(), "s");
                only_toast(s.as_str(), 3000)
            },
            AppAction::AlignmentResult { nudge_us, is_aligned } => align(nudge_us, is_aligned),
            AppAction::DownloadFailed(m) => {
                self.in_flight = false;
                only_toast(m.as_str(), 3000)
            },
        }
    }

    /// A track was loaded: where it starts, in milliseconds, and what is said. The
    /// first one that plays brings up the dashboard.
    pub fn track_decoded(&mut self, track: &Track, d: &Decoded) -> (r: (u64, Vec<Effect>))
        requires
            old(self).wf(),
        ensures
            final(self).wf(),
            r.0 == start_at(*d, kept_place(old(self).positions@, track.id)),
            *final(self) == (App {
                in_flight: false,
                positions: final(self).positions,
                view: final(self).view,
                dash: final(self).dash,
                ..*old(self)
            }),
            final(self).positions@ == without_place(old(self).positions@, track.id),
            (final(self).view, final(self).dash) == (if !d.as_incoming && gives_way(
                old(self).view,
            ) {
                (
                    ViewMode::Dashboard,
                    DashState { focus: DashFocus::Controller, ..old(self).dash },
                )
            } else {
                (old(self).view, old(self).dash)
            }),
            fx_view(r.1@) == seq![
                if d.as_incoming {
                    EffectV::Toast("Loaded: "@ + track_name(*track), 1500)
                } else {
                    EffectV::Toast("Playing: "@ + track_name(*track), 2000)
                },
            ],
    {
        self.in_flight = false;
        let resumed: Option<u64> = take_place(&mut self.positions, track.id);
        let start: u64 = match resumed {
            Some(p) => resume_start_ms(p, d.total, d.first_beat),
            None => if d.as_incoming && !d.echo_out {
                d.first_beat
            } else {
                d.first_audio
            },
        };
        if d.as_incoming {
            let text: String = concat2("Loaded: ", track.name().as_str());
            return (start, only_toast(text.as_str(), 1500));
        }
        let away: bool = match self.view {
            ViewMode::Browse
            | ViewMode::Queue
            | ViewMode::History
            | ViewMode::Settings
            | ViewMode::Search => true,
            _ => false,
        };
        if away {
            self.view = ViewMode::Dashboard;
            self.dash.focus = DashFocus::Controller;
        }
        let text: String = concat2("Playing: ", track.name().as_str());
        (start, only_toast(text.as_str(), 2000))
    }

    /// Asks to load a track: it is queued while another one is loaded, and takes a
    /// signed-in user. True where the load starts.
    pub fn download_and_play(&mut self, signed_in: bool) -> (r: (bool, Vec<Effect>))
        requires
            old(self).wf(),
        ensures
            final(self).wf(),
            r.0 == (!old(self).in_flight && signed_in),
            *final(self) == (App { in_flight: old(self).in_flight || signed_in, ..*old(self) }),
            fx_view(r.1@) == (if old(self).in_flight {
                seq![EffectV::Do(Act::QueueNamed)]
            } else if !signed_in {
                seq![EffectV::Toast("Not authenticated"@, 2000)]
            } else {
                Seq::empty()
            }),
    {
        if self.in_flight {
            return (false, only_act(Act::QueueNamed));
        }
        if !signed_in {
            return (false, only_toast("Not authenticated", 2000));
        }
        self.in_flight = true;
        (true, no_effects())
    }
}

} // verus!
