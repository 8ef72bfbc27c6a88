//! What keys do on each screen that reads them by itself.
use crate::catalog::Genre;
use crate::effects::{
    act_and_toast, add_act, add_text, add_toast, fx_view, no_effects, only_act, only_toast, Act,
    Effect, EffectV, TextAct,
};
use crate::key::KeyCode;
use crate::nav::{shown_items, Cursor, Nav, NavV};
use crate::text::{
    char_count, concat2, min_of, minus, owned, pop_char, sat_sub, shortened, str_eq, strs,
};
use crate::track::Named;
use vstd::prelude::*;
use vstd::string::*;

verus! {

/// What the screen shows.
#[derive(Debug, Clone, Copy, PartialEq, Eq, Structural)]
pub enum ViewMode {
    Browse,
    Search,
    Queue,
    History,
    Dashboard,
    Help,
    Settings,
    GenrePicker,
    FavoritesPicker,
    PlaylistPicker,
    PlaylistNameInput,
    Mixer,
    TransitionRules,
    ClaudeDj,
    MidiLearn,
}

/// The help screen: its filter and how far it is scrolled.
pub struct HelpState {
    pub filter: String,
    pub scroll: u16,
}

#[verifier::ext_equal]
pub struct HelpV {
    pub filter: Seq<char>,
    pub scroll: u16,
}

impl View for HelpState {
    type V = HelpV;

    open spec fn view(&self) -> HelpV {
        HelpV { filter: self.filter@, scroll: self.scroll }
    }
}

/// A scroll position some rows up.
pub open spec fn up_by(scroll: u16, n: int) -> u16 {
    minus(scroll as int, n) as u16
}

/// A scroll position some rows down, held at the last one there can be.
pub open spec fn down_by(scroll: u16, n: int) -> u16 {
    min_of(scroll + n, 0xffff) as u16
}

/// Keys on the help screen. Esc first drops the filter, then leaves.
pub open spec fn help_step(h: HelpV, code: KeyCode) -> (HelpV, ViewMode) {
    let stay = ViewMode::Help;
    match code {
        KeyCode::Esc => if h.filter.len() == 0 {
            (h, ViewMode::Dashboard)
        } else {
            (HelpV { filter: Seq::empty(), scroll: 0 }, stay)
        },
        KeyCode::Up => (HelpV { scroll: up_by(h.scroll, 1), ..h }, stay),
        KeyCode::Down => (HelpV { scroll: down_by(h.scroll, 1), ..h }, stay),
        KeyCode::PageUp => (HelpV { scroll: up_by(h.scroll, 10), ..h }, stay),
        KeyCode::PageDown => (HelpV { scroll: down_by(h.scroll, 10), ..h }, stay),
        KeyCode::Home => (HelpV { scroll: 0, ..h }, stay),
        KeyCode::End => (HelpV { scroll: 0xffff, ..h }, stay),
        KeyCode::Backspace => (HelpV { filter: shortened(h.filter), scroll: 0 }, stay),
        KeyCode::Char(c) => (HelpV { filter: h.filter.push(c), scroll: 0 }, stay),
        _ => (h, stay),
    }
}

fn scroll_up(scroll: u16, n: u16) -> (r: u16)
    ensures
        r == up_by(scroll, n as int),
{
    if scroll < n {
        0
    } else {
        scroll - n
    }
}

fn scroll_down(scroll: u16, n: u16) -> (r: u16)
    ensures
        r == down_by(scroll, n as int),
{
    if scroll > 0xffff - n {
        0xffff
    } else {
        scroll + n
    }
}

impl HelpState {
    pub fn key(&mut self, code: KeyCode) -> (v: ViewMode)
        ensures
            (final(self)@, v) == help_step(old(self)@, code),
    {
        match code {
            KeyCode::Esc => {
                if char_count(self.filter.as_str()) == 0 {
                    return ViewMode::Dashboard;
                }
                self.filter = String::new();
                self.scroll = 0;
                assert(self.filter@ =~= Seq::<char>::empty());
            },
            KeyCode::Up => {
                self.scroll = scroll_up(self.scroll, 1);
            },
            KeyCode::Down => {
                self.scroll = scroll_down(self.scroll, 1);
            },
            KeyCode::PageUp => {
                self.scroll = scroll_up(self.scroll, 10);
            },
            KeyCode::PageDown => {
                self.scroll = scroll_down(self.scroll, 10);
            },
            KeyCode::Home => {
                self.scroll = 0;
            },
            KeyCode::End => {
                self.scroll = 0xffff;
            },
            KeyCode::Backspace => {
                pop_char(&mut self.filter);
                self.scroll = 0;
            },
            KeyCode::Char(c) => {
                self.filter.push(c);
                self.scroll = 0;
            },
            _ => {},
        }
        ViewMode::Help
    }
}

/// The search screen: what is typed, and how many tracks were found.
pub struct SearchState {
    pub query: String,
    pub results: usize,
}

#[verifier::ext_equal]
pub struct SearchV {
    pub query: Seq<char>,
    pub results: usize,
}

impl View for SearchState {
    type V = SearchV;

    open spec fn view(&self) -> SearchV {
        SearchV { query: self.query@, results: self.results }
    }
}

/// Starting a search; it takes a signed-in user.
pub open spec fn search_effects(query: Seq<char>, signed_in: bool) -> Seq<EffectV> {
    if signed_in {
        seq![
            EffectV::Toast("Searching: "@ + query, 1000),
            EffectV::With(TextAct::Search, query),
        ]
    } else {
        seq![EffectV::Toast("Not authenticated"@, 2000)]
    }
}

pub fn trigger_search(query: &str, signed_in: bool) -> (fx: Vec<Effect>)
    ensures
        fx_view(fx@) == search_effects(query@, signed_in),
{
    if signed_in {
        let mut fx: Vec<Effect> = only_toast(concat2("Searching: ", query).as_str(), 1000);
        add_text(&mut fx, TextAct::Search, query);
        assert(fx_view(fx@) =~= search_effects(query@, true));
        fx
    } else {
        only_toast("Not authenticated", 2000)
    }
}

/// What keys do on the search screen: what is typed, the row selected, the view,
/// and what is done.
pub open spec fn search_step(s: SearchV, selected: usize, code: KeyCode, signed_in: bool) -> (
    SearchV,
    usize,
    ViewMode,
    Seq<EffectV>,
) {
    let stay = ViewMode::Search;
    let none = Seq::<EffectV>::empty();
    match code {
        KeyCode::Esc => (SearchV { query: Seq::empty(), results: 0 }, 0, ViewMode::Browse, none),
        KeyCode::Backspace => (SearchV { query: shortened(s.query), ..s }, selected, stay, none),
        KeyCode::Enter => (
            s,
            selected,
            stay,
            if s.query.len() > 0 {
                search_effects(s.query, signed_in)
            } else {
                none
            },
        ),
        KeyCode::Up => (s, minus(selected as int, 1) as usize, stay, none),
        KeyCode::Down => (
            s,
            if selected + 1 < s.results {
                (selected + 1) as usize
            } else {
                selected
            },
            stay,
            none,
        ),
        KeyCode::Char(c) => (SearchV { query: s.query.push(c), ..s }, selected, stay, none),
        _ => (s, selected, stay, none),
    }
}

impl SearchState {
    pub fn key(&mut self, selected: &mut usize, code: KeyCode, signed_in: bool) -> (r: (
        ViewMode,
        Vec<Effect>,
    ))
        ensures
            (final(self)@, *final(selected), r.0, fx_view(r.1@)) == search_step(
                old(self)@,
                *old(selected),
                code,
                signed_in,
            ),
    {
        match code {
            KeyCode::Esc => {
                self.query = String::new();
                self.results = 0;
                *selected = 0;
                assert(self.query@ =~= Seq::<char>::empty());
                return (ViewMode::Browse, no_effects());
            },
            KeyCode::Backspace => {
                pop_char(&mut self.query);
            },
            KeyCode::Enter => {
                if char_count(self.query.as_str()) > 0 {
                    return (ViewMode::Search, trigger_search(self.query.as_str(), signed_in));
                }
            },
            KeyCode::Up => {
                *selected = sat_sub(*selected, 1);
            },
            KeyCode::Down => {
                if *selected < self.results && self.results - *selected > 1 {
                    *selected = *selected + 1;
                }
            },
            KeyCode::Char(c) => {
                self.query.push(c);
            },
            _ => {},
        }
        (ViewMode::Search, no_effects())
    }
}

/// What keys do while the local filter is typed.
pub open spec fn filter_step(n: NavV, code: KeyCode) -> NavV {
    let top = Cursor { selected: 0, ..n.cursor };
    match code {
        KeyCode::Esc => NavV { filtering: false, filter: Seq::empty(), cursor: top, ..n },
        KeyCode::Backspace => NavV { filter: shortened(n.filter), cursor: top, ..n },
        KeyCode::Enter => NavV { filtering: false, ..n },
        KeyCode::Char(c) => NavV { filter: n.filter.push(c), cursor: top, ..n },
        KeyCode::Up => NavV {
            cursor: Cursor { selected: minus(n.cursor.selected as int, 1) as usize, ..n.cursor },
            ..n
        },
        KeyCode::Down => if n.cursor.selected + 1 < shown_items(n).len() {
            NavV { cursor: Cursor { selected: (n.cursor.selected + 1) as usize, ..n.cursor }, ..n }
        } else {
            n
        },
        _ => n,
    }
}

impl Nav {
    pub fn filter_key(&mut self, code: KeyCode)
        requires
            old(self)@.wf(),
        ensures
            final(self)@.wf(),
            final(self)@ == filter_step(old(self)@, code),
    {
        match code {
            KeyCode::Esc => {
                self.filtering = false;
                self.filter = String::new();
                self.cursor.selected = 0;
                assert(self.filter@ =~= Seq::<char>::empty());
            },
            KeyCode::Backspace => {
                pop_char(&mut self.filter);
                self.cursor.selected = 0;
            },
            KeyCode::Enter => {
                self.filtering = false;
            },
            KeyCode::Char(c) => {
                self.filter.push(c);
                self.cursor.selected = 0;
            },
            KeyCode::Up => {
                self.cursor.selected = sat_sub(self.cursor.selected, 1);
            },
            KeyCode::Down => {
                let count: usize = self.filtered_item_count();
                if self.cursor.selected < count && count - self.cursor.selected > 1 {
                    self.cursor.selected = self.cursor.selected + 1;
                }
            },
            _ => {},
        }
        assert(self@ =~= filter_step(old(self)@, code));
    }
}

/// Asking the DJ something: the text being typed, or nothing.
pub open spec fn ask_step(buf: Seq<char>, code: KeyCode) -> (Option<Seq<char>>, Seq<EffectV>) {
    let none = Seq::<EffectV>::empty();
    match code {
        KeyCode::Esc => (None, none),
        KeyCode::Backspace => (Some(shortened(buf)), none),
        KeyCode::Enter => if buf.len() > 0 {
            (
                None,
                seq![
                    EffectV::With(TextAct::SetPrompt, buf),
                    EffectV::With(TextAct::TriggerDj, "User says: "@ + buf),
                    EffectV::Toast("Asked DJ: "@ + buf, 2000),
                ],
            )
        } else {
            (Some(buf), none)
        },
        KeyCode::Char(c) => (Some(buf.push(c)), none),
        _ => (Some(buf), none),
    }
}

pub fn ask_key(buf: String, code: KeyCode) -> (r: (Option<String>, Vec<Effect>))
    ensures
        (crate::boxes::opt_str(r.0), fx_view(r.1@)) == ask_step(buf@, code),
{
    let mut buf: String = buf;
    match code {
        KeyCode::Esc => (None, no_effects()),
        KeyCode::Backspace => {
            pop_char(&mut buf);
            (Some(buf), no_effects())
        },
        KeyCode::Enter => {
            if char_count(buf.as_str()) == 0 {
                return (Some(buf), no_effects());
            }
            let mut fx: Vec<Effect> = no_effects();
            add_text(&mut fx, TextAct::SetPrompt, buf.as_str());
            add_text(&mut fx, TextAct::TriggerDj, concat2("User says: ", buf.as_str()).as_str());
            add_toast(&mut fx, concat2("Asked DJ: ", buf.as_str()).as_str(), 2000);
            assert(fx_view(fx@) =~= ask_step(buf@, code).1);
            (None, fx)
        },
        KeyCode::Char(c) => {
            buf.push(c);
            (Some(buf), no_effects())
        },
        _ => (Some(buf), no_effects()),
    }
}

/// Which deck's track to favour: whether the question stays, and what is done.
pub open spec fn fav_step(code: KeyCode, loaded_a: bool, loaded_b: bool) -> (bool, Seq<EffectV>) {
    if code == KeyCode::Esc {
        (false, Seq::empty())
    } else if code == KeyCode::Char('a') || code == KeyCode::Char('A') {
        (
            false,
            if loaded_a {
                seq![EffectV::Do(Act::ToggleFavorite { is_a: true })]
            } else {
                Seq::empty()
            },
        )
    } else if code == KeyCode::Char('b') || code == KeyCode::Char('B') {
        (
            false,
            if loaded_b {
                seq![EffectV::Do(Act::ToggleFavorite { is_a: false })]
            } else {
                Seq::empty()
            },
        )
    } else {
        (true, Seq::empty())
    }
}

pub fn fav_key(code: KeyCode, loaded_a: bool, loaded_b: bool) -> (r: (bool, Vec<Effect>))
    ensures
        (r.0, fx_view(r.1@)) == fav_step(code, loaded_a, loaded_b),
{
    let a: bool = code == KeyCode::Char('a') || code == KeyCode::Char('A');
    let b: bool = code == KeyCode::Char('b') || code == KeyCode::Char('B');
    if code == KeyCode::Esc {
        (false, no_effects())
    } else if a {
        if loaded_a {
            (false, only_act(Act::ToggleFavorite { is_a: true }))
        } else {
            (false, no_effects())
        }
    } else if b {
        if loaded_b {
            (false, only_act(Act::ToggleFavorite { is_a: false }))
        } else {
            (false, no_effects())
        }
    } else {
        (true, no_effects())
    }
}

/// What is said of a track whose favourite mark was changed.
pub open spec fn favorite_message(name: Seq<char>, added: bool) -> Seq<char> {
    if added {
        "★ "@ + name
    } else {
        "Unfavorited: "@ + name
    }
}

pub fn favorite_toast(name: &str, added: bool) -> (e: Effect)
    ensures
        e@ == EffectV::Toast(favorite_message(name@, added), 1500),
{
    if added {
        Effect::Toast(concat2("★ ", name), 1500)
    } else {
        Effect::Toast(concat2("Unfavorited: ", name), 1500)
    }
}

/// Picking a playlist for a track.
pub struct PlaylistPicker {
    pub playlists: Vec<Named>,
    pub track: i64,
    pub selected: usize,
    pub new_name: String,
}

#[verifier::ext_equal]
pub struct PlaylistV {
    pub playlists: Seq<Named>,
    pub track: i64,
    pub selected: usize,
    pub new_name: Seq<char>,
}

impl View for PlaylistPicker {
    type V = PlaylistV;

    open spec fn view(&self) -> PlaylistV {
        PlaylistV {
            playlists: self.playlists@,
            track: self.track,
            selected: self.selected,
            new_name: self.new_name@,
        }
    }
}

pub open spec fn playlist_view(p: Option<PlaylistPicker>) -> Option<PlaylistV> {
    match p {
        Some(x) => Some(x@),
        None => None,
    }
}

/// Keys while the name of a new playlist is typed.
pub open spec fn playlist_name_step(p: PlaylistV, code: KeyCode, signed_in: bool) -> (
    Option<PlaylistV>,
    ViewMode,
    Seq<EffectV>,
) {
    let stay = ViewMode::PlaylistNameInput;
    let none = Seq::<EffectV>::empty();
    match code {
        KeyCode::Char(c) => (Some(PlaylistV { new_name: p.new_name.push(c), ..p }), stay, none),
        KeyCode::Backspace => (
            Some(PlaylistV { new_name: shortened(p.new_name), ..p }),
            stay,
            none,
        ),
        KeyCode::Enter => if p.new_name.len() > 0 && signed_in {
            (
                None,
                ViewMode::Browse,
                seq![
                    EffectV::Do(Act::PickTrack(p.track)),
                    EffectV::With(TextAct::CreateAndAdd, p.new_name),
                ],
            )
        } else {
            (Some(p), stay, none)
        },
        KeyCode::Esc => (Some(p), ViewMode::PlaylistPicker, none),
        _ => (Some(p), stay, none),
    }
}

pub fn playlist_name_key(p: PlaylistPicker, code: KeyCode, signed_in: bool) -> (r: (
    Option<PlaylistPicker>,
    ViewMode,
    Vec<Effect>,
))
    ensures
        (playlist_view(r.0), r.1, fx_view(r.2@)) == playlist_name_step(p@, code, signed_in),
{
    let mut p: PlaylistPicker = p;
    match code {
        KeyCode::Char(c) => {
            p.new_name.push(c);
        },
        KeyCode::Backspace => {
            pop_char(&mut p.new_name);
        },
        KeyCode::Enter => {
            if char_count(p.new_name.as_str()) > 0 && signed_in {
                let mut fx: Vec<Effect> = only_act(Act::PickTrack(p.track));
                add_text(&mut fx, TextAct::CreateAndAdd, p.new_name.as_str());
                assert(fx_view(fx@) =~= playlist_name_step(p@, code, signed_in).2);
                return (None, ViewMode::Browse, fx);
            }
        },
        KeyCode::Esc => {
            return (Some(p), ViewMode::PlaylistPicker, no_effects());
        },
        _ => {},
    }
    (Some(p), ViewMode::PlaylistNameInput, no_effects())
}

/// Keys on the playlist picker; the first row makes a new playlist, under a name
/// that is proposed.
pub open spec fn playlist_step(p: PlaylistV, code: KeyCode, signed_in: bool, proposed: Seq<char>) -> (
    Option<PlaylistV>,
    ViewMode,
    Seq<EffectV>,
) {
    let stay = ViewMode::PlaylistPicker;
    let none = Seq::<EffectV>::empty();
    match code {
        KeyCode::Up => (
            Some(PlaylistV { selected: minus(p.selected as int, 1) as usize, ..p }),
            stay,
            none,
        ),
        KeyCode::Down => (
            Some(
                PlaylistV {
                    selected: if p.selected < p.playlists.len() {
                        (p.selected + 1) as usize
                    } else {
                        p.selected
                    },
                    ..p
                },
            ),
            stay,
            none,
        ),
        KeyCode::Enter => if p.selected == 0 {
            (Some(PlaylistV { new_name: proposed, ..p }), ViewMode::PlaylistNameInput, none)
        } else if p.selected <= p.playlists.len() && signed_in {
            let chosen = p.playlists[p.selected - 1];
            (
                None,
                ViewMode::Browse,
                seq![
                    EffectV::Do(Act::PickPlaylist { id: chosen.id, track: p.track }),
                    EffectV::With(TextAct::AddToPlaylist, chosen.name@),
                ],
            )
        } else {
            (Some(p), stay, none)
        },
        KeyCode::Esc => (None, ViewMode::Browse, none),
        _ => (Some(p), stay, none),
    }
}

pub fn playlist_key(p: PlaylistPicker, code: KeyCode, signed_in: bool, proposed: &str) -> (r: (
    Option<PlaylistPicker>,
    ViewMode,
    Vec<Effect>,
))
    ensures
        (playlist_view(r.0), r.1, fx_view(r.2@)) == playlist_step(p@, code, signed_in, proposed@),
{
    let mut p: PlaylistPicker = p;
    match code {
        KeyCode::Up => {
            p.selected = sat_sub(p.selected, 1);
        },
        KeyCode::Down => {
            if p.selected < p.playlists.len() {
                p.selected = p.selected + 1;
            }
        },
        KeyCode::Enter => {
            if p.selected == 0 {
                p.new_name = owned(proposed);
                return (Some(p), ViewMode::PlaylistNameInput, no_effects());
            }
            if p.selected <= p.playlists.len() && signed_in {
                let chosen: &Named = &p.playlists[p.selected - 1];
                let mut fx: Vec<Effect> = only_act(
                    Act::PickPlaylist { id: chosen.id, track: p.track },
                );
                add_text(&mut fx, TextAct::AddToPlaylist, chosen.name.as_str());
                assert(fx_view(fx@) =~= playlist_step(p@, code, signed_in, proposed@).2);
                return (None, ViewMode::Browse, fx);
            }
        },
        KeyCode::Esc => {
            return (None, ViewMode::Browse, no_effects());
        },
        _ => {},
    }
    (Some(p), ViewMode::PlaylistPicker, no_effects())
}

/// Picking a genre, or the favourite ones.
pub struct GenrePicker {
    pub genres: Vec<Genre>,
    pub selected: usize,
    pub scroll: usize,
}

#[verifier::ext_equal]
pub struct GenreV {
    pub genres: Seq<Genre>,
    pub selected: usize,
    pub scroll: usize,
}

impl View for GenrePicker {
    type V = GenreV;

    open spec fn view(&self) -> GenreV {
        GenreV { genres: self.genres@, selected: self.selected, scroll: self.scroll }
    }
}

pub open spec fn genre_view(p: Option<GenrePicker>) -> Option<GenreV> {
    match p {
        Some(x) => Some(x@),
        None => None,
    }
}

/// A list of names without one of them.
pub open spec fn without(names: Seq<Seq<char>>, name: Seq<char>) -> Seq<Seq<char>>
    decreases names.len(),
{
    if names.len() == 0 {
        Seq::empty()
    } else {
        let before = without(names.drop_last(), name);
        if names.last() == name {
            before
        } else {
            before.push(names.last())
        }
    }
}

/// The favourites with the mark of one genre changed.
pub open spec fn toggled(names: Seq<Seq<char>>, name: Seq<char>) -> Seq<Seq<char>> {
    if names.contains(name) {
        without(names, name)
    } else {
        names.push(name)
    }
}

proof fn lemma_without(names: Seq<Seq<char>>, name: Seq<char>)
    ensures
        !without(names, name).contains(name),
        !names.contains(name) ==> without(names, name) == names,
    decreases names.len(),
{
    if names.len() > 0 {
        let front = names.drop_last();
        lemma_without(front, name);
        if names.last() != name {
            let before = without(front, name);
            assert forall|i: int| 0 <= i < before.push(names.last()).len() implies before.push(
                names.last(),
            )[i] != name by {
                if i < before.len() {
                    assert(before[i] != name) by {
                        assert(before.contains(before[i]));
                    }
                }
            }
        }
        if !names.contains(name) {
            assert forall|i: int| 0 <= i < front.len() implies front[i] != name by {
                assert(names[i] == front[i]);
                assert(names.contains(names[i]));
            }
            assert(names.last() != name) by {
                assert(names.contains(names.last()));
            }
            assert(front.push(names.last()) =~= names);
        }
    }
}

/// Changing the mark of a genre twice comes back to the same favourites, where it
/// was not one of them.
pub proof fn toggling_twice_restores(names: Seq<Seq<char>>, name: Seq<char>)
    requires
        !names.contains(name),
    ensures
        toggled(toggled(names, name), name) == names,
        toggled(names, name).contains(name),
{
    lemma_without(names, name);
    let more = names.push(name);
    assert(more.last() == name);
    assert(more.contains(name)) by {
        assert(more[names.len() as int] == name);
    }
    assert(more.drop_last() =~= names);
}

fn toggle_name(names: &Vec<String>, name: &str) -> (r: (Vec<String>, bool))
    ensures
        strs(r.0@) == toggled(strs(names@), name@),
        r.1 == !strs(names@).contains(name@),
{
    let ghost all = strs(names@);
    let mut kept: Vec<String> = Vec::new();
    let mut found: bool = false;
    let mut i: usize = 0;
    assert(all.take(0) =~= Seq::<Seq<char>>::empty());
    while i < names.len()
        invariant
            i <= names.len(),
            all == strs(names@),
            strs(kept@) == without(all.take(i as int), name@),
            found == all.take(i as int).contains(name@),
        decreases names.len() - i,
    {
        let s: &str = names[i].as_str();
        assert(all.take(i + 1).drop_last() =~= all.take(i as int));
        assert(all.take(i + 1).last() == s@);
        if str_eq(s, name) {
            assert(all.take(i + 1)[i as int] == name@);
            found = true;
        } else {
            let ghost before = strs(kept@);
            kept.push(owned(s));
            assert(strs(kept@) =~= before.push(s@));
            let ghost t = all.take(i as int);
            let ghost u = all.take(i + 1);
            assert(u =~= t.push(s@));
            assert(u.contains(name@) == t.contains(name@)) by {
                if u.contains(name@) {
                    let k = choose|k: int| 0 <= k < u.len() && #[trigger] u[k] == name@;
                    assert(t[k] == name@);
                }
                if t.contains(name@) {
                    let k = choose|k: int| 0 <= k < t.len() && #[trigger] t[k] == name@;
                    assert(u[k] == name@);
                }
            }
        }
        i += 1;
    }
    assert(all.take(i as int) =~= all);
    if !found {
        proof {
            lemma_without(all, name@);
        }
        let ghost before = strs(kept@);
        kept.push(owned(name));
        assert(strs(kept@) =~= before.push(name@));
    }
    (kept, !found)
}

/// What the genre pickers change besides themselves.
#[verifier::ext_equal]
pub struct GenreChoiceV {
    pub default_genre: Seq<char>,
    pub favorites: Seq<Seq<char>>,
}

/// Keys on the genre pickers. Enter takes the genre as the default one and leaves,
/// or changes its favourite mark and stays.
pub open spec fn genre_step(p: GenreV, favorites: bool, c: GenreChoiceV, code: KeyCode) -> (
    Option<GenreV>,
    GenreChoiceV,
    ViewMode,
    Seq<EffectV>,
) {
    let stay = if favorites {
        ViewMode::FavoritesPicker
    } else {
        ViewMode::GenrePicker
    };
    let none = Seq::<EffectV>::empty();
    match code {
        KeyCode::Up => (
            Some(GenreV { selected: minus(p.selected as int, 1) as usize, ..p }),
            c,
            stay,
            none,
        ),
        KeyCode::Down => (
            Some(
                GenreV {
                    selected: if p.selected + 1 < p.genres.len() {
                        (p.selected + 1) as usize
                    } else {
                        p.selected
                    },
                    ..p
                },
            ),
            c,
            stay,
            none,
        ),
        KeyCode::Enter => if p.selected < p.genres.len() {
            let name = p.genres[p.selected as int].name@;
            if favorites {
                (
                    Some(p),
                    GenreChoiceV { favorites: toggled(c.favorites, name), ..c },
                    stay,
                    seq![
                        EffectV::Toast(
                            if c.favorites.contains(name) {
                                "Removed: "@ + name
                            } else {
                                "Added: "@ + name
                            },
                            500,
                        ),
                        EffectV::Do(Act::SaveConfig),
                    ],
                )
            } else {
                (
                    None,
                    GenreChoiceV { default_genre: name, ..c },
                    ViewMode::Settings,
                    seq![
                        EffectV::Do(Act::SaveConfig),
                        EffectV::Toast("Default genre: "@ + name, 1000),
                    ],
                )
            }
        } else {
            (Some(p), c, stay, none)
        },
        KeyCode::Esc => (None, c, ViewMode::Settings, none),
        _ => (Some(p), c, stay, none),
    }
}

pub fn genre_key(
    p: GenrePicker,
    favorites: bool,
    default_genre: &mut String,
    favorite_genres: &mut Vec<String>,
    code: KeyCode,
) -> (r: (Option<GenrePicker>, ViewMode, Vec<Effect>))
    ensures
        (
            genre_view(r.0),
            GenreChoiceV {
                default_genre: final(default_genre)@,
                favorites: strs(final(favorite_genres)@),
            },
            r.1,
            fx_view(r.2@),
        ) == genre_step(
            p@,
            favorites,
            GenreChoiceV {
                default_genre: old(default_genre)@,
                favorites: strs(old(favorite_genres)@),
            },
            code,
        ),
        !(code == KeyCode::Enter && !favorites) ==> *final(default_genre) == *old(default_genre),
        !(code == KeyCode::Enter && favorites) ==> *final(favorite_genres) == *old(favorite_genres),
{
    let mut p: GenrePicker = p;
    let stay: ViewMode = if favorites {
        ViewMode::FavoritesPicker
    } else {
        ViewMode::GenrePicker
    };
    match code {
        KeyCode::Up => {
            p.selected = sat_sub(p.selected, 1);
        },
        KeyCode::Down => {
            if p.selected < p.genres.len() && p.genres.len() - p.selected > 1 {
                p.selected = p.selected + 1;
            }
        },
        KeyCode::Enter => {
            if p.selected < p.genres.len() {
                let name: String = owned(p.genres[p.selected].name.as_str());
                if favorites {
                    let (next, added): (Vec<String>, bool) = toggle_name(
                        favorite_genres,
                        name.as_str(),
                    );
                    *favorite_genres = next;
                    let text: String = concat2(
                        if added {
                            "Added: "
                        } else {
                            "Removed: "
                        },
                        name.as_str(),
                    );
                    let mut fx: Vec<Effect> = only_toast(text.as_str(), 500);
                    add_act(&mut fx, Act::SaveConfig);
                    assert(fx_view(fx@) =~= seq![
                        EffectV::Toast(text@, 500),
                        EffectV::Do(Act::SaveConfig),
                    ]);
                    return (Some(p), stay, fx);
                }
                let text: String = concat2("Default genre: ", name.as_str());
                *default_genre = name;
                return (
                    None,
                    ViewMode::Settings,
                    act_and_toast(Act::SaveConfig, text.as_str(), 1000),
                );
            }
        },
        KeyCode::Esc => {
            return (None, ViewMode::Settings, no_effects());
        },
        _ => {},
    }
    (Some(p), stay, no_effects())
}

} // verus!
