//! Following a step of the browser: the lists and details it leads to, what is
//! said of a queued track, and which tracks are loaded.
use crate::catalog::{BrowseScreen, Genre, Items, MenuAction};
use crate::effects::{fx_view, only_toast, Effect, EffectV};
use crate::nav::{BrowseStep, BrowseStepV, Cursor, Nav, NavV};
use crate::text::{concat2, owned};
use crate::track::{track_name, Named, Track};
use vstd::prelude::*;
use vstd::string::*;

verus! {

/// The same people, in the same order.
pub open spec fn same_people(a: Seq<Named>, b: Seq<Named>) -> bool {
    &&& a.len() == b.len()
    &&& forall|i: int|
        0 <= i < a.len() ==> (#[trigger] a[i]).id == b[i].id && a[i].name@ == b[i].name@
}

/// A list of people under a title, each labelled with the name.
pub open spec fn people_screen(s: BrowseScreen, title: Seq<char>, people: Seq<Named>) -> bool {
    &&& s.title@ == title
    &&& s.items matches Items::Artists(v) && same_people(v@, people)
    &&& s.labels@.len() == people.len()
    &&& forall|i: int| 0 <= i < people.len() ==> (#[trigger] s.labels@[i])@ == people[i].name@
}

/// An empty list of genres, artists or labels, as it stands below a detail that
/// was reached from a track.
pub open spec fn bare_list(s: BrowseScreen, title: Seq<char>) -> bool {
    &&& s.title@ == title
    &&& s.labels@.len() == 0
    &&& s.items.spec_len() == 0
}

/// As when the cursor was on this column.
pub open spec fn on_column(n: NavV, column: i32) -> NavV {
    NavV { cursor: Cursor { column, ..n.cursor }, ..n }
}

fn people_list(title: &str, people: &Vec<Named>) -> (s: BrowseScreen)
    ensures
        people_screen(s, title@, people@),
        s.wf(),
{
    let mut labels: Vec<String> = Vec::new();
    let mut items: Vec<Named> = Vec::new();
    let mut i: usize = 0;
    while i < people.len()
        invariant
            i <= people.len(),
            labels@.len() == i,
            items@.len() == i,
            forall|j: int| 0 <= j < i ==> (#[trigger] labels@[j])@ == people@[j].name@,
            forall|j: int|
                0 <= j < i ==> (#[trigger] items@[j]).id == people@[j].id && items@[j].name@
                    == people@[j].name@,
        decreases people.len() - i,
    {
        labels.push(owned(people[i].name.as_str()));
        items.push(Named { id: people[i].id, name: owned(people[i].name.as_str()) });
        i += 1;
    }
    BrowseScreen { title: owned(title), labels, items: Items::Artists(items) }
}

impl Nav {
    /// Lists the artists of a track of the list shown; going back leads to their
    /// column.
    pub fn list_artists(&mut self, i: usize)
        requires
            old(self)@.wf(),
        ensures
            final(self)@.wf(),
            match old(self)@.screen().spec_track_at(i as int) {
                Some(t) => final(self)@ == on_column(old(self)@, 0).pushed(final(self)@.screen())
                    && people_screen(final(self)@.screen(), "Artists"@, t.artists@),
                None => final(self)@ == old(self)@,
            },
    {
        if let Some(t) = self.current_screen().track_at(i) {
            let s: BrowseScreen = people_list("Artists", &t.artists);
            self.cursor.column = 0;
            self.push_screen(s);
        }
    }

    /// Lists the remixers of a track of the list shown; going back leads to their
    /// column.
    pub fn list_remixers(&mut self, i: usize)
        requires
            old(self)@.wf(),
        ensures
            final(self)@.wf(),
            match old(self)@.screen().spec_track_at(i as int) {
                Some(t) => final(self)@ == on_column(old(self)@, 1).pushed(final(self)@.screen())
                    && people_screen(final(self)@.screen(), "Remixers"@, t.remixer_links@),
                None => final(self)@ == old(self)@,
            },
    {
        if let Some(t) = self.current_screen().track_at(i) {
            let s: BrowseScreen = people_list("Remixers", &t.remixer_links);
            self.cursor.column = 1;
            self.push_screen(s);
        }
    }

    /// Straight to a genre; an empty list of genres stands below it.
    pub fn navigate_to_genre(&mut self, root: BrowseScreen, detail: BrowseScreen)
        requires
            root.wf(),
            detail.wf(),
        ensures
            final(self)@.wf(),
            final(self)@ == old(self)@.at_detail(root, final(self)@.stack[1], detail),
            bare_list(final(self)@.stack[1], "Genres"@),
            final(self)@.stack[1].items is Genres,
    {
        let genres: Vec<Genre> = Vec::new();
        let list: BrowseScreen = BrowseScreen {
            title: owned("Genres"),
            labels: Vec::new(),
            items: Items::Genres(genres),
        };
        self.navigate_to_detail(root, list, detail);
    }

    /// Straight to an artist; an empty list of artists stands below it.
    pub fn navigate_to_artist(&mut self, root: BrowseScreen, detail: BrowseScreen)
        requires
            root.wf(),
            detail.wf(),
        ensures
            final(self)@.wf(),
            final(self)@ == old(self)@.at_detail(root, final(self)@.stack[1], detail),
            bare_list(final(self)@.stack[1], "Artists"@),
            final(self)@.stack[1].items is Artists,
    {
        let artists: Vec<Named> = Vec::new();
        let list: BrowseScreen = BrowseScreen {
            title: owned("Artists"),
            labels: Vec::new(),
            items: Items::Artists(artists),
        };
        self.navigate_to_detail(root, list, detail);
    }

    /// Straight to a label; an empty list of labels stands below it.
    pub fn navigate_to_label(&mut self, root: BrowseScreen, detail: BrowseScreen)
        requires
            root.wf(),
            detail.wf(),
        ensures
            final(self)@.wf(),
            final(self)@ == old(self)@.at_detail(root, final(self)@.stack[1], detail),
            bare_list(final(self)@.stack[1], "Labels"@),
            final(self)@.stack[1].items is Labels,
    {
        let labels: Vec<Named> = Vec::new();
        let list: BrowseScreen = BrowseScreen {
            title: owned("Labels"),
            labels: Vec::new(),
            items: Items::Labels(labels),
        };
        self.navigate_to_detail(root, list, detail);
    }
}

/// What is said when a track of a list is queued, or was in the queue already.
pub open spec fn queued_text(t: Track, added: bool) -> Seq<char> {
    if added {
        "Queued: "@ + track_name(t)
    } else {
        "Already queued: "@ + track_name(t)
    }
}

pub fn queued_said(t: &Track, added: bool) -> (fx: Vec<Effect>)
    ensures
        fx_view(fx@) == seq![EffectV::Toast(queued_text(*t, added), 1500)],
{
    let text: String = if added {
        concat2("Queued: ", t.name().as_str())
    } else {
        concat2("Already queued: ", t.name().as_str())
    };
    only_toast(text.as_str(), 1500)
}

/// The tracks that a step asks for, as the action of a menu entry.
pub fn step_action(step: &BrowseStep) -> (a: Option<MenuAction>)
    ensures
        match step@ {
            BrowseStepV::Release(id) => a == Some(MenuAction::LoadReleaseTracks(id)),
            BrowseStepV::Chart(id) => a == Some(MenuAction::LoadChartTracks(id)),
            BrowseStepV::Dates(range, genre) => a matches Some(MenuAction::LoadDecadeTracks(r, g))
                && r@ == range && g == genre,
            _ => a is None,
        },
{
    match step {
        BrowseStep::Release(id) => Some(MenuAction::LoadReleaseTracks(*id)),
        BrowseStep::Chart(id) => Some(MenuAction::LoadChartTracks(*id)),
        BrowseStep::Dates(range, genre) => Some(
            MenuAction::LoadDecadeTracks(owned(range.as_str()), *genre),
        ),
        _ => None,
    }
}

} // verus!
