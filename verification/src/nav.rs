//! Moving through the browse screens: the stack, the cursor, the local filter,
//! and what Enter does on each kind of screen.
use crate::catalog::{BrowseScreen, Genre, Items};
use crate::text::{
    char_count, concat2, concat3, contains, first_n, has_text, join_strs, joined, lowercase_of,
    owned, str_eq, strs, take_chars, to_lowercase,
};
use crate::track::Track;
use vstd::prelude::*;
use vstd::string::*;

verus! {

/// Where the user is on a screen. The column is -2 for the whole row, -1 for the
/// title, then artist, remixer, label, genre and date.
#[derive(Debug, Clone, Copy, PartialEq, Eq, Structural)]
pub struct Cursor {
    pub selected: usize,
    pub scroll: usize,
    pub column: i32,
    /// The row of the dashboard's mini-browser.
    pub dash: usize,
}

impl Cursor {
    pub open spec fn spec_start() -> Cursor {
        Cursor { selected: 0, scroll: 0, column: (-2) as i32, dash: 0 }
    }

    /// The top of a screen.
    #[verifier::when_used_as_spec(spec_start)]
    pub fn start() -> (c: Cursor)
        ensures
            c == Cursor::spec_start(),
    {
        Cursor { selected: 0, scroll: 0, column: -2, dash: 0 }
    }
}

/// The browse screens, the one shown on top, with the cursor each was left at.
pub struct Nav {
    pub stack: Vec<BrowseScreen>,
    pub back: Vec<Cursor>,
    pub cursor: Cursor,
    /// The filter is being typed.
    pub filtering: bool,
    pub filter: String,
    pub page: u32,
}

#[verifier::ext_equal]
pub struct NavV {
    pub stack: Seq<BrowseScreen>,
    pub back: Seq<Cursor>,
    pub cursor: Cursor,
    pub filtering: bool,
    pub filter: Seq<char>,
    pub page: u32,
}

impl View for Nav {
    type V = NavV;

    open spec fn view(&self) -> NavV {
        NavV {
            stack: self.stack@,
            back: self.back@,
            cursor: self.cursor,
            filtering: self.filtering,
            filter: self.filter@,
            page: self.page,
        }
    }
}

impl NavV {
    /// There is a screen; every screen but the first has the cursor to go back to;
    /// every item has its label.
    pub open spec fn wf(self) -> bool {
        &&& self.stack.len() > 0
        &&& self.back.len() == self.stack.len() - 1
        &&& forall|i: int| 0 <= i < self.stack.len() ==> (#[trigger] self.stack[i]).wf()
    }

    pub open spec fn screen(self) -> BrowseScreen {
        self.stack.last()
    }

    /// A screen on top; the cursor of the one that is left is kept.
    pub open spec fn pushed(self, screen: BrowseScreen) -> NavV {
        NavV {
            stack: self.stack.push(screen),
            back: self.back.push(self.cursor),
            cursor: Cursor { dash: self.cursor.dash, ..Cursor::spec_start() },
            filtering: false,
            filter: Seq::empty(),
            ..self
        }
    }

    /// Back to the screen below, where it was left; the first screen stays.
    pub open spec fn popped(self) -> NavV {
        if self.stack.len() <= 1 {
            self
        } else {
            NavV {
                stack: self.stack.drop_last(),
                back: self.back.drop_last(),
                cursor: self.back.last(),
                ..self
            }
        }
    }

    /// Straight to a detail screen, with the list it belongs to and the first
    /// screen below it.
    pub open spec fn at_detail(
        self,
        root: BrowseScreen,
        list: BrowseScreen,
        detail: BrowseScreen,
    ) -> NavV {
        NavV {
            stack: seq![root, list, detail],
            back: seq![Cursor::spec_start(), Cursor::spec_start()],
            cursor: Cursor { dash: self.cursor.dash, ..Cursor::spec_start() },
            ..self
        }
    }

    /// The first screen alone, replaced.
    pub open spec fn at_root(self, root: BrowseScreen) -> NavV {
        NavV {
            stack: seq![root],
            back: Seq::empty(),
            cursor: Cursor { selected: 0, ..self.cursor },
            ..self
        }
    }

    /// Down to the first screen.
    pub open spec fn to_root(self) -> NavV {
        NavV {
            stack: self.stack.take(1),
            back: Seq::empty(),
            cursor: Cursor { selected: 0, ..self.cursor },
            ..self
        }
    }
}

/// Going back undoes a step into a screen: the screens, the cursor and the place
/// in the mini-browser are as before.
pub proof fn pop_undoes_push(n: NavV, screen: BrowseScreen)
    requires
        n.wf(),
    ensures
        n.pushed(screen).popped().stack == n.stack,
        n.pushed(screen).popped().back == n.back,
        n.pushed(screen).popped().cursor == n.cursor,
{
    assert(n.pushed(screen).popped().stack =~= n.stack);
    assert(n.pushed(screen).popped().back =~= n.back);
}

/// Every move keeps a cursor for each screen below the one shown.
pub proof fn moves_keep_wf(n: NavV, root: BrowseScreen, list: BrowseScreen, detail: BrowseScreen)
    requires
        n.wf(),
        root.wf(),
        list.wf(),
        detail.wf(),
    ensures
        n.pushed(detail).wf(),
        n.popped().wf(),
        n.at_detail(root, list, detail).wf(),
        n.at_root(root).wf(),
        n.to_root().wf(),
{
    assert forall|i: int| 0 <= i < n.pushed(detail).stack.len() implies (
    #[trigger] n.pushed(detail).stack[i]).wf() by {
        if i < n.stack.len() {
            assert(n.stack[i].wf());
        }
    }
    assert forall|i: int| 0 <= i < n.popped().stack.len() implies (
    #[trigger] n.popped().stack[i]).wf() by {
        assert(n.stack[i].wf());
    }
    assert(n.stack[0].wf());
}

/// The titles of the screens, from the first on.
pub open spec fn titles(stack: Seq<BrowseScreen>) -> Seq<Seq<char>> {
    Seq::new(stack.len(), |i: int| stack[i].title@)
}

/// The items that the local filter lets through: those whose label holds the
/// filter, case aside.
pub open spec fn passes(label: Seq<char>, filter: Seq<char>) -> bool {
    filter.len() == 0 || contains(lowercase_of(label), lowercase_of(filter))
}

pub open spec fn passing(labels: Seq<String>, filter: Seq<char>, n: nat) -> Seq<usize>
    decreases n,
{
    if n == 0 {
        Seq::empty()
    } else {
        let before = passing(labels, filter, (n - 1) as nat);
        if passes(labels[n - 1]@, filter) {
            before.push((n - 1) as usize)
        } else {
            before
        }
    }
}

/// The positions of the items shown.
pub open spec fn shown_items(n: NavV) -> Seq<usize> {
    passing(n.screen().labels@, n.filter, n.screen().labels@.len())
}

pub proof fn lemma_passing(labels: Seq<String>, filter: Seq<char>, n: nat, i: int)
    requires
        n <= labels.len(),
        n <= usize::MAX,
        0 <= i < passing(labels, filter, n).len(),
    ensures
        passing(labels, filter, n)[i] < n,
        passes(labels[passing(labels, filter, n)[i] as int]@, filter),
    decreases n,
{
    let before = passing(labels, filter, (n - 1) as nat);
    if i < before.len() {
        lemma_passing(labels, filter, (n - 1) as nat, i);
    }
}

/// Without a filter every item is shown, in order.
pub proof fn no_filter_shows_all(labels: Seq<String>, n: nat)
    requires
        n <= labels.len(),
        n <= usize::MAX,
    ensures
        passing(labels, Seq::empty(), n).len() == n,
        forall|i: int| 0 <= i < n ==> passing(labels, Seq::empty(), n)[i] == i,
    decreases n,
{
    if n > 0 {
        no_filter_shows_all(labels, (n - 1) as nat);
    }
}

impl Nav {
    pub fn new(root: BrowseScreen) -> (n: Nav)
        requires
            root.wf(),
        ensures
            n@.wf(),
            n@ == (NavV {
                stack: seq![root],
                back: Seq::empty(),
                cursor: Cursor::spec_start(),
                filtering: false,
                filter: Seq::empty(),
                page: 1,
            }),
    {
        let mut stack: Vec<BrowseScreen> = Vec::new();
        stack.push(root);
        let n: Nav = Nav {
            stack,
            back: Vec::new(),
            cursor: Cursor::start(),
            filtering: false,
            filter: String::new(),
            page: 1,
        };
        assert(n@.stack =~= seq![root]);
        assert(n@.filter =~= Seq::<char>::empty());
        n
    }

    pub fn current_screen(&self) -> (s: &BrowseScreen)
        requires
            self@.wf(),
        ensures
            *s == self@.screen(),
            s.wf(),
    {
        assert(self@.stack[self@.stack.len() - 1].wf());
        &self.stack[self.stack.len() - 1]
    }

    pub fn breadcrumb(&self) -> (s: String)
        ensures
            s@ == joined(titles(self@.stack), " > "@),
    {
        let mut parts: Vec<String> = Vec::new();
        let mut i: usize = 0;
        while i < self.stack.len()
            invariant
                i <= self.stack.len(),
                strs(parts@) == titles(self.stack@).take(i as int),
            decreases self.stack.len() - i,
        {
            let ghost before = strs(parts@);
            parts.push(owned(self.stack[i].title.as_str()));
            assert(strs(parts@) =~= before.push(self.stack@[i as int].title@));
            i += 1;
            assert(strs(parts@) =~= titles(self.stack@).take(i as int));
        }
        assert(strs(parts@) =~= titles(self.stack@));
        join_strs(&parts, " > ")
    }

    pub fn push_screen(&mut self, screen: BrowseScreen)
        requires
            old(self)@.wf(),
            screen.wf(),
        ensures
            final(self)@.wf(),
            final(self)@ == old(self)@.pushed(screen),
    {
        proof {
            moves_keep_wf(self@, screen, screen, screen);
        }
        let dash: usize = self.cursor.dash;
        self.back.push(self.cursor);
        self.stack.push(screen);
        self.cursor = Cursor { selected: 0, scroll: 0, column: -2, dash };
        self.filter = String::new();
        self.filtering = false;
        assert(self@ =~= old(self)@.pushed(screen));
    }

    pub fn pop_screen(&mut self) -> (b: bool)
        requires
            old(self)@.wf(),
        ensures
            final(self)@.wf(),
            b == (old(self)@.stack.len() > 1),
            final(self)@ == old(self)@.popped(),
    {
        if self.stack.len() <= 1 {
            return false;
        }
        let _ = self.stack.pop();
        if let Some(c) = self.back.pop() {
            self.cursor = c;
        }
        assert(self@ =~= old(self)@.popped());
        assert forall|i: int| 0 <= i < self@.stack.len() implies (#[trigger] self@.stack[i]).wf() by {
            assert(old(self)@.stack[i].wf());
        }
        true
    }

    pub fn navigate_to_detail(&mut self, root: BrowseScreen, list: BrowseScreen, detail: BrowseScreen)
        requires
            root.wf(),
            list.wf(),
            detail.wf(),
        ensures
            final(self)@.wf(),
            final(self)@ == old(self)@.at_detail(root, list, detail),
    {
        let dash: usize = self.cursor.dash;
        let mut stack: Vec<BrowseScreen> = Vec::new();
        stack.push(root);
        stack.push(list);
        stack.push(detail);
        let mut back: Vec<Cursor> = Vec::new();
        back.push(Cursor::start());
        back.push(Cursor::start());
        self.stack = stack;
        self.back = back;
        self.cursor = Cursor { selected: 0, scroll: 0, column: -2, dash };
        assert(self@ =~= old(self)@.at_detail(root, list, detail));
    }

    pub fn replace_root(&mut self, root: BrowseScreen)
        requires
            root.wf(),
        ensures
            final(self)@.wf(),
            final(self)@ == old(self)@.at_root(root),
    {
        let mut stack: Vec<BrowseScreen> = Vec::new();
        stack.push(root);
        self.stack = stack;
        self.back = Vec::new();
        self.cursor.selected = 0;
        assert(self@ =~= old(self)@.at_root(root));
    }

    pub fn back_to_root(&mut self)
        requires
            old(self)@.wf(),
        ensures
            final(self)@.wf(),
            final(self)@ == old(self)@.to_root(),
    {
        proof {
            let s = self.stack@[0];
            assert(s.wf());
            moves_keep_wf(self@, s, s, s);
        }
        self.stack.truncate(1);
        self.back = Vec::new();
        self.cursor.selected = 0;
        assert(self@ =~= old(self)@.to_root());
    }

    /// The positions of the items that the filter lets through.
    pub fn filtered_indices(&self) -> (v: Vec<usize>)
        requires
            self@.wf(),
        ensures
            v@ == shown_items(self@),
    {
        let screen: &BrowseScreen = self.current_screen();
        let all: bool = char_count(self.filter.as_str()) == 0;
        let wanted: String = to_lowercase(self.filter.as_str());
        let mut v: Vec<usize> = Vec::new();
        let mut i: usize = 0;
        while i < screen.labels.len()
            invariant
                i <= screen.labels.len(),
                all == (self@.filter.len() == 0),
                wanted@ == lowercase_of(self@.filter),
                v@ == passing(screen.labels@, self@.filter, i as nat),
            decreases screen.labels.len() - i,
        {
            let pass: bool = all || has_text(
                to_lowercase(screen.labels[i].as_str()).as_str(),
                wanted.as_str(),
            );
            if pass {
                v.push(i);
            }
            i += 1;
        }
        v
    }

    pub fn filtered_item_count(&self) -> (n: usize)
        requires
            self@.wf(),
        ensures
            n == shown_items(self@).len(),
    {
        self.filtered_indices().len()
    }
}

/// The item that a segment of a browse path names: the first whose label is the
/// segment, case aside, else the first whose label holds it.
pub open spec fn is_named(labels: Seq<String>, segment: Seq<char>, i: int) -> bool {
    lowercase_of(labels[i]@) == lowercase_of(segment)
}

pub open spec fn holds(labels: Seq<String>, segment: Seq<char>, i: int) -> bool {
    contains(lowercase_of(labels[i]@), lowercase_of(segment))
}

pub open spec fn first_named(labels: Seq<String>, segment: Seq<char>, from: int) -> Option<int>
    decreases labels.len() - from,
{
    if from >= labels.len() {
        None
    } else if is_named(labels, segment, from) {
        Some(from)
    } else {
        first_named(labels, segment, from + 1)
    }
}

pub open spec fn first_holding(labels: Seq<String>, segment: Seq<char>, from: int) -> Option<int>
    decreases labels.len() - from,
{
    if from >= labels.len() {
        None
    } else if holds(labels, segment, from) {
        Some(from)
    } else {
        first_holding(labels, segment, from + 1)
    }
}

pub open spec fn segment_match(labels: Seq<String>, segment: Seq<char>) -> Option<int> {
    match first_named(labels, segment, 0) {
        Some(i) => Some(i),
        None => first_holding(labels, segment, 0),
    }
}

proof fn lemma_first_named(labels: Seq<String>, segment: Seq<char>, from: int, i: int)
    requires
        0 <= from <= i < labels.len(),
        is_named(labels, segment, i),
    ensures
        first_named(labels, segment, from) matches Some(k) && from <= k <= i && is_named(
            labels,
            segment,
            k,
        ),
    decreases labels.len() - from,
{
    if !is_named(labels, segment, from) {
        lemma_first_named(labels, segment, from + 1, i);
    }
}

/// An item with exactly the wanted label is taken before any that merely holds
/// it.
pub proof fn exact_label_wins(labels: Seq<String>, segment: Seq<char>, i: int)
    requires
        0 <= i < labels.len(),
        is_named(labels, segment, i),
    ensures
        segment_match(labels, segment) matches Some(k) && is_named(labels, segment, k),
{
    lemma_first_named(labels, segment, 0, i);
}

/// Finds the item that a segment of a browse path names.
pub fn find_segment(labels: &Vec<String>, segment: &str) -> (r: Option<usize>)
    ensures
        match r {
            Some(i) => segment_match(labels@, segment@) == Some(i as int) && i < labels@.len(),
            None => segment_match(labels@, segment@) is None,
        },
{
    let wanted: String = to_lowercase(segment);
    let mut i: usize = 0;
    while i < labels.len()
        invariant
            i <= labels.len(),
            wanted@ == lowercase_of(segment@),
            first_named(labels@, segment@, 0) == first_named(labels@, segment@, i as int),
        decreases labels.len() - i,
    {
        if str_eq(to_lowercase(labels[i].as_str()).as_str(), wanted.as_str()) {
            return Some(i);
        }
        i += 1;
    }
    let mut k: usize = 0;
    while k < labels.len()
        invariant
            k <= labels.len(),
            wanted@ == lowercase_of(segment@),
            first_named(labels@, segment@, 0) is None,
            first_holding(labels@, segment@, 0) == first_holding(labels@, segment@, k as int),
        decreases labels.len() - k,
    {
        if has_text(to_lowercase(labels[k].as_str()).as_str(), wanted.as_str()) {
            return Some(k);
        }
        k += 1;
    }
    None
}

/// What Enter on a browse screen asks for.
pub enum BrowseStep {
    Nothing,
    /// Run the action of a menu entry.
    Menu(usize),
    /// Queue a track of the list.
    Queue(usize),
    /// Load the tracks of a release, a chart, or a span of dates within a genre.
    Release(i64),
    Chart(i64),
    Dates(String, Option<i64>),
    /// Go to an artist, a label or a genre from a track.
    ToArtist(i64, String),
    ToLabel(i64, String),
    ToGenre(i64, String),
    /// List the artists, or the remixers, of a track.
    ListArtists(usize),
    ListRemixers(usize),
    /// Step into a genre, an artist or a label of a list.
    Genre(i64, String),
    Artist(i64, String),
    Label(i64, String),
}

#[verifier::ext_equal]
pub enum BrowseStepV {
    Nothing,
    Menu(usize),
    Queue(usize),
    Release(i64),
    Chart(i64),
    Dates(Seq<char>, Option<i64>),
    ToArtist(i64, Seq<char>),
    ToLabel(i64, Seq<char>),
    ToGenre(i64, Seq<char>),
    ListArtists(usize),
    ListRemixers(usize),
    Genre(i64, Seq<char>),
    Artist(i64, Seq<char>),
    Label(i64, Seq<char>),
}

impl View for BrowseStep {
    type V = BrowseStepV;

    open spec fn view(&self) -> BrowseStepV {
        match *self {
            BrowseStep::Nothing => BrowseStepV::Nothing,
            BrowseStep::Menu(i) => BrowseStepV::Menu(i),
            BrowseStep::Queue(i) => BrowseStepV::Queue(i),
            BrowseStep::Release(id) => BrowseStepV::Release(id),
            BrowseStep::Chart(id) => BrowseStepV::Chart(id),
            BrowseStep::Dates(r, g) => BrowseStepV::Dates(r@, g),
            BrowseStep::ToArtist(id, n) => BrowseStepV::ToArtist(id, n@),
            BrowseStep::ToLabel(id, n) => BrowseStepV::ToLabel(id, n@),
            BrowseStep::ToGenre(id, n) => BrowseStepV::ToGenre(id, n@),
            BrowseStep::ListArtists(i) => BrowseStepV::ListArtists(i),
            BrowseStep::ListRemixers(i) => BrowseStepV::ListRemixers(i),
            BrowseStep::Genre(id, n) => BrowseStepV::Genre(id, n@),
            BrowseStep::Artist(id, n) => BrowseStepV::Artist(id, n@),
            BrowseStep::Label(id, n) => BrowseStepV::Label(id, n@),
        }
    }
}

/// The days of the year that a date falls in.
pub open spec fn year_range(date: Seq<char>) -> Seq<char> {
    let y = first_n(date, 4);
    y + "-01-01:"@ + y + "-12-31"@
}

/// What Enter does on a track, by the column the cursor is on.
pub open spec fn track_step(t: Track, i: usize, column: int) -> BrowseStepV {
    if column == -2 {
        BrowseStepV::Queue(i)
    } else if column == -1 {
        match t.release_id {
            Some(id) => BrowseStepV::Release(id),
            None => BrowseStepV::Nothing,
        }
    } else if column == 0 {
        if t.artists@.len() == 1 {
            BrowseStepV::ToArtist(t.artists@[0].id, t.artists@[0].name@)
        } else if t.artists@.len() > 1 {
            BrowseStepV::ListArtists(i)
        } else {
            BrowseStepV::Nothing
        }
    } else if column == 1 {
        if t.remixer_links@.len() == 1 {
            BrowseStepV::ToArtist(t.remixer_links@[0].id, t.remixer_links@[0].name@)
        } else if t.remixer_links@.len() > 1 {
            BrowseStepV::ListRemixers(i)
        } else {
            BrowseStepV::Nothing
        }
    } else if column == 2 {
        match (t.label_id, t.label_name) {
            (Some(id), Some(n)) => BrowseStepV::ToLabel(id, n@),
            _ => BrowseStepV::Nothing,
        }
    } else if column == 3 {
        match (t.genre_id, t.genre_name) {
            (Some(id), Some(n)) => BrowseStepV::ToGenre(id, n@),
            _ => BrowseStepV::Nothing,
        }
    } else if column == 4 {
        match t.release_date {
            Some(d) => if d@.len() >= 4 {
                BrowseStepV::Dates(year_range(d@), t.genre_id)
            } else {
                BrowseStepV::Nothing
            },
            None => BrowseStepV::Nothing,
        }
    } else {
        BrowseStepV::Nothing
    }
}

/// What Enter does on the item at `i` of a screen.
pub open spec fn item_step(screen: BrowseScreen, i: usize, column: int) -> BrowseStepV {
    if i >= screen.items.spec_len() {
        BrowseStepV::Nothing
    } else {
        match screen.items {
            Items::Menu(_) => BrowseStepV::Menu(i),
            Items::Tracks(v) => track_step(v@[i as int], i, column),
            Items::Genres(v) => BrowseStepV::Genre(v@[i as int].id, v@[i as int].name@),
            Items::Artists(v) => BrowseStepV::Artist(v@[i as int].id, v@[i as int].name@),
            Items::Labels(v) => BrowseStepV::Label(v@[i as int].id, v@[i as int].name@),
            Items::Charts(v) => BrowseStepV::Chart(v@[i as int].id),
            Items::Releases(v) => BrowseStepV::Release(v@[i as int].id),
        }
    }
}

fn year_range_str(date: &str) -> (s: String)
    ensures
        s@ == year_range(date@),
{
    let y: String = take_chars(date, 4);
    let a: String = concat3(y.as_str(), "-01-01:", y.as_str());
    concat2(a.as_str(), "-12-31")
}

fn step_on_track(t: &Track, i: usize, column: i32) -> (s: BrowseStep)
    ensures
        s@ == track_step(*t, i, column as int),
{
    if column == -2 {
        return BrowseStep::Queue(i);
    }
    if column == -1 {
        return match t.release_id {
            Some(id) => BrowseStep::Release(id),
            None => BrowseStep::Nothing,
        };
    }
    if column == 0 {
        if t.artists.len() == 1 {
            return BrowseStep::ToArtist(t.artists[0].id, owned(t.artists[0].name.as_str()));
        }
        return if t.artists.len() > 1 {
            BrowseStep::ListArtists(i)
        } else {
            BrowseStep::Nothing
        };
    }
    if column == 1 {
        if t.remixer_links.len() == 1 {
            return BrowseStep::ToArtist(
                t.remixer_links[0].id,
                owned(t.remixer_links[0].name.as_str()),
            );
        }
        return if t.remixer_links.len() > 1 {
            BrowseStep::ListRemixers(i)
        } else {
            BrowseStep::Nothing
        };
    }
    if column == 2 {
        return match (t.label_id, &t.label_name) {
            (Some(id), Some(n)) => BrowseStep::ToLabel(id, owned(n.as_str())),
            _ => BrowseStep::Nothing,
        };
    }
    if column == 3 {
        return match (t.genre_id, &t.genre_name) {
            (Some(id), Some(n)) => BrowseStep::ToGenre(id, owned(n.as_str())),
            _ => BrowseStep::Nothing,
        };
    }
    if column == 4 {
        return match &t.release_date {
            Some(d) => if char_count(d.as_str()) >= 4 {
                BrowseStep::Dates(year_range_str(d.as_str()), t.genre_id)
            } else {
                BrowseStep::Nothing
            },
            None => BrowseStep::Nothing,
        };
    }
    BrowseStep::Nothing
}

/// What Enter does on the item at `i` of a screen.
pub fn step_on_item(screen: &BrowseScreen, i: usize, column: i32) -> (s: BrowseStep)
    ensures
        s@ == item_step(*screen, i, column as int),
{
    match &screen.items {
        Items::Menu(v) => if i < v.len() {
            BrowseStep::Menu(i)
        } else {
            BrowseStep::Nothing
        },
        Items::Tracks(v) => if i < v.len() {
            step_on_track(&v[i], i, column)
        } else {
            BrowseStep::Nothing
        },
        Items::Genres(v) => if i < v.len() {
            BrowseStep::Genre(v[i].id, owned(v[i].name.as_str()))
        } else {
            BrowseStep::Nothing
        },
        Items::Artists(v) => if i < v.len() {
            BrowseStep::Artist(v[i].id, owned(v[i].name.as_str()))
        } else {
            BrowseStep::Nothing
        },
        Items::Labels(v) => if i < v.len() {
            BrowseStep::Label(v[i].id, owned(v[i].name.as_str()))
        } else {
            BrowseStep::Nothing
        },
        Items::Charts(v) => if i < v.len() {
            BrowseStep::Chart(v[i].id)
        } else {
            BrowseStep::Nothing
        },
        Items::Releases(v) => if i < v.len() {
            BrowseStep::Release(v[i].id)
        } else {
            BrowseStep::Nothing
        },
    }
}

/// The item that Enter acts on: a filter is seen through.
pub open spec fn entered_at(n: NavV) -> usize {
    let shown = shown_items(n);
    if n.filter.len() > 0 && n.cursor.selected < shown.len() {
        shown[n.cursor.selected as int]
    } else {
        n.cursor.selected
    }
}

/// After Enter: the cursor is on the item itself, the filter is gone, and after a
/// track the cursor is on its whole row again.
pub open spec fn entered(n: NavV) -> NavV {
    let at = entered_at(n);
    let on_track = n.screen().is_tracks() && at < n.screen().items.spec_len();
    NavV {
        cursor: Cursor {
            selected: at,
            column: if on_track {
                (-2) as i32
            } else {
                n.cursor.column
            },
            ..n.cursor
        },
        filter: Seq::empty(),
        filtering: if n.filter.len() > 0 {
            false
        } else {
            n.filtering
        },
        ..n
    }
}

impl Nav {
    /// Enter on the current screen.
    pub fn handle_browse_enter(&mut self) -> (s: BrowseStep)
        requires
            old(self)@.wf(),
        ensures
            final(self)@.wf(),
            final(self)@ == entered(old(self)@),
            s@ == item_step(
                old(self)@.screen(),
                entered_at(old(self)@),
                old(self)@.cursor.column as int,
            ),
    {
        if char_count(self.filter.as_str()) > 0 {
            let shown: Vec<usize> = self.filtered_indices();
            let at: usize = self.cursor.selected;
            if at < shown.len() {
                self.cursor.selected = shown[at];
            }
            self.filter = String::new();
            self.filtering = false;
        }
        assert(self.filter@ =~= Seq::<char>::empty());
        let i: usize = self.cursor.selected;
        let column: i32 = self.cursor.column;
        let screen: &BrowseScreen = self.current_screen();
        let s: BrowseStep = step_on_item(screen, i, column);
        let on_track: bool = match screen.tracks() {
            Some(v) => i < v.len(),
            None => false,
        };
        if on_track {
            self.cursor.column = -2;
        }
        assert(self@ =~= entered(old(self)@));
        s
    }
}

} // verus!
