//! Where the parts of the screen lie.
use crate::app::App;
use crate::clicks::coord;
use crate::deck::NowPlaying;
use crate::hints::hints;
use crate::inputs::ViewMode;
use crate::panels::Area;
use crate::text::{char_count, max_of, min_of, minus};
use ratatui::layout::{Constraint, Layout, Rect};
use vstd::prelude::*;
use vstd::string::*;
use vstd::utf8::encode_utf8;

verus! {

/// An area that ends within the screen coordinates.
pub open spec fn on_screen(a: Area) -> bool {
    a.x + a.width <= u16::MAX && a.y + a.height <= u16::MAX
}

/// An area that lies in another.
pub open spec fn within(a: Area, b: Area) -> bool {
    &&& b.x <= a.x && a.x + a.width <= b.x + b.width
    &&& b.y <= a.y && a.y + a.height <= b.y + b.height
}

/// The part of the screen that is drawn on. As a guest of another terminal it
/// leaves a column free on the left, two on the right, and the last row.
pub open spec fn drawn_area(area: Area, native: bool) -> Area {
    if native {
        Area {
            x: coord(area.x + 1),
            y: area.y,
            width: minus(area.width as int, 3) as u16,
            height: minus(area.height as int, 1) as u16,
        }
    } else {
        area
    }
}

pub fn frame_size(area: Area, native: bool) -> (r: Area)
    requires
        native ==> area.x < u16::MAX,
    ensures
        r == drawn_area(area, native),
        on_screen(area) ==> on_screen(r),
{
    if native {
        Area {
            x: area.x + 1,
            y: area.y,
            width: if area.width >= 3 {
                area.width - 3
            } else {
                0
            },
            height: if area.height >= 1 {
                area.height - 1
            } else {
                0
            },
        }
    } else {
        area
    }
}

/// The area inside a border.
pub open spec fn inset(a: Area) -> Area {
    Area {
        x: min_of(a.x + 1, a.x + a.width) as u16,
        y: min_of(a.y + 1, a.y + a.height) as u16,
        width: minus(a.width as int, 2) as u16,
        height: minus(a.height as int, 2) as u16,
    }
}

pub fn inner(a: Area) -> (r: Area)
    requires
        on_screen(a),
    ensures
        r == inset(a),
        on_screen(r),
        within(r, a),
{
    Area {
        x: if a.width > 0 {
            a.x + 1
        } else {
            a.x
        },
        y: if a.height > 0 {
            a.y + 1
        } else {
            a.y
        },
        width: if a.width >= 2 {
            a.width - 2
        } else {
            0
        },
        height: if a.height >= 2 {
            a.height - 2
        } else {
            0
        },
    }
}

/// How many rows the now-playing bar takes: one, and one more for the track
/// that comes in while two are mixed.
pub open spec fn playing_rows(info: NowPlaying) -> u16 {
    if info.crossfading && info.incoming_track is Some {
        2
    } else {
        1
    }
}

pub fn playing_height(info: &NowPlaying) -> (h: u16)
    ensures
        h == playing_rows(*info),
{
    if info.crossfading && info.incoming_track.is_some() {
        2
    } else {
        1
    }
}

/// How many rows the hints take: one, or two where they do not fit.
pub open spec fn hint_rows(len: nat, width: nat) -> u16 {
    if len > width {
        2
    } else {
        1
    }
}

/// How many rows these heights take together.
pub open spec fn total(heights: Seq<u16>) -> nat
    decreases heights.len(),
{
    if heights.len() == 0 {
        0
    } else {
        total(heights.drop_last()) + heights.last() as nat
    }
}

/// The height of a row that has a minimum, beside rows that ask for `fixed`: what
/// they leave, or else its minimum, as far as there is room for it.
pub open spec fn grown(height: u16, fixed: nat, min: nat) -> nat {
    if fixed + min <= height {
        (height - fixed) as nat
    } else if min <= height {
        min
    } else {
        height as nat
    }
}

/// Rows that stand one below the other from `y` on.
pub open spec fn in_order(y: u16, rows: Seq<(u16, u16)>) -> bool {
    &&& rows.len() > 0 ==> rows[0].0 == y
    &&& forall|i: int, j: int|
        0 <= i && j == i + 1 && j < rows.len() ==> (#[trigger] rows[i]).0 + rows[i].1 == (
        #[trigger] rows[j]).0
}

/// How a height is shared out. A row with a fixed height has no more than that,
/// and all of it where there is room for everything; one with a minimum has it
/// before those get theirs, and what is left over after. The rows reach the end
/// where one can grow, or where they ask for that much.
pub open spec fn shared_out(
    y: u16,
    height: u16,
    lead: Seq<u16>,
    mins: Seq<u16>,
    tail: Seq<u16>,
    rows: Seq<(u16, u16)>,
) -> bool {
    let asked = lead + mins + tail;
    let all = total(lead) + total(mins) + total(tail);
    &&& forall|i: int|
        0 <= i < rows.len() && !(lead.len() <= i < lead.len() + mins.len()) ==> (#[trigger] rows[i]).1
            <= asked[i] && (all <= height ==> rows[i].1 == asked[i])
    &&& mins.len() == 1 ==> rows[lead.len() as int].1 == grown(
        height,
        total(lead) + total(tail),
        mins[0] as nat,
    )
    &&& rows.len() > 0 && (mins.len() == 1 || all >= height) ==> rows.last().0 + rows.last().1 == y
        + height
}

/// Calls ratatui's `Layout::split` for a column of rows: `lead` rows of these
/// heights, then at most one of at least the height in `mins`, then `tail` rows
/// of these heights again. What it gives back is one row for each, as its first
/// row and its height, one below the other from the top, none of them outside of
/// the space there is. A minimum is stronger than a fixed height, so it is met
/// first, and a row with one grows where there is more. How fixed heights that do
/// not all fit share what is left is not said: the solver walks tables that each
/// process seeds anew, and the documentation calls its choice indeterminate. A
/// minimum is read as a signed number of 16 bits.
#[verifier::external_body]
fn split_rows(y: u16, height: u16, lead: &Vec<u16>, mins: &Vec<u16>, tail: &Vec<u16>) -> (rows: Vec<
    (u16, u16),
>)
    requires
        y + height <= u16::MAX,
        mins@.len() <= 1,
        mins@.len() == 1 ==> mins@[0] <= i16::MAX,
    ensures
        rows@.len() == lead@.len() + mins@.len() + tail@.len(),
        forall|i: int|
            0 <= i < rows@.len() ==> y <= (#[trigger] rows@[i]).0 && rows@[i].0 + rows@[i].1 <= y
                + height,
        in_order(y, rows@),
        shared_out(y, height, lead@, mins@, tail@, rows@),
{
    let lead = Constraint::from_lengths(lead.iter().copied());
    let mins = Constraint::from_mins(mins.iter().copied());
    let tail = Constraint::from_lengths(tail.iter().copied());
    let rows = Layout::vertical(lead.into_iter().chain(mins).chain(tail));
    rows.split(Rect::new(0, y, 1, height)).iter().map(|r| (r.y, r.height)).collect()
}

/// The rows that two heights at most take.
spec fn few(heights: Seq<u16>) -> nat {
    if heights.len() == 0 {
        0
    } else if heights.len() == 1 {
        heights[0] as nat
    } else {
        (heights[0] + heights[1]) as nat
    }
}

proof fn lemma_total(heights: Seq<u16>)
    requires
        heights.len() <= 2,
    ensures
        total(heights) == few(heights),
{
    reveal_with_fuel(total, 3);
}

/// Where the parts of a frame lie.
pub struct FrameLayout {
    pub size: Area,
    pub playing_height: u16,
    pub hints: String,
    pub hints_height: u16,
    /// The view, the now-playing bar and the hints.
    pub main: Area,
    pub playing: Area,
    pub below: Area,
    /// The rows of the now-playing bar.
    pub bars: Vec<Area>,
    /// The view inside its border, and what is left of it for lists beside a
    /// line of input.
    pub content: Area,
    pub list: Area,
    pub line: Option<Area>,
    /// The three panes of the MIDI screen.
    pub panes: Vec<Area>,
}

/// The rows `from` to `from + height` of an area.
pub open spec fn rows_at(a: Area, from: int, height: int) -> Area {
    Area { x: a.x, y: (a.y + from) as u16, width: a.width, height: height as u16 }
}

/// A list has a line of input beside it: the search, or the filter.
pub open spec fn has_line(a: App) -> bool {
    a.view is Search || (a.view is Browse && (a.nav@.filter.len() > 0 || a.nav.filtering))
}

/// The view comes first, and has three rows before the others get theirs; the
/// now-playing bar lies below it, and the hints below that, to the bottom. Where
/// there is room, each has the rows it asks for.
pub open spec fn bands_fit(l: FrameLayout) -> bool {
    let (p, h) = (l.playing_height, l.hints_height);
    let view = grown(l.size.height, (p + h) as nat, 3);
    let bar = l.playing.height;
    &&& l.main == rows_at(l.size, 0, view as int)
    &&& l.playing == rows_at(l.size, view as int, bar as int)
    &&& l.below == rows_at(l.size, view + bar, l.size.height - view - bar)
    &&& bar <= p && l.below.height <= h
    &&& l.size.height >= 3 + p + h ==> bar == p && l.below.height == h
}

/// A now-playing bar of two has a row for each, the first one first.
pub open spec fn bars_fit(l: FrameLayout) -> bool {
    l.playing_height == 2 ==> ({
        let first = l.bars@[0].height;
        &&& l.bars@[0] == rows_at(l.playing, 0, first as int)
        &&& l.bars@[1] == rows_at(l.playing, first as int, l.playing.height - first)
        &&& first <= 1 && l.bars@[1].height <= 1
    })
}

/// The line of a search is the first of the view, that of a filter the last; the
/// list has the rest. A single row is the line of a search, and the list beside
/// a filter.
#[verifier::opaque]
pub open spec fn line_fits(a: App, c: Area, list_area: Area, line: Option<Area>) -> bool {
    let top = min_of(c.height as int, 1);
    let list = grown(c.height, 1, 1);
    &&& line is Some == has_line(a)
    &&& line is None ==> list_area == c
    &&& a.view is Search ==> line == Some(rows_at(c, 0, top)) && list_area == rows_at(
        c,
        top,
        c.height - top,
    )
    &&& a.view is Browse && line is Some ==> line == Some(
        rows_at(c, list as int, c.height - list),
    ) && list_area == rows_at(c, 0, list as int)
}

/// The MIDI screen shows what was moved last, the actions, and the bindings; the
/// actions have eight rows before the others get theirs.
#[verifier::opaque]
pub open spec fn panes_fit(a: App, bindings: nat, c: Area, panes: Seq<Area>) -> bool {
    let shown = bindings_rows(bindings);
    if a.view is MidiLearn {
        let top = panes[0].height;
        let actions = grown(c.height, (4 + shown) as nat, 8);
        &&& panes.len() == 3
        &&& panes[0] == rows_at(c, 0, top as int)
        &&& panes[1] == rows_at(c, top as int, actions as int)
        &&& panes[2] == rows_at(c, top + actions, c.height - top - actions)
        &&& top <= 4 && panes[2].height <= shown
        &&& c.height >= 12 + shown ==> top == 4 && panes[2].height == shown
    } else {
        panes.len() == 0
    }
}

/// What holds of a layout. How the bar and the hints share rows that are not
/// enough for both is left open, as it is for the two panes beside the actions.
pub open spec fn laid_out(
    a: App,
    area: Area,
    native: bool,
    info: NowPlaying,
    bindings: nat,
    l: FrameLayout,
) -> bool {
    &&& bands_fit(l) && bars_fit(l)
    &&& line_fits(a, l.content, l.list, l.line)
    &&& panes_fit(a, bindings, l.content, l.panes@)
    &&& l.size == drawn_area(area, native)
    &&& l.playing_height == playing_rows(info)
    &&& l.hints@ == hints(
        a.view,
        a.nav@.screen(),
        a.nav.cursor.column as int,
        a.nav@.stack.len(),
        info.playing_track is Some,
    )
    &&& l.hints_height == hint_rows(l.hints@.len(), l.size.width as nat)
    &&& within(l.main, l.size) && l.main.x == l.size.x && l.main.width == l.size.width
    &&& within(l.playing, l.size) && within(l.below, l.size)
    &&& l.bars@.len() == l.playing_height
    &&& forall|i: int| 0 <= i < l.bars@.len() ==> within(#[trigger] l.bars@[i], l.size)
    &&& l.playing_height == 1 ==> l.bars@[0] == l.playing
    &&& l.content == inset(l.main)
    &&& l.list.x == l.content.x && l.list.width == l.content.width
    &&& l.content.y <= l.list.y && l.list.y + l.list.height <= l.content.y + l.content.height
    &&& l.line is Some ==> within(l.line->0, l.content)
    &&& forall|i: int| 0 <= i < l.panes@.len() ==> within(#[trigger] l.panes@[i], l.content)
    &&& on_screen(l.main) && on_screen(l.content) && on_screen(l.list)
}

fn rows_of(a: Area, rows: &Vec<(u16, u16)>) -> (v: Vec<Area>)
    requires
        forall|i: int|
            0 <= i < rows@.len() ==> a.y <= (#[trigger] rows@[i]).0 && rows@[i].0 + rows@[i].1
                <= a.y + a.height,
    ensures
        v@.len() == rows@.len(),
        forall|i: int|
            0 <= i < v@.len() ==> within(#[trigger] v@[i], a) && v@[i] == (Area {
                x: a.x,
                y: rows@[i].0,
                width: a.width,
                height: rows@[i].1,
            }),
{
    let mut v: Vec<Area> = Vec::new();
    let mut i: usize = 0;
    while i < rows.len()
        invariant
            i <= rows.len(),
            v@.len() == i,
            forall|i: int|
                0 <= i < rows@.len() ==> a.y <= (#[trigger] rows@[i]).0 && rows@[i].0 + rows@[i].1
                    <= a.y + a.height,
            forall|i: int|
                0 <= i < v@.len() ==> within(#[trigger] v@[i], a) && v@[i] == (Area {
                    x: a.x,
                    y: rows@[i].0,
                    width: a.width,
                    height: rows@[i].1,
                }),
        decreases rows.len() - i,
    {
        v.push(Area { x: a.x, y: rows[i].0, width: a.width, height: rows[i].1 });
        i += 1;
    }
    v
}

/// Up to three rows of an area; two with a fixed height at most stand above, or
/// below, the one that grows.
fn split_area(a: Area, lead: Vec<u16>, mins: Vec<u16>, tail: Vec<u16>) -> (v: Vec<Area>)
    requires
        on_screen(a),
        lead@.len() <= 2 && mins@.len() <= 1 && tail@.len() <= 2,
        mins@.len() == 1 ==> mins@[0] <= i16::MAX,
        lead@.len() + mins@.len() + tail@.len() <= 3,
    ensures
        v@.len() == lead@.len() + mins@.len() + tail@.len(),
        forall|i: int|
            0 <= i < v@.len() ==> within(#[trigger] v@[i], a) && v@[i].x == a.x && v@[i].width
                == a.width,
        total(lead@) == few(lead@) && total(mins@) == few(mins@) && total(tail@) == few(tail@),
        v@.len() > 0 ==> v@[0].y == a.y,
        v@.len() > 1 ==> v@[1].y == a.y + v@[0].height,
        v@.len() > 2 ==> v@[2].y == a.y + v@[0].height + v@[1].height,
        shared_out(
            a.y,
            a.height,
            lead@,
            mins@,
            tail@,
            Seq::new(v@.len(), |i: int| (v@[i].y, v@[i].height)),
        ),
{
    let rows: Vec<(u16, u16)> = split_rows(a.y, a.height, &lead, &mins, &tail);
    let v: Vec<Area> = rows_of(a, &rows);
    proof {
        assert(Seq::new(v@.len(), |i: int| (v@[i].y, v@[i].height)) =~= rows@);
        lemma_total(lead@);
        lemma_total(mins@);
        lemma_total(tail@);
        if rows@.len() > 1 {
            assert(rows@[0].0 + rows@[0].1 == rows@[1].0);
        }
        if rows@.len() > 2 {
            assert(rows@[1].0 + rows@[1].1 == rows@[2].0);
        }
    }
    v
}

/// The view, the now-playing bar and the hints.
fn split_bands(a: Area, playing: u16, hints: u16) -> (v: Vec<Area>)
    requires
        on_screen(a),
        playing <= 2 && hints <= 2,
    ensures
        v@.len() == 3,
        forall|i: int|
            0 <= i < 3 ==> within(#[trigger] v@[i], a) && v@[i].x == a.x && v@[i].width == a.width,
        ({
            let view = grown(a.height, (playing + hints) as nat, 3);
            let bar = v@[1].height;
            &&& v@[0] == rows_at(a, 0, view as int)
            &&& v@[1] == rows_at(a, view as int, bar as int)
            &&& v@[2] == rows_at(a, view + bar, a.height - view - bar)
            &&& bar <= playing && v@[2].height <= hints
            &&& a.height >= 3 + playing + hints ==> bar == playing && v@[2].height == hints
        }),
{
    let v: Vec<Area> = split_area(a, vec![], vec![3], vec![playing, hints]);
    proof {
        let rows = Seq::new(v@.len(), |i: int| (v@[i].y, v@[i].height));
        assert(rows[0].1 == v@[0].height && rows[1].1 == v@[1].height);
        assert(rows[2].1 == v@[2].height && rows.last() == rows[2]);
    }
    v
}

/// The rows of the now-playing bar.
fn split_bars(a: Area, rows: u16) -> (v: Vec<Area>)
    requires
        on_screen(a),
        1 <= rows <= 2,
        a.height <= rows,
    ensures
        v@.len() == rows,
        forall|i: int| 0 <= i < v@.len() ==> within(#[trigger] v@[i], a),
        rows == 1 ==> v@[0] == a,
        rows == 2 ==> ({
            let first = v@[0].height;
            &&& v@[0] == rows_at(a, 0, first as int)
            &&& v@[1] == rows_at(a, first as int, a.height - first)
            &&& first <= 1 && v@[1].height <= 1
        }),
{
    if rows == 2 {
        let v: Vec<Area> = split_area(a, vec![1, 1], vec![], vec![]);
        proof {
            let rows = Seq::new(v@.len(), |i: int| (v@[i].y, v@[i].height));
            assert(rows[0].1 == v@[0].height && rows[1].1 == v@[1].height);
            assert(rows.last() == rows[1]);
        }
        v
    } else {
        vec![a]
    }
}

/// A line and the list below it.
fn line_above(a: Area) -> (v: Vec<Area>)
    requires
        on_screen(a),
    ensures
        v@.len() == 2,
        forall|i: int|
            0 <= i < 2 ==> within(#[trigger] v@[i], a) && v@[i].x == a.x && v@[i].width == a.width,
        ({
            let top = min_of(a.height as int, 1);
            v@[0] == rows_at(a, 0, top) && v@[1] == rows_at(a, top, a.height - top)
        }),
{
    let v: Vec<Area> = split_area(a, vec![1], vec![0], vec![]);
    proof {
        let rows = Seq::new(v@.len(), |i: int| (v@[i].y, v@[i].height));
        assert(rows[0].1 == v@[0].height && rows[1].1 == v@[1].height);
        assert(rows.last() == rows[1]);
    }
    v
}

/// A list and the line below it.
fn line_below(a: Area) -> (v: Vec<Area>)
    requires
        on_screen(a),
    ensures
        v@.len() == 2,
        forall|i: int|
            0 <= i < 2 ==> within(#[trigger] v@[i], a) && v@[i].x == a.x && v@[i].width == a.width,
        ({
            let list = grown(a.height, 1, 1);
            v@[0] == rows_at(a, 0, list as int) && v@[1] == rows_at(
                a,
                list as int,
                a.height - list,
            )
        }),
{
    let v: Vec<Area> = split_area(a, vec![], vec![1], vec![1]);
    proof {
        let rows = Seq::new(v@.len(), |i: int| (v@[i].y, v@[i].height));
        assert(rows[0].1 == v@[0].height && rows[1].1 == v@[1].height);
        assert(rows.last() == rows[1]);
    }
    v
}

/// The three panes of the MIDI screen.
fn split_panes(a: Area, shown: u16) -> (v: Vec<Area>)
    requires
        on_screen(a),
        shown <= 15,
    ensures
        v@.len() == 3,
        forall|i: int| 0 <= i < 3 ==> within(#[trigger] v@[i], a),
        ({
            let top = v@[0].height;
            let actions = grown(a.height, (4 + shown) as nat, 8);
            &&& v@[0] == rows_at(a, 0, top as int)
            &&& v@[1] == rows_at(a, top as int, actions as int)
            &&& v@[2] == rows_at(a, top + actions, a.height - top - actions)
            &&& top <= 4 && v@[2].height <= shown
            &&& a.height >= 12 + shown ==> top == 4 && v@[2].height == shown
        }),
{
    let v: Vec<Area> = split_area(a, vec![4], vec![8], vec![shown]);
    proof {
        let rows = Seq::new(v@.len(), |i: int| (v@[i].y, v@[i].height));
        assert(rows[0].1 == v@[0].height && rows[1].1 == v@[1].height);
        assert(rows[2].1 == v@[2].height && rows.last() == rows[2]);
    }
    v
}

/// Height of the pane with the bindings of the MIDI screen.
pub open spec fn bindings_rows(bindings: nat) -> int {
    min_of(max_of(8, bindings as int + 2), 15)
}

impl App {
    /// The list and the line beside it.
    fn split_content(&self, content: Area) -> (r: (Area, Option<Area>))
        requires
            on_screen(content),
        ensures
            line_fits(*self, content, r.0, r.1),
            within(r.0, content) && r.0.x == content.x && r.0.width == content.width,
            r.1 is Some ==> within(r.1->0, content),
    {
        proof {
            reveal(line_fits);
        }
        if self.view == ViewMode::Search {
            let two: Vec<Area> = line_above(content);
            return (two[1], Some(two[0]));
        }
        if self.view == ViewMode::Browse && (char_count(self.nav.filter.as_str()) > 0
            || self.nav.filtering) {
            let two: Vec<Area> = line_below(content);
            return (two[0], Some(two[1]));
        }
        (content, None)
    }

    /// The panes of the MIDI screen, where it is shown.
    fn learn_panes(&self, content: Area, bindings: usize) -> (v: Vec<Area>)
        requires
            on_screen(content),
        ensures
            panes_fit(*self, bindings as nat, content, v@),
            forall|i: int| 0 <= i < v@.len() ==> within(#[trigger] v@[i], content),
    {
        proof {
            reveal(panes_fit);
        }
        if self.view != ViewMode::MidiLearn {
            return Vec::new();
        }
        let shown: u16 = if bindings >= 13 {
            15
        } else if bindings <= 6 {
            8
        } else {
            bindings as u16 + 2
        };
        assert(shown == bindings_rows(bindings as nat));
        split_panes(content, shown)
    }

    /// Lays a frame out on a screen; `bindings` is how many the MIDI screen
    /// lists.
    pub fn lay_out(&self, area: Area, native: bool, info: &NowPlaying, bindings: usize) -> (l:
        FrameLayout)
        requires
            self.wf(),
            on_screen(area),
            native ==> area.x < u16::MAX,
        ensures
            laid_out(*self, area, native, *info, bindings as nat, l),
    {
        let size: Area = frame_size(area, native);
        let np: u16 = playing_height(info);
        let text: String = self.build_hints_string(info);
        let hh: u16 = if char_count(text.as_str()) > size.width as usize {
            2
        } else {
            1
        };
        let bands: Vec<Area> = split_bands(size, np, hh);
        let main: Area = bands[0];
        let playing: Area = bands[1];
        let below: Area = bands[2];
        let bars: Vec<Area> = split_bars(playing, np);
        let content: Area = inner(main);
        let (list, line): (Area, Option<Area>) = self.split_content(content);
        let panes: Vec<Area> = self.learn_panes(content, bindings);
        FrameLayout {
            size,
            playing_height: np,
            hints: text,
            hints_height: hh,
            main,
            playing,
            below,
            bars,
            content,
            list,
            line,
            panes,
        }
    }
}

/// The view, the now-playing bar and the hints cover the screen from the top to
/// the bottom, none above the end of the one before.
pub proof fn bands_cover_the_screen(
    a: App,
    area: Area,
    native: bool,
    info: NowPlaying,
    bindings: nat,
    l: FrameLayout,
)
    requires
        on_screen(area),
        native ==> area.x < u16::MAX,
        laid_out(a, area, native, info, bindings, l),
    ensures
        l.main.y == l.size.y,
        l.playing.y == l.main.y + l.main.height,
        l.below.y == l.playing.y + l.playing.height,
        l.below.y + l.below.height == l.size.y + l.size.height,
{
}

/// How wide a toast is: its text and a margin, as far as there is room.
pub open spec fn toast_width(text: Seq<char>, width: u16) -> u16 {
    min_of(encode_utf8(text).len() as usize + 4, width as int) as u16
}

/// Where a toast lies: centred, one row above the now-playing bar and the hints.
pub open spec fn toast_place(text: Seq<char>, size: Area, strip: nat) -> Area {
    let w = toast_width(text, size.width);
    Area {
        x: (minus(size.width as int, w as int) / 2) as u16,
        y: minus(size.height as int, strip as int + 4) as u16,
        width: w,
        height: 3,
    }
}

pub fn toast_area(text: &str, size: Area, strip: u16) -> (a: Area)
    requires
        strip <= 4,
    ensures
        a == toast_place(text@, size, strip as nat),
{
    let len: usize = text.len();
    let w: u16 = if len < size.width as usize && size.width as usize - len > 4 {
        len as u16 + 4
    } else {
        size.width
    };
    Area {
        x: (size.width - w) / 2,
        y: if size.height >= strip + 4 {
            size.height - (strip + 4)
        } else {
            0
        },
        width: w,
        height: 3,
    }
}

/// Where there is room, a toast ends above the now-playing bar and the hints,
/// with a row between, and lies within the width of the screen.
pub proof fn toast_clears_the_bars(text: Seq<char>, size: Area, strip: nat)
    requires
        size.height >= strip + 4,
    ensures
        ({
            let a = toast_place(text, size, strip);
            &&& a.y + a.height + 1 + strip == size.height
            &&& a.x + a.width <= size.width
        }),
{
}

/// A box in the middle of an area.
pub open spec fn centred(area: Area, w: u16, h: u16) -> Area {
    Area {
        x: coord(area.x + minus(area.width as int, w as int) / 2),
        y: coord(area.y + minus(area.height as int, h as int) / 2),
        width: w,
        height: h,
    }
}

/// Where the question which deck to favour lies.
pub open spec fn picker_place(area: Area, lines: nat) -> Area {
    centred(area, min_of(70, minus(area.width as int, 4) as int) as u16, (lines + 2) as u16)
}

pub fn picker_area(area: Area, lines: u16) -> (a: Area)
    requires
        on_screen(area),
        lines < 1000,
    ensures
        a == picker_place(area, lines as nat),
{
    let room: u16 = if area.width >= 4 {
        area.width - 4
    } else {
        0
    };
    let w: u16 = if room < 70 {
        room
    } else {
        70
    };
    let h: u16 = lines + 2;
    let down: u16 = if area.height >= h {
        (area.height - h) / 2
    } else {
        0
    };
    Area { x: area.x + (area.width - w) / 2, y: area.y + down, width: w, height: h }
}

/// The box of the question is as far from the left edge as from the right one,
/// up to a column.
pub proof fn picker_is_centred(area: Area, lines: nat)
    requires
        on_screen(area),
    ensures
        ({
            let a = picker_place(area, lines);
            let left = a.x - area.x;
            let right = area.x + area.width - (a.x + a.width);
            left == right || left + 1 == right
        }),
{
}

} // verus!
