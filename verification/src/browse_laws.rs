//! Where a step from an item leads.
use crate::catalog::{BrowseScreen, Items};
use crate::menus::{page, track_page};
use crate::nav::{
    entered, entered_at, first_holding, first_named, holds, is_named, item_step, passes, passing,
    segment_match, shown_items, track_step, BrowseStepV, NavV,
};
use crate::readings::{signed_decimal_reads_back, signed_value};
use crate::text::signed_decimal;
use crate::track::{Named, Track};
use vstd::prelude::*;

verus! {

/// Someone among these has this id and this name.
pub open spec fn names_one_of(people: Seq<Named>, id: i64, name: Seq<char>) -> bool {
    exists|k: int|
        0 <= k < people.len() && (#[trigger] people[k]).id == id && people[k].name@ == name
}

/// What a step from a track leads to is that track's own: a label goes by the id
/// and the name of its label, a genre by those of its genre, an artist by those of
/// one of its artists or remixers.
pub proof fn steps_lead_to_what_the_track_has(t: Track, i: usize, column: int)
    ensures
        match track_step(t, i, column) {
            BrowseStepV::ToLabel(id, name) => t.label_id == Some(id) && (t.label_name matches Some(n)
                && n@ == name),
            BrowseStepV::ToGenre(id, name) => t.genre_id == Some(id) && (t.genre_name matches Some(n)
                && n@ == name),
            BrowseStepV::ToArtist(id, name) => names_one_of(t.artists@, id, name) || names_one_of(
                t.remixer_links@,
                id,
                name,
            ),
            BrowseStepV::Release(id) => t.release_id == Some(id),
            BrowseStepV::Dates(_, genre) => genre == t.genre_id,
            BrowseStepV::Queue(k) => k == i,
            BrowseStepV::ListArtists(k) => k == i && t.artists@.len() > 1,
            BrowseStepV::ListRemixers(k) => k == i && t.remixer_links@.len() > 1,
            BrowseStepV::Nothing => true,
            _ => false,
        },
{
    if t.artists@.len() == 1 {
        assert(names_one_of(t.artists@, t.artists@[0].id, t.artists@[0].name@));
    }
    if t.remixer_links@.len() == 1 {
        assert(names_one_of(
            t.remixer_links@,
            t.remixer_links@[0].id,
            t.remixer_links@[0].name@,
        ));
    }
}

/// Each column of a track leads to what it shows, where the track has it: the
/// artists, the remixers, the label, the genre, the year; before them the release,
/// and the whole row queues the track.
pub proof fn columns_lead_to_what_they_show(t: Track, i: usize)
    ensures
        track_step(t, i, -2) == BrowseStepV::Queue(i),
        t.release_id is Some <==> track_step(t, i, -1) is Release,
        t.artists@.len() == 1 <==> track_step(t, i, 0) is ToArtist,
        t.artists@.len() > 1 <==> track_step(t, i, 0) is ListArtists,
        track_step(t, i, 0) matches BrowseStepV::ToArtist(id, n) ==> names_one_of(t.artists@, id, n),
        t.remixer_links@.len() == 1 <==> track_step(t, i, 1) is ToArtist,
        t.remixer_links@.len() > 1 <==> track_step(t, i, 1) is ListRemixers,
        track_step(t, i, 1) matches BrowseStepV::ToArtist(id, n) ==> names_one_of(
            t.remixer_links@,
            id,
            n,
        ),
        t.label_id is Some && t.label_name is Some <==> track_step(t, i, 2) is ToLabel,
        t.genre_id is Some && t.genre_name is Some <==> track_step(t, i, 3) is ToGenre,
        (t.release_date matches Some(d) && d@.len() >= 4) <==> track_step(t, i, 4) is Dates,
{
    if t.artists@.len() == 1 {
        assert(names_one_of(t.artists@, t.artists@[0].id, t.artists@[0].name@));
    }
    if t.remixer_links@.len() == 1 {
        assert(names_one_of(
            t.remixer_links@,
            t.remixer_links@[0].id,
            t.remixer_links@[0].name@,
        ));
    }
}

/// The dates that a track leads to run from the first to the last day of the year
/// that its own date begins with.
pub proof fn dates_span_the_year(t: Track, i: usize, date: Seq<char>)
    requires
        t.release_date matches Some(d) && d@ == date,
        date.len() >= 4,
    ensures
        track_step(t, i, 4) matches BrowseStepV::Dates(range, _) && range.len() == 21
            && range.take(4) == date.take(4) && range.subrange(4, 11) == "-01-01:"@
            && range.subrange(11, 15) == date.take(4) && range.skip(15) == "-12-31"@,
{
    reveal_strlit("-01-01:");
    reveal_strlit("-12-31");
    let range = crate::nav::year_range(date);
    let y = date.take(4);
    assert("-01-01:"@.len() == 7 && "-12-31"@.len() == 6);
    assert(crate::text::first_n(date, 4) =~= y);
    assert(range =~= y + "-01-01:"@ + y + "-12-31"@);
    assert(range.take(4) =~= y);
    assert(range.subrange(4, 11) =~= "-01-01:"@);
    assert(range.subrange(11, 15) =~= y);
    assert(range.skip(15) =~= "-12-31"@);
}

/// Stepping into an item of a list leads to that very item.
pub proof fn steps_lead_to_the_item(screen: BrowseScreen, i: usize, column: int)
    requires
        i < screen.items.spec_len(),
    ensures
        match screen.items {
            Items::Menu(_) => item_step(screen, i, column) == BrowseStepV::Menu(i),
            Items::Tracks(v) => item_step(screen, i, column) == track_step(
                v@[i as int],
                i,
                column,
            ),
            Items::Genres(v) => item_step(screen, i, column) matches BrowseStepV::Genre(id, n)
                && v@[i as int].id == id && v@[i as int].name@ == n,
            Items::Artists(v) => item_step(screen, i, column) matches BrowseStepV::Artist(id, n)
                && v@[i as int].id == id && v@[i as int].name@ == n,
            Items::Labels(v) => item_step(screen, i, column) matches BrowseStepV::Label(id, n)
                && v@[i as int].id == id && v@[i as int].name@ == n,
            Items::Charts(v) => item_step(screen, i, column) matches BrowseStepV::Chart(id)
                && v@[i as int].id == id,
            Items::Releases(v) => item_step(screen, i, column) matches BrowseStepV::Release(id)
                && v@[i as int].id == id,
        },
{
}

/// A page is one of this kind, and ends in this id.
pub open spec fn shows_page(p: Seq<char>, kind: Seq<char>, id: i64) -> bool {
    let from = 25 + kind.len() + 1;
    exists|k: int|
        {
            &&& from <= k < p.len()
            &&& #[trigger] p[k] == '/'
            &&& p.take(25) == "https://www.beatport.com/"@
            &&& p.subrange(25, (25 + kind.len()) as int) == kind
            &&& p[(25 + kind.len()) as int] == '/'
            &&& signed_value(p.skip(k + 1)) == id
        }
}

proof fn lemma_shows_page(kind: Seq<char>, slug: Seq<char>, id: i64)
    ensures
        shows_page(page(kind, slug, id), kind, id),
{
    reveal_strlit("https://www.beatport.com/");
    reveal_strlit("/");
    signed_decimal_reads_back(id as int);
    let p = page(kind, slug, id);
    let d = signed_decimal(id as int);
    assert("https://www.beatport.com/"@.len() == 25);
    assert("/"@.len() == 1 && "/"@[0] == '/');
    let k = (25 + kind.len() + 1 + slug.len()) as int;
    assert(p == "https://www.beatport.com/"@ + kind + "/"@ + slug + "/"@ + d);
    assert(d.len() > 0) by {
        crate::readings::decimal_reads_back(
            (if id < 0 {
                -id
            } else {
                id as int
            }) as nat,
        );
    }
    assert(p[k] == '/');
    assert(p.take(25) =~= "https://www.beatport.com/"@);
    assert(p.subrange(25, (25 + kind.len()) as int) =~= kind);
    assert(p[(25 + kind.len()) as int] == '/');
    assert(p.skip(k + 1) =~= d);
}

/// The page that a column of a track opens is that of what a step from it leads
/// to, or of the track or its release.
pub proof fn pages_agree_with_steps(t: Track, i: usize, column: int)
    ensures
        match track_step(t, i, column) {
            BrowseStepV::ToArtist(id, _) => track_page(t, column) matches Some(p) && shows_page(
                p,
                "artist"@,
                id,
            ),
            BrowseStepV::ToLabel(id, _) => track_page(t, column) matches Some(p) && shows_page(
                p,
                "label"@,
                id,
            ),
            BrowseStepV::ToGenre(id, _) => track_page(t, column) matches Some(p) && shows_page(
                p,
                "genre"@,
                id,
            ),
            BrowseStepV::Queue(_) => track_page(t, column) matches Some(p) && shows_page(
                p,
                "track"@,
                t.id,
            ),
            _ => true,
        },
        column == 4 ==> match t.release_id {
            Some(id) => track_page(t, column) matches Some(p) && shows_page(p, "release"@, id),
            None => track_page(t, column) is None,
        },
{
    let none = "label"@;
    lemma_shows_page("track"@, "t"@, t.id);
    if let Some(id) = t.release_id {
        lemma_shows_page("release"@, "r"@, id);
    }
    if let (Some(id), Some(n)) = (t.label_id, t.label_name) {
        lemma_shows_page("label"@, crate::menus::slug(n@), id);
    }
    if let Some(id) = t.genre_id {
        lemma_shows_page(
            "genre"@,
            match t.genre_slug {
                Some(s) => s@,
                None => "genre"@,
            },
            id,
        );
    }
    if t.artists@.len() > 0 {
        lemma_shows_page(
            "artist"@,
            crate::menus::slug(t.artists@[0].name@),
            t.artists@[0].id,
        );
    }
    if t.remixer_links@.len() > 0 {
        lemma_shows_page(
            "artist"@,
            crate::menus::slug(t.remixer_links@[0].name@),
            t.remixer_links@[0].id,
        );
    }
}

/// A filter shows exactly the items whose label passes it, in their order.
pub proof fn filter_shows_what_passes(labels: Seq<String>, filter: Seq<char>, n: nat)
    requires
        n <= labels.len(),
        n <= usize::MAX,
    ensures
        forall|k: usize|
            #![trigger passing(labels, filter, n).contains(k)]
            passing(labels, filter, n).contains(k) <==> k < n && passes(labels[k as int]@, filter),
        forall|i: int, j: int|
            0 <= i < j < passing(labels, filter, n).len() ==> #[trigger] passing(
                labels,
                filter,
                n,
            )[i] < #[trigger] passing(labels, filter, n)[j],
    decreases n,
{
    if n > 0 {
        let before = passing(labels, filter, (n - 1) as nat);
        let all = passing(labels, filter, n);
        filter_shows_what_passes(labels, filter, (n - 1) as nat);
        assert forall|i: int| 0 <= i < before.len() implies #[trigger] before[i] < n - 1 by {
            assert(before.contains(before[i]));
        }
        assert forall|k: usize|
            #![trigger all.contains(k)]
            all.contains(k) <==> k < n && passes(labels[k as int]@, filter) by {
            if all.contains(k) {
                let at = choose|at: int| 0 <= at < all.len() && all[at] == k;
                if at < before.len() {
                    assert(before[at] == k);
                    assert(before.contains(k));
                }
            }
            if k < n && passes(labels[k as int]@, filter) {
                if k < n - 1 {
                    assert(before.contains(k));
                    let at = choose|at: int| 0 <= at < before.len() && before[at] == k;
                    assert(all[at] == k);
                } else {
                    assert(all.last() == k);
                }
            }
        }
    }
}

/// The first item whose label is the segment is taken, and without any the first that
/// holds it; none is taken where no label holds it.
pub proof fn first_fitting_item_is_taken(labels: Seq<String>, segment: Seq<char>)
    ensures
        match segment_match(labels, segment) {
            Some(k) => 0 <= k < labels.len() && (is_named(labels, segment, k) || holds(
                labels,
                segment,
                k,
            )) && forall|j: int|
                0 <= j < k ==> !(#[trigger] is_named(labels, segment, j)),
            None => forall|j: int|
                0 <= j < labels.len() ==> !(#[trigger] holds(labels, segment, j)),
        },
{
    lemma_first_named(labels, segment, 0);
    lemma_first_holding(labels, segment, 0);
}

proof fn lemma_first_named(labels: Seq<String>, segment: Seq<char>, from: int)
    requires
        0 <= from <= labels.len(),
    ensures
        match first_named(labels, segment, from) {
            Some(k) => from <= k < labels.len() && is_named(labels, segment, k) && forall|j: int|
                from <= j < k ==> !(#[trigger] is_named(labels, segment, j)),
            None => forall|j: int|
                from <= j < labels.len() ==> !(#[trigger] is_named(labels, segment, j)),
        },
    decreases labels.len() - from,
{
    if from < labels.len() && !is_named(labels, segment, from) {
        lemma_first_named(labels, segment, from + 1);
    }
}

proof fn lemma_first_holding(labels: Seq<String>, segment: Seq<char>, from: int)
    requires
        0 <= from <= labels.len(),
    ensures
        match first_holding(labels, segment, from) {
            Some(k) => from <= k < labels.len() && holds(labels, segment, k) && forall|j: int|
                from <= j < k ==> !(#[trigger] holds(labels, segment, j)),
            None => forall|j: int|
                from <= j < labels.len() ==> !(#[trigger] holds(labels, segment, j)),
        },
    decreases labels.len() - from,
{
    if from < labels.len() && !holds(labels, segment, from) {
        lemma_first_holding(labels, segment, from + 1);
    }
}

/// After Enter the cursor is on the item that was entered, and without a filter that
/// is the one it was on.
pub proof fn cursor_stays_on_the_item_entered(n: NavV)
    ensures
        entered(n).cursor.selected == entered_at(n),
        n.filter.len() == 0 ==> entered_at(n) == n.cursor.selected,
        n.filter.len() > 0 && n.cursor.selected < shown_items(n).len() ==> entered_at(n)
            == shown_items(n)[n.cursor.selected as int],
        entered(n).stack == n.stack,
        entered(n).filter.len() == 0,
{
}

/// Straight to a detail: it is on top, the list below it, and the first screen at the
/// bottom, so that going back leads through them.
pub proof fn detail_stands_on_its_list(
    n: NavV,
    root: BrowseScreen,
    list: BrowseScreen,
    detail: BrowseScreen,
)
    ensures
        n.at_detail(root, list, detail).screen() == detail,
        n.at_detail(root, list, detail).popped().screen() == list,
        n.at_detail(root, list, detail).popped().popped().screen() == root,
        n.wf() ==> n.to_root().screen() == n.stack[0],
        n.at_root(root).screen() == root,
{
}

} // verus!
