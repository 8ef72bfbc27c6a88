//! What comes from outside goes where it belongs: pages, clicks, paths and the
//! options of the settings.
use crate::actions::{
    action_done, favorites_first, genres_kept, is_favorite, kept_place, labels_kept, page_added,
    without_place, AppAction, Page,
};
use crate::app::App;
use crate::catalog::{BrowseScreen, Genre, Items};
use crate::clicks::{hit, ClickTarget};
use crate::config::{
    AnalyzerEngine, AppConfig, AudioQuality, BpmMode, ClaudeDjMode, DjStyle, LimiterMode,
    MixInPoint, PitchStretchEngine, ResumeBehavior, Strictness, TrainWreckMode, TransitionPicker,
};
use crate::deck::NowPlaying;
use crate::effects::{Act, EffectV};
use crate::keymap::lower_all;
use crate::menus::{genre_named, page, track_page, web_page};
use crate::mixer_laws::ends_in;
use crate::modals::midi_map_view;
use crate::mouse::{bindable_at, drag_effects, mouse_done, MouseEvent};
use crate::nav::{BrowseStep, BrowseStepV};
use crate::paths::{path_tick_done, test_mix_step, TestMixEnv, TestMixState};
use crate::place_laws::click_deck;
use crate::ratings::{synced, HistoryMix, MixEntry};
use crate::report_laws::starts_with;
use crate::settings::{Setting, SettingsEnv};
use crate::text::signed_decimal;
use crate::track::Track;
use vstd::prelude::*;

verus! {

/// The option that a row shows as the one in force.
pub open spec fn in_force(s: Setting, c: AppConfig, env: SettingsEnv) -> Seq<char> {
    s.options(c, env)[s.index(c, env)]
}

/// The audio settings show the option that is named after what is set.
pub proof fn audio_options_are_named_after_what_is_set(c: AppConfig, env: SettingsEnv)
    ensures
        in_force(Setting::AudioQuality, c, env)[0] == (if c.audio_quality == AudioQuality::Standard {
            '1'
        } else {
            '2'
        }),
        in_force(Setting::PreviewQuality, c, env)[0] == (if c.preview_quality
            == AudioQuality::Standard {
            '1'
        } else {
            '2'
        }),
        in_force(Setting::MasterLimiter, c, env)[0] == (match c.master_limiter {
            LimiterMode::Off => 'O',
            LimiterMode::SoftKnee => 'S',
        }),
        in_force(Setting::PitchStretch, c, env)[0] == (match c.pitch_stretch_engine {
            PitchStretchEngine::Off => 'O',
            PitchStretchEngine::Rubberband => 'R',
            PitchStretchEngine::Timestretch => 'T',
        }),
        in_force(Setting::BpmMode, c, env)[0] == (match c.bpm_mode {
            BpmMode::Glide => 'G',
            BpmMode::Lock => 'L',
        }),
        in_force(Setting::MixInPoint, c, env)[0] == (match c.mix_in_point {
            MixInPoint::FirstBeat | MixInPoint::FirstAudio => 'F',
            MixInPoint::Drop => 'D',
            MixInPoint::Middle => 'M',
        }),
        in_force(Setting::TrainWreck, c, env)[0] == (match c.train_wreck_mode {
            TrainWreckMode::Off => 'O',
            TrainWreckMode::Detect => 'D',
            TrainWreckMode::AutoBail => 'A',
        }),
        in_force(Setting::AnalyzerEngine, c, env)[0] == (match c.analyzer_engine {
            AnalyzerEngine::Builtin => 'B',
            AnalyzerEngine::Stratum => 'S',
        }),
{
    reveal_strlit("256k");
    reveal_strlit("128k");
    reveal_strlit("Off");
    reveal_strlit("Soft Knee");
    reveal_strlit("Rubberband");
    reveal_strlit("Rubberband (build --features rubberband)");
    reveal_strlit("Timestretch");
    reveal_strlit("Timestretch (build --features timestretch)");
    reveal_strlit("Glide");
    reveal_strlit("Lock");
    reveal_strlit("First Beat");
    reveal_strlit("Drop");
    reveal_strlit("Middle");
    reveal_strlit("Detect");
    reveal_strlit("Auto Bail");
    reveal_strlit("Built-in");
    reveal_strlit("Stratum");
    reveal_strlit("Stratum (build --features stratum)");
}

/// The settings of the views, of the session and of the DJ show the option that is
/// named after what is set.
pub proof fn other_options_are_named_after_what_is_set(c: AppConfig, env: SettingsEnv)
    ensures
        in_force(Setting::CompactView, c, env)[0] == (if c.compact_view {
            'C'
        } else {
            'F'
        }),
        in_force(Setting::ResumeSession, c, env)[1] == (match c.resume_behavior {
            ResumeBehavior::Never => 'e',
            ResumeBehavior::Ask => 's',
            ResumeBehavior::Always => 'l',
        }),
        in_force(Setting::DjMode, c, env)[1] == (match c.claude_dj.mode {
            ClaudeDjMode::Auto => 'u',
            ClaudeDjMode::Assist => 's',
            ClaudeDjMode::Manual => 'a',
        }),
        in_force(Setting::DjCamelot, c, env)[0] == (match c.claude_dj.camelot_strictness {
            Strictness::Strict => 'S',
            Strictness::Prefer => 'P',
            Strictness::Off => 'O',
        }),
        in_force(Setting::DjBpmGap, c, env)[0] == (match c.claude_dj.bpm_gap_strictness {
            Strictness::Strict => 'S',
            Strictness::Prefer => 'P',
            Strictness::Off => 'O',
        }),
        in_force(Setting::DjTransitions, c, env)[0] == 'E' <==> c.claude_dj.transition_picker
            == TransitionPicker::Engine,
        in_force(Setting::DjStyle, c, env)[0] == (match c.claude_dj.style {
            DjStyle::Underground => 'U',
            DjStyle::Mainstream => 'M',
            DjStyle::Exploratory => 'E',
        }),
{
    reveal_strlit("Compact");
    reveal_strlit("Full");
    reveal_strlit("Never");
    reveal_strlit("Ask");
    reveal_strlit("Always");
    reveal_strlit("Auto");
    reveal_strlit("Assist");
    reveal_strlit("Manual");
    reveal_strlit("Strict");
    reveal_strlit("Prefer");
    reveal_strlit("Off");
    reveal_strlit("Engine");
    reveal_strlit("AI");
    reveal_strlit("Underground");
    reveal_strlit("Mainstream");
    reveal_strlit("Exploratory");
}

/// A page that comes in stands behind what was listed, where it is of the same kind;
/// what was listed stays where it was, and nothing of another kind is mixed in.
pub proof fn pages_stand_behind_what_was_listed(
    s: BrowseScreen,
    t: BrowseScreen,
    fx: Seq<EffectV>,
    p: Page,
    i: int,
)
    requires
        page_added(s, t, fx, p),
        0 <= i,
    ensures
        i < s.labels@.len() ==> i < t.labels@.len() && t.labels@[i] == s.labels@[i],
        t.title@ == s.title@,
        match (s.items, p) {
            (Items::Tracks(v), Page::Tracks(more, labels)) => {
                &&& t.items matches Items::Tracks(w) && w@.len() == v@.len() + more@.len() && (i
                    < v@.len() ==> w@[i] == v@[i]) && (i < more@.len() ==> w@[v@.len() + i]
                    == more@[i])
                &&& i < labels@.len() ==> t.labels@[s.labels@.len() + i] == labels@[i]
            },
            (Items::Charts(v), Page::Charts(more, labels)) => {
                &&& t.items matches Items::Charts(w) && w@.len() == v@.len() + more@.len() && (i
                    < v@.len() ==> w@[i] == v@[i]) && (i < more@.len() ==> w@[v@.len() + i]
                    == more@[i])
                &&& i < labels@.len() ==> t.labels@[s.labels@.len() + i] == labels@[i]
            },
            (Items::Releases(v), Page::Releases(more, labels)) => {
                &&& t.items matches Items::Releases(w) && w@.len() == v@.len() + more@.len() && (i
                    < v@.len() ==> w@[i] == v@[i]) && (i < more@.len() ==> w@[v@.len() + i]
                    == more@[i])
                &&& i < labels@.len() ==> t.labels@[s.labels@.len() + i] == labels@[i]
            },
            _ => t.items == s.items && fx.len() == 0,
        },
{
}

/// The genre at a place of a list stands with its label.
pub open spec fn stands_with(
    genres: Seq<Genre>,
    labels: Seq<String>,
    g: Genre,
    label: String,
    k: int,
) -> bool {
    0 <= k < genres.len() && genres[k] == g && labels[k] == label
}

proof fn lemma_kept_pairs(
    genres: Seq<Genre>,
    labels: Seq<String>,
    favorites: Seq<String>,
    wanted: bool,
    i: int,
) -> (k: int)
    requires
        genres.len() == labels.len(),
        0 <= i < genres_kept(genres, favorites, wanted).len(),
    ensures
        genres_kept(genres, favorites, wanted).len() == labels_kept(
            genres,
            labels,
            favorites,
            wanted,
        ).len(),
        stands_with(
            genres,
            labels,
            genres_kept(genres, favorites, wanted)[i],
            labels_kept(genres, labels, favorites, wanted)[i],
            k,
        ),
    decreases genres.len(),
{
    let n = genres.len() - 1;
    let front = genres.drop_last();
    let front_labels = labels.drop_last();
    let before = genres_kept(front, favorites, wanted);
    lemma_kept_lens(front, front_labels, favorites, wanted);
    let kept = is_favorite(genres.last().name@, favorites) == wanted;
    if kept && i == before.len() {
        n
    } else {
        lemma_kept_pairs(front, front_labels, favorites, wanted, i)
    }
}

proof fn lemma_kept_lens(
    genres: Seq<Genre>,
    labels: Seq<String>,
    favorites: Seq<String>,
    wanted: bool,
)
    requires
        genres.len() == labels.len(),
    ensures
        genres_kept(genres, favorites, wanted).len() == labels_kept(
            genres,
            labels,
            favorites,
            wanted,
        ).len(),
    decreases genres.len(),
{
    if genres.len() > 0 {
        lemma_kept_lens(genres.drop_last(), labels.drop_last(), favorites, wanted);
    }
}

/// A list of genres that is shown with the favourites first still has its own label
/// at every genre.
pub proof fn genres_keep_their_label(
    genres: Seq<Genre>,
    labels: Seq<String>,
    favorites: Seq<String>,
    i: int,
)
    requires
        genres.len() == labels.len(),
        0 <= i < favorites_first(genres, favorites).len(),
    ensures
        exists|k: int|
            stands_with(
                genres,
                labels,
                favorites_first(genres, favorites)[i],
                (labels_kept(genres, labels, favorites, true) + labels_kept(
                    genres,
                    labels,
                    favorites,
                    false,
                ))[i],
                k,
            ),
{
    let n = genres_kept(genres, favorites, true).len();
    lemma_kept_lens(genres, labels, favorites, true);
    let all = labels_kept(genres, labels, favorites, true) + labels_kept(
        genres,
        labels,
        favorites,
        false,
    );
    let k = if i < n {
        lemma_kept_pairs(genres, labels, favorites, true, i)
    } else {
        lemma_kept_pairs(genres, labels, favorites, false, i - n)
    };
    assert(stands_with(genres, labels, favorites_first(genres, favorites)[i], all[i], k));
}

/// A message of the services shows what it says and changes nothing; a download
/// that failed leaves the next one free to start, and nothing else does.
pub proof fn services_change_what_they_are_about(
    a: App,
    b: App,
    fx: Seq<EffectV>,
    action: AppAction,
)
    requires
        action_done(a, b, fx, action),
    ensures
        b.in_flight == (a.in_flight && !(action is DownloadFailed)),
        b.config == a.config,
        b.dash == a.dash,
        b.nav@ != a.nav@ ==> action is PushScreen || action is Append,
        action matches AppAction::Toast(m) ==> fx.len() == 1 && fx[0] is Toast && fx[0]->Toast_0
            == m@,
        action matches AppAction::DownloadFailed(m) ==> fx.len() == 1 && fx[0] is Toast
            && fx[0]->Toast_0 == m@,
        action matches AppAction::PushScreen(s) ==> b.nav@.stack.len() == a.nav@.stack.len() + 1
            && b.nav@.page == 1,
        action is Append ==> b.nav@.stack.len() == a.nav@.stack.len() || a.nav@.stack.len() == 0,
        action matches AppAction::ShowGenrePicker { favorites, genres } ==> (b.view
            is FavoritesPicker <==> favorites) && (b.view is GenrePicker <==> !favorites),
        action matches AppAction::ShowPlaylistPicker { track, playlists } ==> b.view
            is PlaylistPicker,
{
}

/// Taking the place of one track keeps those of all others.
pub proof fn other_places_are_kept(places: Seq<(i64, u64)>, id: i64, other: i64)
    requires
        id != other,
    ensures
        kept_place(without_place(places, id), other) == kept_place(places, other),
    decreases places.len(),
{
    if places.len() > 0 {
        other_places_are_kept(places.drop_last(), id, other);
        let before = without_place(places.drop_last(), id);
        if places.last().0 != id {
            assert(before.push(places.last()).drop_last() =~= before);
        }
    }
}

/// The test mix fills the queue only when tracks are listed, and goes to the mix
/// only after both decks were ready, from which on the dashboard shows.
pub proof fn test_mix_waits_for_its_decks(s: TestMixState, env: TestMixEnv, i: int)
    requires
        0 <= i < test_mix_step(s, env).2.len(),
    ensures
        test_mix_step(s, env).0 is Some && test_mix_step(s, env).0->0 is Teleport
            ==> env.both_ready && s is WaitForBothLoaded,
        test_mix_step(s, env).2[i] == EffectV::Do(Act::EnqueueAll) ==> env.listed && s
            is WaitForList,
        test_mix_step(s, env).2[i] == EffectV::Do(Act::ClearQueue) ==> i == 0 && env.listed,
        test_mix_step(s, env).2[i] == EffectV::Do(Act::Teleport) ==> s is Teleport && test_mix_step(
            s,
            env,
        ).1,
        test_mix_step(s, env).1 ==> test_mix_step(s, env).2.contains(EffectV::Do(Act::Teleport)),
{
    if s is Teleport {
        assert(test_mix_step(s, env).2.contains(test_mix_step(s, env).2[0]));
    }
}

/// A path goes on only when the screen that it waits for has come; it then goes by
/// its next segment, keeps the others, and ends where nothing has that name.
pub proof fn paths_wait_for_their_screen(
    a: App,
    b: App,
    step: BrowseStepV,
    fx: Seq<EffectV>,
)
    requires
        path_tick_done(a, b, step, fx),
    ensures
        !(step is Nothing) || b.nav@ != a.nav@ ==> a.path is Some && a.nav@.stack.len()
            > (a.path->0)@.before_depth && (a.path->0)@.remaining.len() > 0,
        b.view == a.view && b.config == a.config && b.in_flight == a.in_flight,
        b.path matches Some(q) ==> a.path matches Some(p) && (q@.remaining == p@.remaining
            || q@.remaining == p@.remaining.skip(1)),
        a.path matches Some(p) ==> a.nav@.stack.len() > p@.before_depth ==> (b.path matches Some(q)
            ==> q@.remaining == p@.remaining.skip(1) && q@.before_depth == a.nav@.stack.len()
            && fx.len() == 0),
        fx.len() > 0 ==> b.path is None && step is Nothing && b.nav@ == a.nav@,
{
}

/// A right-click acts on no deck: it binds a controller to what is under it, named
/// by its label. What has nothing to bind is left alone.
pub proof fn right_clicks_bind(
    a: App,
    b: App,
    fx: Seq<EffectV>,
    step: BrowseStep,
    m: MouseEvent,
    label: Seq<char>,
    env: crate::app::KeyEnv,
    info: NowPlaying,
    defaults: crate::rules::RuleConfig,
    i: int,
)
    requires
        mouse_done(a, b, fx, step, m, label, env, info, defaults),
        m.kind is RightDown,
        0 <= i < fx.len(),
    ensures
        fx[i] is Toast || fx[i] == EffectV::Do(Act::ForgetMidiEvent),
        step is Nothing,
        bindable_at(a.targets@, m.column, m.row) matches Some(action) && midi_map_view(b.midi_map)
            matches Some(v) && v.action == action && v.action_label == label && v.captured is None,
        b.config == a.config && b.nav == a.nav && b.view == a.view,
{
}

/// What is hit covers the place, and nothing that was drawn later does.
pub proof fn last_drawn_is_hit(targets: Seq<ClickTarget>, col: int, row: int)
    ensures
        hit(targets, col, row) matches Some(t) ==> t.covers(col, row) && exists|k: int|
            0 <= k < targets.len() && #[trigger] targets[k] == t && forall|j: int|
                k < j < targets.len() ==> !(#[trigger] targets[j]).covers(col, row),
        hit(targets, col, row) is None ==> forall|j: int|
            0 <= j < targets.len() ==> !(#[trigger] targets[j]).covers(col, row),
    decreases targets.len(),
{
    if targets.len() > 0 {
        let n = targets.len() - 1;
        let rest = targets.drop_last();
        if targets.last().covers(col, row) {
            assert(targets[n] == targets.last());
        } else {
            last_drawn_is_hit(rest, col, row);
            match hit(rest, col, row) {
                Some(t) => {
                    let k = choose|k: int|
                        0 <= k < rest.len() && #[trigger] rest[k] == t && forall|j: int|
                            k < j < rest.len() ==> !(#[trigger] rest[j]).covers(col, row);
                    assert(targets[k] == t);
                    assert forall|j: int| k < j < targets.len() implies !(
                    #[trigger] targets[j]).covers(col, row) by {
                        if j < n {
                            assert(rest[j] == targets[j]);
                        }
                    }
                },
                None => {
                    assert forall|j: int| 0 <= j < targets.len() implies !(
                    #[trigger] targets[j]).covers(col, row) by {
                        if j < n {
                            assert(rest[j] == targets[j]);
                        }
                    }
                },
            }
        }
    }
}

/// A drag works on what is under it: on the deck of its strip, or on the
/// crossfader; a button does not follow a drag.
pub proof fn drags_work_on_what_is_under_them(
    targets: Seq<ClickTarget>,
    col: u16,
    row: u16,
    tempo_range: u32,
    i: int,
)
    requires
        0 <= i < drag_effects(targets, col, row, tempo_range).len(),
    ensures
        hit(targets, col as int, row as int) matches Some(t) && (t.action
            is SetCrossfaderRange || t.action is SetVerticalRange),
        drag_effects(targets, col, row, tempo_range)[i] matches EffectV::Do(act)
            && crate::act_kinds::act_deck(act) == click_deck(
            hit(targets, col as int, row as int)->0.action,
        ) && (act is SetCrossfader <==> hit(targets, col as int, row as int)->0.action
            is SetCrossfaderRange),
{
}

/// Mixes are taken in the order in which they wait; a track that was not mixed into
/// has none.
pub proof fn mixes_go_to_tracks_mixed_into(
    mixes: Seq<Option<HistoryMix>>,
    waiting: Seq<MixEntry>,
    history: Seq<crate::deck::HistoryEntry>,
    i: int,
)
    requires
        mixes.len() <= i < history.len(),
    ensures
        synced(mixes, waiting, history).0.len() == history.len(),
        history[i].mix_score is None ==> synced(mixes, waiting, history).0[i] is None,
        synced(mixes, waiting, history).0[i] matches Some(m) ==> m.rated is None && waiting.contains(
            m.entry,
        ),
        history[mixes.len() as int].mix_score is Some && waiting.len() > 0 ==> (synced(
            mixes,
            waiting,
            history,
        ).0[mixes.len() as int] matches Some(m) && m.entry == waiting[0]),
        waiting.len() == 0 ==> synced(mixes, waiting, history).0[i] is None,
    decreases history.len() - mixes.len(),
{
    let n = mixes.len() as int;
    let takes = history[n].mix_score is Some && waiting.len() > 0;
    let next = if takes {
        mixes.push(Some(HistoryMix { entry: waiting[0], rated: None, rated_at: None }))
    } else {
        mixes.push(None)
    };
    let rest = if takes {
        waiting.skip(1)
    } else {
        waiting
    };
    crate::ratings::sync_keeps_ratings(next, rest, history);
    assert(synced(mixes, waiting, history) == synced(next, rest, history));
    assert(synced(next, rest, history).0[n] == next[n]);
    if takes {
        assert(waiting.contains(waiting[0]));
    }
    if next.len() < history.len() {
        let k = if i == n {
            i + 1
        } else {
            i
        };
        mixes_go_to_tracks_mixed_into(next, rest, history, k);
        if i > n {
            if let Some(m) = synced(next, rest, history).0[i] {
                assert(rest.contains(m.entry));
                let j = choose|j: int| 0 <= j < rest.len() && rest[j] == m.entry;
                if takes {
                    assert(waiting[j + 1] == m.entry);
                }
            }
        }
    }
}

/// A page of a kind, with a number at its end.
pub open spec fn is_page_of(page: Option<Seq<char>>, kind: Seq<char>, id: i64) -> bool {
    page matches Some(p) && ends_in(p, signed_decimal(id as int)) && starts_with(
        p,
        "https://www.beatport.com/"@ + kind + "/"@,
    )
}

proof fn lemma_page_ends(kind: Seq<char>, slug: Seq<char>, id: i64)
    ensures
        ends_in(page(kind, slug, id), signed_decimal(id as int)),
        starts_with(page(kind, slug, id), "https://www.beatport.com/"@ + kind + "/"@),
{
    let p = page(kind, slug, id);
    let tail = signed_decimal(id as int);
    let head = "https://www.beatport.com/"@ + kind + "/"@;
    assert(p.skip(p.len() - tail.len()) =~= tail);
    assert(p.take(head.len() as int) =~= head);
}

/// The page that opens is that of the item under the cursor: of its kind, and with
/// its number at the end.
pub proof fn pages_are_of_the_item(s: BrowseScreen, i: usize, column: int)
    requires
        i < s.items.spec_len(),
    ensures
        match s.items {
            Items::Artists(v) => is_page_of(web_page(s, i, column), "artist"@, v@[i as int].id),
            Items::Labels(v) => is_page_of(web_page(s, i, column), "label"@, v@[i as int].id),
            Items::Releases(v) => is_page_of(web_page(s, i, column), "release"@, v@[i as int].id),
            Items::Genres(v) => is_page_of(web_page(s, i, column), "genre"@, v@[i as int].id),
            Items::Tracks(v) => web_page(s, i, column) == track_page(v@[i as int], column),
            _ => web_page(s, i, column) is None,
        },
{
    match s.items {
        Items::Artists(v) => {
            lemma_page_ends("artist"@, crate::menus::slug(v@[i as int].name@), v@[i as int].id);
        },
        Items::Labels(v) => {
            lemma_page_ends("label"@, crate::menus::slug(v@[i as int].name@), v@[i as int].id);
        },
        Items::Releases(v) => {
            lemma_page_ends("release"@, "r"@, v@[i as int].id);
        },
        Items::Genres(v) => {
            lemma_page_ends("genre"@, v@[i as int].slug@, v@[i as int].id);
        },
        _ => {},
    }
}

/// The page that opens on a column of a track is that of what the column shows.
pub proof fn columns_open_what_they_show(t: Track)
    ensures
        t.artists@.len() > 0 ==> is_page_of(track_page(t, 0), "artist"@, t.artists@[0].id),
        t.artists@.len() == 0 ==> track_page(t, 0) is None,
        t.remixer_links@.len() > 0 ==> is_page_of(
            track_page(t, 1),
            "artist"@,
            t.remixer_links@[0].id,
        ),
        t.remixer_links@.len() == 0 ==> track_page(t, 1) is None,
        t.label_id matches Some(id) ==> is_page_of(track_page(t, 2), "label"@, id),
        t.label_id is None ==> track_page(t, 2) is None,
        t.genre_id matches Some(id) ==> is_page_of(track_page(t, 3), "genre"@, id),
        t.genre_id is None ==> track_page(t, 3) is None,
        t.release_id matches Some(id) ==> is_page_of(track_page(t, 4), "release"@, id),
        t.release_id is None ==> track_page(t, 4) is None,
        is_page_of(track_page(t, 5), "track"@, t.id),
{
    if t.artists@.len() > 0 {
        lemma_page_ends("artist"@, crate::menus::slug(t.artists@[0].name@), t.artists@[0].id);
    }
    if t.remixer_links@.len() > 0 {
        lemma_page_ends(
            "artist"@,
            crate::menus::slug(t.remixer_links@[0].name@),
            t.remixer_links@[0].id,
        );
    }
    if let Some(id) = t.label_id {
        let name = match t.label_name {
            Some(n) => n@,
            None => "label"@,
        };
        lemma_page_ends("label"@, crate::menus::slug(name), id);
    }
    if let Some(id) = t.genre_id {
        let name = match t.genre_slug {
            Some(n) => n@,
            None => "genre"@,
        };
        lemma_page_ends("genre"@, name, id);
    }
    if let Some(id) = t.release_id {
        lemma_page_ends("release"@, "r"@, id);
    }
    lemma_page_ends("track"@, "t"@, t.id);
}

/// The genre that is found has the name that was asked for, and none before it has.
pub proof fn genre_found_has_the_name(genres: Seq<Genre>, name: Seq<char>, from: int, j: int)
    requires
        0 <= from <= j < genres.len(),
    ensures
        genre_named(genres, name, from) matches Some(k) ==> from <= k < genres.len() && lower_all(
            genres[k].name@,
        ) == lower_all(name) && (j < k ==> lower_all(genres[j].name@) != lower_all(name)),
        genre_named(genres, name, from) is None ==> lower_all(genres[j].name@) != lower_all(name),
    decreases genres.len() - from,
{
    reveal_with_fuel(genre_named, 2);
    if lower_all(genres[from].name@) != lower_all(name) && from + 1 < genres.len() {
        genre_found_has_the_name(
            genres,
            name,
            from + 1,
            if j == from {
                j + 1
            } else {
                j
            },
        );
    }
}

} // verus!
