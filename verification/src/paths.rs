//! Things that take several ticks: following a browse path whose screens load one
//! after the other, and the test mix.
use crate::app::App;
use crate::effects::{
    act_and_toast, add_act, add_toast, fx_view, no_effects, only_act, only_toast, Act, Effect,
    EffectV,
};
use crate::inputs::ViewMode;
use crate::nav::{
    entered, entered_at, find_segment, item_step, segment_match, BrowseStep, BrowseStepV, Cursor,
    NavV,
};
use crate::text::{concat2, owned, strs};
use vstd::prelude::*;
use vstd::string::*;

verus! {

/// How many ticks a screen of a browse path may take to load.
pub const PATH_TICKS: u32 = 180;

/// A browse path being followed.
pub struct BrowsePathState {
    /// The segments still to choose.
    pub remaining: Vec<String>,
    /// How many screens there were before the last segment was chosen.
    pub before_depth: usize,
    /// How many ticks its screen is awaited.
    pub waited: u32,
}

#[verifier::ext_equal]
pub struct PathV {
    pub remaining: Seq<Seq<char>>,
    pub before_depth: nat,
    pub waited: u32,
}

impl View for BrowsePathState {
    type V = PathV;

    open spec fn view(&self) -> PathV {
        PathV {
            remaining: strs(self.remaining@),
            before_depth: self.before_depth as nat,
            waited: self.waited,
        }
    }
}

pub open spec fn path_view(p: Option<BrowsePathState>) -> Option<PathV> {
    match p {
        Some(x) => Some(x@),
        None => None,
    }
}

/// The screens with an item chosen, as by Enter on it.
pub open spec fn chosen(n: NavV, index: usize) -> NavV {
    entered(NavV { cursor: Cursor { selected: index, ..n.cursor }, ..n })
}

/// What choosing an item asks for.
pub open spec fn chosen_step(n: NavV, index: usize) -> BrowseStepV {
    let at = NavV { cursor: Cursor { selected: index, ..n.cursor }, ..n };
    item_step(at.screen(), entered_at(at), at.cursor.column as int)
}

/// Choosing the item that a segment names: what the screens become, the step it
/// asks for, and what is said.
pub open spec fn select_done(
    n: NavV,
    m: NavV,
    step: BrowseStepV,
    found: bool,
    fx: Seq<EffectV>,
    segment: Seq<char>,
) -> bool {
    match segment_match(n.screen().labels@, segment) {
        Some(i) => found && m == chosen(n, i as usize) && step == chosen_step(n, i as usize)
            && fx.len() == 0,
        None => !found && m == n && step is Nothing && fx == seq![
            EffectV::Toast("Not found: "@ + segment, 1000),
        ],
    }
}

/// What choosing a segment leads to.
pub struct PathOut {
    /// An item was found.
    pub found: bool,
    pub step: BrowseStep,
    pub effects: Vec<Effect>,
}

/// What a tick does to a path that is followed.
pub enum PathMove {
    Wait,
    TimeOut,
    Done,
    /// Choose the next segment.
    Choose,
}

pub open spec fn path_move(p: PathV, depth: nat) -> PathMove {
    if depth <= p.before_depth {
        if p.waited >= PATH_TICKS {
            PathMove::TimeOut
        } else {
            PathMove::Wait
        }
    } else if p.remaining.len() == 0 {
        PathMove::Done
    } else {
        PathMove::Choose
    }
}

/// The path after a segment of it was chosen, with so many screens before.
pub open spec fn path_next(remaining: Seq<Seq<char>>, depth: nat) -> Option<PathV> {
    if remaining.len() > 0 {
        Some(PathV { remaining, before_depth: depth, waited: 0 })
    } else {
        None
    }
}

/// What a tick does to the path and the screens.
pub open spec fn path_tick_done(a: App, b: App, step: BrowseStepV, fx: Seq<EffectV>) -> bool {
    match a.path {
        None => b == a && step is Nothing && fx.len() == 0,
        Some(p) => {
            let depth = a.nav@.stack.len();
            match path_move(p@, depth) {
                PathMove::Wait => {
                    &&& b == App { path: b.path, ..a }
                    &&& path_view(b.path) == Some(
                        PathV { waited: (p.waited + 1) as u32, ..p@ },
                    )
                    &&& step is Nothing
                    &&& fx.len() == 0
                },
                PathMove::TimeOut => b == App { path: None, ..a } && step is Nothing && fx == seq![
                    EffectV::Toast("Browse path timed out"@, 2000),
                ],
                PathMove::Done => b == App { path: None, ..a } && step is Nothing && fx.len() == 0,
                PathMove::Choose => {
                    let segment = p@.remaining[0];
                    let found = segment_match(a.nav@.screen().labels@, segment) is Some;
                    &&& b == App { path: b.path, nav: b.nav, ..a }
                    &&& select_done(a.nav@, b.nav@, step, found, fx, segment)
                    &&& path_view(b.path) == (if found {
                        path_next(p@.remaining.skip(1), depth)
                    } else {
                        None
                    })
                },
            }
        },
    }
}

/// A path comes to an end: each tick without a new screen counts against a limit,
/// and each segment that is chosen is one less.
pub proof fn path_ends(p: PathV, depth: nat)
    ensures
        path_move(p, depth) is Wait ==> p.waited < PATH_TICKS,
        path_move(p, depth) is Choose ==> (match path_next(p.remaining.skip(1), depth) {
            Some(q) => q.remaining.len() < p.remaining.len(),
            None => true,
        }),
{
}

/// Starting a path from the first screen, with its segments.
pub open spec fn path_started(
    a: App,
    b: App,
    ok: bool,
    step: BrowseStepV,
    fx: Seq<EffectV>,
    segments: Seq<Seq<char>>,
) -> bool {
    let root = a.nav@.to_root();
    if segments.len() == 0 {
        ok && step is Nothing && fx.len() == 0 && b == App {
            nav: b.nav,
            view: ViewMode::Browse,
            ..a
        } && b.nav@ == root
    } else {
        let found = segment_match(root.screen().labels@, segments[0]) is Some;
        &&& b == App { nav: b.nav, view: ViewMode::Browse, path: b.path, ..a }
        &&& ok == found
        &&& select_done(root, b.nav@, step, found, fx, segments[0])
        &&& if found {
            path_view(b.path) == path_next(segments.skip(1), 1)
        } else {
            b.path == a.path
        }
    }
}

fn rest_of(v: &Vec<String>) -> (r: Vec<String>)
    requires
        v@.len() > 0,
    ensures
        strs(r@) == strs(v@).skip(1),
{
    let mut r: Vec<String> = Vec::new();
    let mut i: usize = 1;
    while i < v.len()
        invariant
            1 <= i <= v.len(),
            strs(r@) == strs(v@).subrange(1, i as int),
        decreases v.len() - i,
    {
        let ghost before = strs(r@);
        r.push(owned(v[i].as_str()));
        assert(strs(r@) =~= before.push(v@[i as int]@));
        i += 1;
        assert(strs(r@) =~= strs(v@).subrange(1, i as int));
    }
    assert(strs(r@) =~= strs(v@).skip(1));
    r
}

/// How the path goes on.
fn next_path(remaining: Vec<String>, depth: usize) -> (p: Option<BrowsePathState>)
    ensures
        path_view(p) == path_next(strs(remaining@), depth as nat),
{
    if remaining.len() > 0 {
        Some(BrowsePathState { remaining, before_depth: depth, waited: 0 })
    } else {
        None
    }
}

impl App {
    /// Chooses the item of the current screen that a segment names.
    pub fn browse_path_select(&mut self, segment: &str) -> (o: PathOut)
        requires
            old(self).wf(),
        ensures
            final(self).wf(),
            *final(self) == (App { nav: final(self).nav, ..*old(self) }),
            o.found == (segment_match(old(self).nav@.screen().labels@, segment@) is Some),
            select_done(
                old(self).nav@,
                final(self).nav@,
                o.step@,
                o.found,
                fx_view(o.effects@),
                segment@,
            ),
    {
        match find_segment(&self.nav.current_screen().labels, segment) {
            Some(i) => {
                self.nav.cursor.selected = i;
                assert(self.nav@ =~= (NavV {
                    cursor: Cursor { selected: i, ..old(self).nav.cursor },
                    ..old(self).nav@
                }));
                let step: BrowseStep = self.nav.handle_browse_enter();
                PathOut { found: true, step, effects: no_effects() }
            },
            None => PathOut {
                found: false,
                step: BrowseStep::Nothing,
                effects: only_toast(concat2("Not found: ", segment).as_str(), 1000),
            },
        }
    }

    /// Goes to the first screen and starts to follow a path from there.
    pub fn browse_path(&mut self, segments: &Vec<String>) -> (o: PathOut)
        requires
            old(self).wf(),
        ensures
            final(self).wf(),
            path_started(
                *old(self),
                *final(self),
                o.found,
                o.step@,
                fx_view(o.effects@),
                strs(segments@),
            ),
    {
        self.nav.back_to_root();
        self.view = ViewMode::Browse;
        if segments.len() == 0 {
            return PathOut { found: true, step: BrowseStep::Nothing, effects: no_effects() };
        }
        let o: PathOut = self.browse_path_select(segments[0].as_str());
        if o.found {
            self.path = next_path(rest_of(segments), 1);
        }
        o
    }

    /// One tick of the path that is followed.
    pub fn browse_path_tick(&mut self) -> (o: PathOut)
        requires
            old(self).wf(),
        ensures
            final(self).wf(),
            path_tick_done(*old(self), *final(self), o.step@, fx_view(o.effects@)),
    {
        let nothing: PathOut = PathOut {
            found: false,
            step: BrowseStep::Nothing,
            effects: no_effects(),
        };
        let taken: Option<BrowsePathState> = self.path.take();
        match taken {
            None => nothing,
            Some(p) => {
                let depth: usize = self.nav.stack.len();
                if depth <= p.before_depth {
                    if p.waited >= PATH_TICKS {
                        return PathOut {
                            found: false,
                            step: BrowseStep::Nothing,
                            effects: only_toast("Browse path timed out", 2000),
                        };
                    }
                    let next: BrowsePathState = BrowsePathState {
                        remaining: p.remaining,
                        before_depth: p.before_depth,
                        waited: p.waited + 1,
                    };
                    self.path = Some(next);
                    return nothing;
                }
                if p.remaining.len() == 0 {
                    return nothing;
                }
                let o: PathOut = self.browse_path_select(p.remaining[0].as_str());
                if o.found {
                    self.path = next_path(rest_of(&p.remaining), depth);
                }
                o
            },
        }
    }
}

/// The steps of the test mix.
#[derive(Debug, Clone, Copy, PartialEq, Eq, Structural)]
pub enum TestMixState {
    /// The track list is loading.
    WaitForList { ticks: u32 },
    /// The queue is filled; two different tracks have to be on the decks.
    WaitForBothLoaded { ticks: u32 },
    Teleport,
}

/// What the test mix waits for.
#[derive(Debug, Clone, Copy)]
pub struct TestMixEnv {
    /// The current screen lists more than two tracks.
    pub listed: bool,
    /// The decks hold two different tracks.
    pub both_ready: bool,
}

/// One tick of the test mix: the next step, whether the dashboard is shown, and
/// what is done.
pub open spec fn test_mix_step(s: TestMixState, env: TestMixEnv) -> (
    Option<TestMixState>,
    bool,
    Seq<EffectV>,
) {
    match s {
        TestMixState::WaitForList { ticks } => if env.listed {
            (
                Some(TestMixState::WaitForBothLoaded { ticks: 0 }),
                false,
                seq![
                    EffectV::Do(Act::ClearQueue),
                    EffectV::Do(Act::EnqueueAll),
                    EffectV::Toast("test_mix: queued, loading decks…"@, 1000),
                ],
            )
        } else if ticks > 300 {
            (None, false, seq![EffectV::Toast("test_mix: list didn't load"@, 2000)])
        } else {
            (Some(TestMixState::WaitForList { ticks: (ticks + 1) as u32 }), false, Seq::empty())
        },
        TestMixState::WaitForBothLoaded { ticks } => if env.both_ready {
            (Some(TestMixState::Teleport), false, Seq::empty())
        } else if ticks > 1500 {
            (None, false, seq![EffectV::Toast("test_mix: decks never loaded"@, 2000)])
        } else {
            (
                Some(TestMixState::WaitForBothLoaded { ticks: (ticks + 1) as u32 }),
                false,
                Seq::empty(),
            )
        },
        TestMixState::Teleport => (
            None,
            true,
            seq![
                EffectV::Do(Act::Teleport),
                EffectV::Toast("test_mix: teleported — crossfade imminent"@, 2000),
            ],
        ),
    }
}

/// How many more ticks the test mix can take.
pub open spec fn test_mix_left(s: TestMixState) -> int {
    match s {
        TestMixState::WaitForList { ticks } => 4000 - ticks,
        TestMixState::WaitForBothLoaded { ticks } => 2000 - ticks,
        TestMixState::Teleport => 1,
    }
}

/// The test mix ends, whatever it finds: every tick leaves fewer to go.
pub proof fn test_mix_ends(s: TestMixState, env: TestMixEnv)
    requires
        match s {
            TestMixState::WaitForList { ticks } => ticks <= 301,
            TestMixState::WaitForBothLoaded { ticks } => ticks <= 1501,
            TestMixState::Teleport => true,
        },
    ensures
        test_mix_left(s) > 0,
        match test_mix_step(s, env).0 {
            Some(n) => 0 < test_mix_left(n) < test_mix_left(s),
            None => true,
        },
{
}

/// One tick of the test mix.
pub fn test_mix_tick(s: TestMixState, env: TestMixEnv) -> (r: (
    Option<TestMixState>,
    bool,
    Vec<Effect>,
))
    ensures
        (r.0, r.1, fx_view(r.2@)) == test_mix_step(s, env),
{
    match s {
        TestMixState::WaitForList { ticks } => {
            if env.listed {
                let mut fx: Vec<Effect> = only_act(Act::ClearQueue);
                add_act(&mut fx, Act::EnqueueAll);
                add_toast(&mut fx, "test_mix: queued, loading decks…", 1000);
                assert(fx_view(fx@) =~= test_mix_step(s, env).2);
                (Some(TestMixState::WaitForBothLoaded { ticks: 0 }), false, fx)
            } else if ticks > 300 {
                (None, false, only_toast("test_mix: list didn't load", 2000))
            } else {
                (Some(TestMixState::WaitForList { ticks: ticks + 1 }), false, no_effects())
            }
        },
        TestMixState::WaitForBothLoaded { ticks } => {
            if env.both_ready {
                (Some(TestMixState::Teleport), false, no_effects())
            } else if ticks > 1500 {
                (None, false, only_toast("test_mix: decks never loaded", 2000))
            } else {
                (Some(TestMixState::WaitForBothLoaded { ticks: ticks + 1 }), false, no_effects())
            }
        },
        TestMixState::Teleport => (
            None,
            true,
            act_and_toast(Act::Teleport, "test_mix: teleported — crossfade imminent", 2000),
        ),
    }
}

/// Two decks hold two different tracks.
pub open spec fn decks_differ(a: Option<crate::track::Track>, b: Option<crate::track::Track>) -> bool {
    match (a, b) {
        (Some(x), Some(y)) => x.id != y.id,
        _ => false,
    }
}

impl App {
    /// What the test mix waits for, as things stand.
    pub fn test_mix_env(&self, info: &crate::deck::NowPlaying) -> (env: TestMixEnv)
        requires
            self.wf(),
        ensures
            env.listed == (self.nav@.screen().labels@.len() > 2
                && self.nav@.screen().is_tracks()),
            env.both_ready == decks_differ(info.deck_a.track, info.deck_b.track),
    {
        let screen: &crate::catalog::BrowseScreen = self.nav.current_screen();
        let listed: bool = screen.item_count() > 2 && screen.tracks().is_some();
        let both_ready: bool = match (&info.deck_a.track, &info.deck_b.track) {
            (Some(x), Some(y)) => x.id != y.id,
            _ => false,
        };
        TestMixEnv { listed, both_ready }
    }
}

} // verus!
