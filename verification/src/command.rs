//! The command registry: every named action with its title, help section,
//! default keys and the guard under which its keys fire.
use crate::text::{concat3, joined, str_eq};
use vstd::prelude::*;
use vstd::string::*;

verus! {

/// What a command does.
#[derive(Debug, Clone, Copy, PartialEq, Eq, Structural)]
pub enum CommandRun {
    ViewDashboard,
    ViewBrowse,
    ViewHistory,
    ViewSettings,
    ViewQueue,
    Quit,
    ToggleHelp,
    BailCrossfade,
    MixNow,
    ToggleSplitCue,
    ToggleMetronome,
    Pause,
    Skip,
    Teleport,
    RewindLast,
    CycleAnalyzer,
}

/// Under which state a key of the command fires.
#[derive(Debug, Clone, Copy, PartialEq, Eq, Structural)]
pub enum CommandWhen {
    Always,
    /// No modal, prompt or filter is capturing keystrokes.
    NoModalCapture,
    /// The same, and the dashboard is shown.
    DashboardNormal,
    /// The same, and the screen shown reads no keys of its own.
    FreeScreen,
}

pub struct Command {
    pub id: &'static str,
    pub title: &'static str,
    /// Section of the help overlay.
    pub group: &'static str,
    /// Default key specs; may be empty.
    pub keys: Vec<&'static str>,
    pub run: CommandRun,
    pub when: CommandWhen,
}

/// A command, by its contents.
#[verifier::ext_equal]
pub struct CommandV {
    pub id: &'static str,
    pub title: &'static str,
    pub group: &'static str,
    pub keys: Seq<&'static str>,
    pub run: CommandRun,
    pub when: CommandWhen,
}

impl View for Command {
    type V = CommandV;

    open spec fn view(&self) -> CommandV {
        CommandV {
            id: self.id,
            title: self.title,
            group: self.group,
            keys: self.keys@,
            run: self.run,
            when: self.when,
        }
    }
}

pub open spec fn commands_view(v: Seq<Command>) -> Seq<CommandV> {
    Seq::new(v.len(), |i: int| v[i]@)
}

/// The texts of a list of key specs.
pub open spec fn key_texts(keys: Seq<&'static str>) -> Seq<Seq<char>> {
    Seq::new(keys.len(), |i: int| keys[i]@)
}

impl Command {
    /// The keys in one text, as the help overlay shows them.
    pub fn key_hint(&self) -> (s: String)
        ensures
            s@ == joined(key_texts(self.keys@), " / "@),
    {
        let ghost all = key_texts(self.keys@);
        if self.keys.len() == 0 {
            return String::new();
        }
        let mut s: String = self.keys[0].to_owned();
        let mut i: usize = 1;
        assert(all.take(1).len() == 1);
        while i < self.keys.len()
            invariant
                1 <= i <= self.keys.len(),
                all == key_texts(self.keys@),
                s@ == joined(all.take(i as int), " / "@),
            decreases self.keys.len() - i,
        {
            assert(all.take(i + 1).drop_last() == all.take(i as int));
            assert(all.take(i + 1).last() == self.keys@[i as int]@);
            s = concat3(s.as_str(), " / ", self.keys[i]);
            i += 1;
        }
        assert(all.take(i as int) == all);
        s
    }
}

/// A command with at most one default key.
pub open spec fn command(
    id: &'static str,
    title: &'static str,
    group: &'static str,
    key: &'static str,
    run: CommandRun,
    when: CommandWhen,
) -> CommandV {
    CommandV { id, title, group, keys: seq![key], run, when }
}

/// The commands the application is built with.
pub open spec fn builtin() -> Seq<CommandV> {
    seq![
        command(
            "view.dashboard",
            "Dashboard (live mix view)",
            "VIEWS",
            "d",
            CommandRun::ViewDashboard,
            CommandWhen::FreeScreen,
        ),
        command(
            "view.browse",
            "Browse library",
            "VIEWS",
            "b",
            CommandRun::ViewBrowse,
            CommandWhen::FreeScreen,
        ),
        command(
            "view.history",
            "Play history",
            "VIEWS",
            "h",
            CommandRun::ViewHistory,
            CommandWhen::FreeScreen,
        ),
        command(
            "view.settings",
            "Settings",
            "VIEWS",
            ",",
            CommandRun::ViewSettings,
            CommandWhen::FreeScreen,
        ),
        command(
            "view.queue",
            "View queue",
            "VIEWS",
            "q",
            CommandRun::ViewQueue,
            CommandWhen::FreeScreen,
        ),
        CommandV {
            id: "app.quit",
            title: "Quit mixr",
            group: "APP",
            keys: Seq::empty(),
            run: CommandRun::Quit,
            when: CommandWhen::Always,
        },
        command(
            "view.help",
            "Toggle dashboard help legend",
            "VIEWS",
            "?",
            CommandRun::ToggleHelp,
            CommandWhen::DashboardNormal,
        ),
        command(
            "engine.bail_crossfade",
            "Bail crossfade (manual panic → EchoOut)",
            "PLAYBACK",
            "B",
            CommandRun::BailCrossfade,
            CommandWhen::DashboardNormal,
        ),
        command(
            "engine.mix_now",
            "Mix now (force crossfade)",
            "PLAYBACK",
            "m",
            CommandRun::MixNow,
            CommandWhen::NoModalCapture,
        ),
        command(
            "engine.toggle_split_cue",
            "Toggle split cue (A=L, B=R)",
            "PLAYBACK",
            "S",
            CommandRun::ToggleSplitCue,
            CommandWhen::NoModalCapture,
        ),
        command(
            "engine.toggle_metronome",
            "Toggle metronome",
            "PLAYBACK",
            "M",
            CommandRun::ToggleMetronome,
            CommandWhen::NoModalCapture,
        ),
        command(
            "engine.pause",
            "Play / pause",
            "PLAYBACK",
            "p",
            CommandRun::Pause,
            CommandWhen::NoModalCapture,
        ),
        command(
            "engine.skip",
            "Skip / next track",
            "PLAYBACK",
            "n",
            CommandRun::Skip,
            CommandWhen::NoModalCapture,
        ),
        command(
            "engine.teleport",
            "Teleport to mix point",
            "PLAYBACK",
            "t",
            CommandRun::Teleport,
            CommandWhen::NoModalCapture,
        ),
        command(
            "engine.rewind_last",
            "Rewind last mix (replay/experiment)",
            "PLAYBACK",
            "T",
            CommandRun::RewindLast,
            CommandWhen::NoModalCapture,
        ),
        command(
            "engine.cycle_analyzer",
            "Toggle analyzer engine + re-grid",
            "PLAYBACK",
            "G",
            CommandRun::CycleAnalyzer,
            CommandWhen::NoModalCapture,
        ),
    ]
}

fn add_command(
    v: &mut Vec<Command>,
    id: &'static str,
    title: &'static str,
    group: &'static str,
    key: &'static str,
    run: CommandRun,
    when: CommandWhen,
)
    ensures
        commands_view(final(v)@) == commands_view(old(v)@).push(
            command(id, title, group, key, run, when),
        ),
{
    let mut keys: Vec<&'static str> = Vec::new();
    keys.push(key);
    let c: Command = Command { id, title, group, keys, run, when };
    assert(c@ == command(id, title, group, key, run, when));
    v.push(c);
    assert(commands_view(v@) == commands_view(old(v)@).push(c@));
}

fn builtin_commands() -> (v: Vec<Command>)
    ensures
        commands_view(v@) == builtin(),
{
    let mut v: Vec<Command> = Vec::new();
    let free: CommandWhen = CommandWhen::NoModalCapture;
    let dash: CommandWhen = CommandWhen::DashboardNormal;
    let screen: CommandWhen = CommandWhen::FreeScreen;
    assert(commands_view(v@) == Seq::<CommandV>::empty());
    add_command(
        &mut v,
        "view.dashboard",
        "Dashboard (live mix view)",
        "VIEWS",
        "d",
        CommandRun::ViewDashboard,
        screen,
    );
    add_command(
        &mut v,
        "view.browse",
        "Browse library",
        "VIEWS",
        "b",
        CommandRun::ViewBrowse,
        screen,
    );
    add_command(
        &mut v,
        "view.history",
        "Play history",
        "VIEWS",
        "h",
        CommandRun::ViewHistory,
        screen,
    );
    add_command(
        &mut v,
        "view.settings",
        "Settings",
        "VIEWS",
        ",",
        CommandRun::ViewSettings,
        screen,
    );
    add_command(&mut v, "view.queue", "View queue", "VIEWS", "q", CommandRun::ViewQueue, screen);
    let quit: Command = Command {
        id: "app.quit",
        title: "Quit mixr",
        group: "APP",
        keys: Vec::new(),
        run: CommandRun::Quit,
        when: CommandWhen::Always,
    };
    let ghost before = commands_view(v@);
    v.push(quit);
    assert(commands_view(v@) == before.push(quit@));
    add_command(
        &mut v,
        "view.help",
        "Toggle dashboard help legend",
        "VIEWS",
        "?",
        CommandRun::ToggleHelp,
        dash,
    );
    add_command(
        &mut v,
        "engine.bail_crossfade",
        "Bail crossfade (manual panic → EchoOut)",
        "PLAYBACK",
        "B",
        CommandRun::BailCrossfade,
        dash,
    );
    add_command(
        &mut v,
        "engine.mix_now",
        "Mix now (force crossfade)",
        "PLAYBACK",
        "m",
        CommandRun::MixNow,
        free,
    );
    add_command(
        &mut v,
        "engine.toggle_split_cue",
        "Toggle split cue (A=L, B=R)",
        "PLAYBACK",
        "S",
        CommandRun::ToggleSplitCue,
        free,
    );
    add_command(
        &mut v,
        "engine.toggle_metronome",
        "Toggle metronome",
        "PLAYBACK",
        "M",
        CommandRun::ToggleMetronome,
        free,
    );
    add_command(
        &mut v,
        "engine.pause",
        "Play / pause",
        "PLAYBACK",
        "p",
        CommandRun::Pause,
        free,
    );
    add_command(
        &mut v,
        "engine.skip",
        "Skip / next track",
        "PLAYBACK",
        "n",
        CommandRun::Skip,
        free,
    );
    add_command(
        &mut v,
        "engine.teleport",
        "Teleport to mix point",
        "PLAYBACK",
        "t",
        CommandRun::Teleport,
        free,
    );
    add_command(
        &mut v,
        "engine.rewind_last",
        "Rewind last mix (replay/experiment)",
        "PLAYBACK",
        "T",
        CommandRun::RewindLast,
        free,
    );
    add_command(
        &mut v,
        "engine.cycle_analyzer",
        "Toggle analyzer engine + re-grid",
        "PLAYBACK",
        "G",
        CommandRun::CycleAnalyzer,
        free,
    );
    assert(commands_view(v@) == builtin());
    v
}

/// The table of all commands.
pub struct Registry {
    pub commands: Vec<Command>,
}

/// A command with that id exists.
pub open spec fn knows(commands: Seq<CommandV>, id: Seq<char>) -> bool {
    exists|i: int| 0 <= i < commands.len() && (#[trigger] commands[i]).id@ == id
}

/// The first command with that id.
pub open spec fn first_with(commands: Seq<CommandV>, id: Seq<char>) -> Option<CommandV>
    decreases commands.len(),
{
    if commands.len() == 0 {
        None
    } else if commands[0].id@ == id {
        Some(commands[0])
    } else {
        first_with(commands.skip(1), id)
    }
}

impl Registry {
    /// The command with that id.
    pub fn get(&self, id: &str) -> (r: Option<&Command>)
        ensures
            match r {
                Some(c) => c.id@ == id@ && commands_view(self.commands@).contains(c@) && first_with(
                    commands_view(self.commands@),
                    id@,
                ) == Some(c@),
                None => !knows(commands_view(self.commands@), id@) && first_with(
                    commands_view(self.commands@),
                    id@,
                ) is None,
            },
    {
        let ghost all = commands_view(self.commands@);
        let mut i: usize = 0;
        assert(all.skip(0) =~= all);
        while i < self.commands.len()
            invariant
                i <= self.commands.len(),
                all == commands_view(self.commands@),
                forall|j: int| 0 <= j < i ==> (#[trigger] all[j]).id@ != id@,
                first_with(all, id@) == first_with(all.skip(i as int), id@),
            decreases self.commands.len() - i,
        {
            assert(all[i as int] == self.commands@[i as int]@);
            assert(all.skip(i as int)[0] == all[i as int]);
            assert(all.skip(i as int).skip(1) =~= all.skip(i + 1));
            if str_eq(self.commands[i].id, id) {
                return Some(&self.commands[i]);
            }
            i += 1;
        }
        None
    }

    /// All commands, in their order.
    pub fn all(&self) -> (v: &Vec<Command>)
        ensures
            v@ == self.commands@,
    {
        &self.commands
    }
}

/// The registry of the built-in commands.
pub fn registry() -> (r: Registry)
    ensures
        commands_view(r.commands@) == builtin(),
{
    Registry { commands: builtin_commands() }
}

/// A row of the help overlay: keys, title, section.
#[verifier::ext_equal]
pub struct HelpRowV {
    pub keys: Seq<char>,
    pub title: &'static str,
    pub group: &'static str,
}

pub struct HelpRow {
    pub keys: String,
    pub title: &'static str,
    pub group: &'static str,
}

impl View for HelpRow {
    type V = HelpRowV;

    open spec fn view(&self) -> HelpRowV {
        HelpRowV { keys: self.keys@, title: self.title, group: self.group }
    }
}

pub open spec fn help_rows_view(v: Seq<HelpRow>) -> Seq<HelpRowV> {
    Seq::new(v.len(), |i: int| v[i]@)
}

pub open spec fn help_row(c: CommandV) -> HelpRowV {
    HelpRowV { keys: joined(key_texts(c.keys), " / "@), title: c.title, group: c.group }
}

/// The help rows of the commands that have keys, in order.
pub open spec fn rows_of(commands: Seq<CommandV>) -> Seq<HelpRowV>
    decreases commands.len(),
{
    if commands.len() == 0 {
        Seq::empty()
    } else if commands.last().keys.len() == 0 {
        rows_of(commands.drop_last())
    } else {
        rows_of(commands.drop_last()).push(help_row(commands.last()))
    }
}

pub fn help_rows() -> (rows: Vec<HelpRow>)
    ensures
        help_rows_view(rows@) == rows_of(builtin()),
{
    let reg: Registry = registry();
    let ghost all = commands_view(reg.commands@);
    let mut rows: Vec<HelpRow> = Vec::new();
    let mut i: usize = 0;
    assert(all.take(0) == Seq::<CommandV>::empty());
    assert(help_rows_view(rows@) == Seq::<HelpRowV>::empty());
    while i < reg.commands.len()
        invariant
            i <= reg.commands.len(),
            all == commands_view(reg.commands@),
            help_rows_view(rows@) == rows_of(all.take(i as int)),
        decreases reg.commands.len() - i,
    {
        let c: &Command = &reg.commands[i];
        assert(all.take(i + 1).drop_last() == all.take(i as int));
        assert(all.take(i + 1).last() == c@);
        if c.keys.len() > 0 {
            let ghost before = help_rows_view(rows@);
            let row: HelpRow = HelpRow { keys: c.key_hint(), title: c.title, group: c.group };
            assert(row@ == help_row(c@));
            rows.push(row);
            assert(help_rows_view(rows@) == before.push(row@));
        }
        i += 1;
    }
    assert(all.take(i as int) == all);
    rows
}

} // verus!
