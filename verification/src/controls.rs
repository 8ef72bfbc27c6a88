//! The parts of the dashboard that can be focused or cycled: layouts, panel
//! sections, deck controls and waveform modes.
use vstd::prelude::*;

verus! {

/// Overall dashboard layout. `Full` stacks every section under the controller;
/// `Panel` shows just one of them, so that the dashboard stays short.
#[derive(Debug, Clone, Copy, PartialEq, Eq, Structural)]
pub enum DashLayout {
    Full,
    Panel,
}

impl Default for DashLayout {
    fn default() -> (l: DashLayout)
        ensures
            l == DashLayout::Full,
    {
        DashLayout::Full
    }
}

/// Which section the `Panel` layout shows below the controller.
#[derive(Debug, Clone, Copy, PartialEq, Eq, Structural)]
pub enum PanelSection {
    Queue,
    History,
    Browse,
    Log,
}

impl Default for PanelSection {
    fn default() -> (s: PanelSection)
        ensures
            s == PanelSection::Queue,
    {
        PanelSection::Queue
    }
}

impl PanelSection {
    /// The position in the cycle Queue → History → Browse → Log.
    pub open spec fn position(self) -> int {
        match self {
            PanelSection::Queue => 0,
            PanelSection::History => 1,
            PanelSection::Browse => 2,
            PanelSection::Log => 3,
        }
    }

    /// Order: Queue → History → Browse → Log → Queue (wraps).
    pub fn next(self) -> (n: PanelSection)
        ensures
            n.position() == (self.position() + 1) % 4,
    {
        match self {
            PanelSection::Queue => PanelSection::History,
            PanelSection::History => PanelSection::Browse,
            PanelSection::Browse => PanelSection::Log,
            PanelSection::Log => PanelSection::Queue,
        }
    }

    pub open spec fn spec_label(self) -> &'static str {
        match self {
            PanelSection::Queue => "queue",
            PanelSection::History => "history",
            PanelSection::Browse => "browse",
            PanelSection::Log => "log",
        }
    }

    pub fn label(self) -> (s: &'static str)
        ensures
            s == self.spec_label(),
    {
        match self {
            PanelSection::Queue => "queue",
            PanelSection::History => "history",
            PanelSection::Browse => "browse",
            PanelSection::Log => "log",
        }
    }
}

/// A control of the controller panel that can have the focus. Left side first,
/// then the crossfader, then the right side mirrored.
#[derive(Debug, Clone, Copy, PartialEq, Eq, Structural)]
pub enum CtrlSection {
    TempoA,
    VolumeA,
    CueA,
    PlayA,
    JumpA,
    NudgeA,
    EqLowA,
    EqMidA,
    EqHighA,
    FilterA,
    Crossfader,
    EqLowB,
    EqMidB,
    EqHighB,
    FilterB,
    NudgeB,
    JumpB,
    PlayB,
    CueB,
    VolumeB,
    TempoB,
}

impl CtrlSection {
    /// The position in the focus cycle.
    pub open spec fn position(self) -> int {
        match self {
            CtrlSection::TempoA => 0,
            CtrlSection::VolumeA => 1,
            CtrlSection::CueA => 2,
            CtrlSection::PlayA => 3,
            CtrlSection::JumpA => 4,
            CtrlSection::NudgeA => 5,
            CtrlSection::EqLowA => 6,
            CtrlSection::EqMidA => 7,
            CtrlSection::EqHighA => 8,
            CtrlSection::FilterA => 9,
            CtrlSection::Crossfader => 10,
            CtrlSection::EqLowB => 11,
            CtrlSection::EqMidB => 12,
            CtrlSection::EqHighB => 13,
            CtrlSection::FilterB => 14,
            CtrlSection::NudgeB => 15,
            CtrlSection::JumpB => 16,
            CtrlSection::PlayB => 17,
            CtrlSection::CueB => 18,
            CtrlSection::VolumeB => 19,
            CtrlSection::TempoB => 20,
        }
    }

    pub open spec fn spec_display_name(self) -> &'static str {
        match self {
            CtrlSection::TempoA => "tempo A",
            CtrlSection::VolumeA => "volume A",
            CtrlSection::CueA => "cue A",
            CtrlSection::PlayA => "play A",
            CtrlSection::JumpA => "jump A",
            CtrlSection::NudgeA => "nudge A",
            CtrlSection::EqLowA => "EQ low A",
            CtrlSection::EqMidA => "EQ mid A",
            CtrlSection::EqHighA => "EQ high A",
            CtrlSection::FilterA => "filter A",
            CtrlSection::Crossfader => "crossfader",
            CtrlSection::EqLowB => "EQ low B",
            CtrlSection::EqMidB => "EQ mid B",
            CtrlSection::EqHighB => "EQ high B",
            CtrlSection::FilterB => "filter B",
            CtrlSection::NudgeB => "nudge B",
            CtrlSection::JumpB => "jump B",
            CtrlSection::PlayB => "play B",
            CtrlSection::CueB => "cue B",
            CtrlSection::VolumeB => "volume B",
            CtrlSection::TempoB => "tempo B",
        }
    }

    /// Human-readable label for the controller title bar.
    pub fn display_name(self) -> (s: &'static str)
        ensures
            s == self.spec_display_name(),
    {
        match self {
            CtrlSection::TempoA => "tempo A",
            CtrlSection::VolumeA => "volume A",
            CtrlSection::CueA => "cue A",
            CtrlSection::PlayA => "play A",
            CtrlSection::JumpA => "jump A",
            CtrlSection::NudgeA => "nudge A",
            CtrlSection::EqLowA => "EQ low A",
            CtrlSection::EqMidA => "EQ mid A",
            CtrlSection::EqHighA => "EQ high A",
            CtrlSection::FilterA => "filter A",
            CtrlSection::Crossfader => "crossfader",
            CtrlSection::EqLowB => "EQ low B",
            CtrlSection::EqMidB => "EQ mid B",
            CtrlSection::EqHighB => "EQ high B",
            CtrlSection::FilterB => "filter B",
            CtrlSection::NudgeB => "nudge B",
            CtrlSection::JumpB => "jump B",
            CtrlSection::PlayB => "play B",
            CtrlSection::CueB => "cue B",
            CtrlSection::VolumeB => "volume B",
            CtrlSection::TempoB => "tempo B",
        }
    }

    /// Cycle order is left-to-right, top-to-bottom: all of A's rows, then the
    /// crossfader, then mirrored on B.
    pub fn next(self) -> (n: CtrlSection)
        ensures
            n.position() == (self.position() + 1) % 21,
    {
        match self {
            CtrlSection::TempoA => CtrlSection::VolumeA,
            CtrlSection::VolumeA => CtrlSection::CueA,
            CtrlSection::CueA => CtrlSection::PlayA,
            CtrlSection::PlayA => CtrlSection::JumpA,
            CtrlSection::JumpA => CtrlSection::NudgeA,
            CtrlSection::NudgeA => CtrlSection::EqLowA,
            CtrlSection::EqLowA => CtrlSection::EqMidA,
            CtrlSection::EqMidA => CtrlSection::EqHighA,
            CtrlSection::EqHighA => CtrlSection::FilterA,
            CtrlSection::FilterA => CtrlSection::Crossfader,
            CtrlSection::Crossfader => CtrlSection::EqLowB,
            CtrlSection::EqLowB => CtrlSection::EqMidB,
            CtrlSection::EqMidB => CtrlSection::EqHighB,
            CtrlSection::EqHighB => CtrlSection::FilterB,
            CtrlSection::FilterB => CtrlSection::NudgeB,
            CtrlSection::NudgeB => CtrlSection::JumpB,
            CtrlSection::JumpB => CtrlSection::PlayB,
            CtrlSection::PlayB => CtrlSection::CueB,
            CtrlSection::CueB => CtrlSection::VolumeB,
            CtrlSection::VolumeB => CtrlSection::TempoB,
            CtrlSection::TempoB => CtrlSection::TempoA,
        }
    }

    pub fn prev(self) -> (p: CtrlSection)
        ensures
            p.position() == (self.position() + 20) % 21,
    {
        match self {
            CtrlSection::TempoA => CtrlSection::TempoB,
            CtrlSection::VolumeA => CtrlSection::TempoA,
            CtrlSection::CueA => CtrlSection::VolumeA,
            CtrlSection::PlayA => CtrlSection::CueA,
            CtrlSection::JumpA => CtrlSection::PlayA,
            CtrlSection::NudgeA => CtrlSection::JumpA,
            CtrlSection::EqLowA => CtrlSection::NudgeA,
            CtrlSection::EqMidA => CtrlSection::EqLowA,
            CtrlSection::EqHighA => CtrlSection::EqMidA,
            CtrlSection::FilterA => CtrlSection::EqHighA,
            CtrlSection::Crossfader => CtrlSection::FilterA,
            CtrlSection::EqLowB => CtrlSection::Crossfader,
            CtrlSection::EqMidB => CtrlSection::EqLowB,
            CtrlSection::EqHighB => CtrlSection::EqMidB,
            CtrlSection::FilterB => CtrlSection::EqHighB,
            CtrlSection::NudgeB => CtrlSection::FilterB,
            CtrlSection::JumpB => CtrlSection::NudgeB,
            CtrlSection::PlayB => CtrlSection::JumpB,
            CtrlSection::CueB => CtrlSection::PlayB,
            CtrlSection::VolumeB => CtrlSection::CueB,
            CtrlSection::TempoB => CtrlSection::VolumeB,
        }
    }

    pub open spec fn spec_label(self) -> &'static str {
        match self {
            CtrlSection::TempoA => "TempoA",
            CtrlSection::VolumeA => "VolumeA",
            CtrlSection::CueA => "CueA",
            CtrlSection::PlayA => "PlayA",
            CtrlSection::JumpA => "JumpA",
            CtrlSection::NudgeA => "NudgeA",
            CtrlSection::EqLowA => "EqLowA",
            CtrlSection::EqMidA => "EqMidA",
            CtrlSection::EqHighA => "EqHighA",
            CtrlSection::FilterA => "FilterA",
            CtrlSection::Crossfader => "Crossfader",
            CtrlSection::EqLowB => "EqLowB",
            CtrlSection::EqMidB => "EqMidB",
            CtrlSection::EqHighB => "EqHighB",
            CtrlSection::FilterB => "FilterB",
            CtrlSection::NudgeB => "NudgeB",
            CtrlSection::JumpB => "JumpB",
            CtrlSection::PlayB => "PlayB",
            CtrlSection::CueB => "CueB",
            CtrlSection::VolumeB => "VolumeB",
            CtrlSection::TempoB => "TempoB",
        }
    }

    /// Stable name for status output, so that external scripts can assert
    /// which control has the focus.
    pub fn label(self) -> (s: &'static str)
        ensures
            s == self.spec_label(),
    {
        match self {
            CtrlSection::TempoA => "TempoA",
            CtrlSection::VolumeA => "VolumeA",
            CtrlSection::CueA => "CueA",
            CtrlSection::PlayA => "PlayA",
            CtrlSection::JumpA => "JumpA",
            CtrlSection::NudgeA => "NudgeA",
            CtrlSection::EqLowA => "EqLowA",
            CtrlSection::EqMidA => "EqMidA",
            CtrlSection::EqHighA => "EqHighA",
            CtrlSection::FilterA => "FilterA",
            CtrlSection::Crossfader => "Crossfader",
            CtrlSection::EqLowB => "EqLowB",
            CtrlSection::EqMidB => "EqMidB",
            CtrlSection::EqHighB => "EqHighB",
            CtrlSection::FilterB => "FilterB",
            CtrlSection::NudgeB => "NudgeB",
            CtrlSection::JumpB => "JumpB",
            CtrlSection::PlayB => "PlayB",
            CtrlSection::CueB => "CueB",
            CtrlSection::VolumeB => "VolumeB",
            CtrlSection::TempoB => "TempoB",
        }
    }
}

/// What the stacked waveform rows show.
#[derive(Debug, Clone, Copy, PartialEq, Eq, Structural)]
pub enum WaveformMode {
    Phrase,
    Audio,
    Off,
}

impl WaveformMode {
    pub open spec fn position(self) -> int {
        match self {
            WaveformMode::Phrase => 0,
            WaveformMode::Audio => 1,
            WaveformMode::Off => 2,
        }
    }

    pub fn next(self) -> (n: WaveformMode)
        ensures
            n.position() == (self.position() + 1) % 3,
    {
        match self {
            WaveformMode::Phrase => WaveformMode::Audio,
            WaveformMode::Audio => WaveformMode::Off,
            WaveformMode::Off => WaveformMode::Phrase,
        }
    }

    pub open spec fn spec_label(self) -> &'static str {
        match self {
            WaveformMode::Phrase => "phrase",
            WaveformMode::Audio => "audio",
            WaveformMode::Off => "off",
        }
    }

    pub fn label(self) -> (s: &'static str)
        ensures
            s == self.spec_label(),
    {
        match self {
            WaveformMode::Phrase => "phrase",
            WaveformMode::Audio => "audio",
            WaveformMode::Off => "off",
        }
    }
}

/// A control is fixed by its position in the focus cycle, so `next` and `prev`
/// undo each other and 21 steps come back to the start.
pub proof fn ctrl_position_determines(a: CtrlSection, b: CtrlSection)
    requires
        a.position() == b.position(),
    ensures
        a == b,
{
}

/// A panel section is fixed by its position, so four steps come back to the
/// start.
pub proof fn panel_position_determines(a: PanelSection, b: PanelSection)
    requires
        a.position() == b.position(),
    ensures
        a == b,
{
}

/// A waveform mode is fixed by its position, so three steps come back to the
/// start.
pub proof fn waveform_position_determines(a: WaveformMode, b: WaveformMode)
    requires
        a.position() == b.position(),
    ensures
        a == b,
{
}

/// Which part of the dashboard the keys go to.
#[derive(Debug, Clone, Copy, PartialEq, Eq, Structural)]
pub enum DashFocus {
    Controller,
    Queue,
    History,
    Browse,
    Log,
}

impl DashFocus {
    pub open spec fn spec_next(self) -> DashFocus {
        match self {
            DashFocus::Controller => DashFocus::Queue,
            DashFocus::Queue => DashFocus::History,
            DashFocus::History => DashFocus::Browse,
            DashFocus::Browse => DashFocus::Log,
            DashFocus::Log => DashFocus::Controller,
        }
    }

    /// Order: Controller → Queue → History → Browse → Log → Controller (wraps).
    #[verifier::when_used_as_spec(spec_next)]
    pub fn next(self) -> (n: DashFocus)
        ensures
            n == self.spec_next(),
    {
        match self {
            DashFocus::Controller => DashFocus::Queue,
            DashFocus::Queue => DashFocus::History,
            DashFocus::History => DashFocus::Browse,
            DashFocus::Browse => DashFocus::Log,
            DashFocus::Log => DashFocus::Controller,
        }
    }
}

/// Five steps lead through every part of the dashboard and back.
pub proof fn focus_cycles(f: DashFocus)
    ensures
        f.spec_next().spec_next().spec_next().spec_next().spec_next() == f,
        f.spec_next() != f,
{
}

} // verus!
