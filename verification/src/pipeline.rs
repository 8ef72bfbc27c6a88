//! Getting a track ready to play or to preview: fetch it, analyse it, let the
//! AI correct the analysis, and report.
use crate::download::{corrected_beat, corrected_bpm, detected_phrases_win, refined_beat};
use crate::text::{concat2, concat3, decimal, decimal_str, owned};
use vstd::prelude::*;
use vstd::string::*;

verus! {

/// What a job waits for.
#[derive(Debug, Clone, Copy, PartialEq, Eq, Structural)]
pub enum Stage {
    /// A file of the local library.
    Reading,
    /// The place to download from.
    Sourcing,
    Downloading,
    Analyzing,
    /// The corrections by the AI: first beat, grid, phrases.
    Beat,
    Grid,
    Phrases,
    Done,
}

/// What happened to a job. Texts are those of errors.
pub enum Event {
    Read { bytes: u64, tenths: u64 },
    ReadFailed(String),
    /// The reading task was lost.
    ReadLost(String),
    /// A place to download from: a file, or a stream.
    Source { file: bool },
    SourceFailed(String),
    Downloaded { bytes: u64, tenths: u64 },
    DownloadFailed(String),
    Analysis { first_us: i64, bpm: u32, phrases: usize },
    AnalysisFailed(String),
    AnalysisLost(String),
    Beat(i64),
    Grid { first: Option<i64>, bpm: Option<u32> },
    GridFailed,
    /// How many phrases were detected.
    Phrases(usize),
    PhrasesFailed,
}

/// What a job reports.
pub enum Message {
    Toast(String),
    Failed(String),
    /// The track can play; or be previewed.
    Decoded,
    PreviewReady,
}

#[verifier::ext_equal]
pub enum MessageV {
    Toast(Seq<char>),
    Failed(Seq<char>),
    Decoded,
    PreviewReady,
}

impl View for Message {
    type V = MessageV;

    open spec fn view(&self) -> MessageV {
        match *self {
            Message::Toast(s) => MessageV::Toast(s@),
            Message::Failed(s) => MessageV::Failed(s@),
            Message::Decoded => MessageV::Decoded,
            Message::PreviewReady => MessageV::PreviewReady,
        }
    }
}

pub open spec fn messages(v: Seq<Message>) -> Seq<MessageV> {
    Seq::new(v.len(), |i: int| v[i]@)
}

/// A track on its way to a deck.
pub struct Job {
    pub stage: Stage,
    /// The track in messages.
    pub name: String,
    pub ai_beat: bool,
    pub ai_grid: bool,
    pub ai_phrases: bool,
    /// The beat grid: the first beat in microseconds, the tempo in thousandths.
    pub first_us: i64,
    pub bpm: u32,
    /// How many phrases are known, and whether they are the detected ones.
    pub phrases: usize,
    pub detected: bool,
}

/// The stage after one of the analysis.
pub open spec fn next_stage(job: Job, at: Stage) -> Stage {
    if at is Analyzing && job.ai_beat {
        Stage::Beat
    } else if (at is Analyzing || at is Beat) && job.ai_grid {
        Stage::Grid
    } else if !(at is Phrases) && job.ai_phrases {
        Stage::Phrases
    } else {
        Stage::Done
    }
}

/// A job that goes on with the corrections, or is done.
pub open spec fn advanced(job: Job, at: Stage, said: Seq<MessageV>) -> (Job, Seq<MessageV>) {
    let next = next_stage(job, at);
    (
        Job { stage: next, ..job },
        if next is Done {
            said.push(MessageV::Decoded)
        } else {
            said
        },
    )
}

pub open spec fn failed(job: Job, what: Seq<char>, e: Seq<char>) -> (Job, Seq<MessageV>) {
    (Job { stage: Stage::Done, ..job }, seq![MessageV::Failed(what + e)])
}

pub open spec fn analyzing_text(name: Seq<char>, bytes: u64, tenths: u64) -> Seq<char> {
    "Analyzing "@ + name + " ("@ + decimal((bytes / 1024) as nat) + "KB in "@ + decimal(
        (tenths / 10) as nat,
    ) + "."@ + decimal((tenths % 10) as nat) + "s)"@
}

/// A job after an event, and what it reports. An event that it does not wait
/// for is passed over.
pub open spec fn after(job: Job, ev: Event) -> (Job, Seq<MessageV>) {
    let none = Seq::<MessageV>::empty();
    match (job.stage, ev) {
        (Stage::Reading, Event::Read { bytes, tenths }) => (
            Job { stage: Stage::Analyzing, ..job },
            seq![MessageV::Toast(analyzing_text(job.name@, bytes, tenths))],
        ),
        (Stage::Reading, Event::ReadFailed(e)) => failed(job, "Local file read: "@, e@),
        (Stage::Reading, Event::ReadLost(e)) => failed(job, "Task panicked: "@, e@),
        (Stage::Sourcing, Event::Source { file }) => (
            Job { stage: Stage::Downloading, ..job },
            seq![
                MessageV::Toast(
                    "⬇ "@ + job.name@ + " ("@ + (if file {
                        "FLAC"@
                    } else {
                        "HLS"@
                    }) + ")"@,
                ),
            ],
        ),
        (Stage::Sourcing, Event::SourceFailed(e)) => failed(job, "Source error: "@, e@),
        (Stage::Downloading, Event::Downloaded { bytes, tenths }) => (
            Job { stage: Stage::Analyzing, ..job },
            seq![MessageV::Toast(analyzing_text(job.name@, bytes, tenths))],
        ),
        (Stage::Downloading, Event::DownloadFailed(e)) => failed(job, "Download: "@, e@),
        (Stage::Analyzing, Event::Analysis { first_us, bpm, phrases }) => advanced(
            Job { first_us, bpm, phrases, ..job },
            Stage::Analyzing,
            if job.ai_beat || job.ai_grid || job.ai_phrases {
                seq![MessageV::Toast("AI analysis: "@ + job.name@)]
            } else {
                none
            },
        ),
        (Stage::Analyzing, Event::AnalysisFailed(e)) => failed(job, "Analysis: "@, e@),
        (Stage::Analyzing, Event::AnalysisLost(e)) => failed(job, "Task: "@, e@),
        (Stage::Beat, Event::Beat(t)) => advanced(
            Job {
                first_us: if -1000 <= t - job.first_us <= 1000 {
                    job.first_us
                } else {
                    t
                },
                ..job
            },
            Stage::Beat,
            none,
        ),
        (Stage::Grid, Event::Grid { first, bpm }) => advanced(
            Job {
                first_us: match first {
                    Some(c) => if -3000 <= c <= 3000 {
                        job.first_us
                    } else {
                        (job.first_us + c) as i64
                    },
                    None => job.first_us,
                },
                bpm: match bpm {
                    Some(c) => if -100 <= c - job.bpm <= 100 {
                        job.bpm
                    } else {
                        c
                    },
                    None => job.bpm,
                },
                ..job
            },
            Stage::Grid,
            none,
        ),
        (Stage::Grid, Event::GridFailed) => advanced(job, Stage::Grid, none),
        (Stage::Phrases, Event::Phrases(n)) => advanced(
            if n > 0 && n >= job.phrases {
                Job { phrases: n, detected: true, ..job }
            } else {
                job
            },
            Stage::Phrases,
            none,
        ),
        (Stage::Phrases, Event::PhrasesFailed) => advanced(job, Stage::Phrases, none),
        _ => (job, none),
    }
}

/// The grid can be moved as an event asks.
pub open spec fn can_move(job: Job, ev: Event) -> bool {
    match ev {
        Event::Grid { first: Some(c), bpm: _ } => i64::MIN <= job.first_us + c <= i64::MAX,
        _ => true,
    }
}

fn analyzing_str(name: &str, bytes: u64, tenths: u64) -> (s: String)
    ensures
        s@ == analyzing_text(name@, bytes, tenths),
{
    let s: String = concat3("Analyzing ", name, " (");
    let s: String = concat3(s.as_str(), decimal_str(bytes / 1024).as_str(), "KB in ");
    let s: String = concat3(s.as_str(), decimal_str(tenths / 10).as_str(), ".");
    concat3(s.as_str(), decimal_str(tenths % 10).as_str(), "s)")
}

fn one(m: Message) -> (v: Vec<Message>)
    ensures
        messages(v@) == seq![m@],
{
    let v: Vec<Message> = vec![m];
    assert(messages(v@) =~= seq![m@]);
    v
}

impl Job {
    /// A track to fetch: from the local library, or from the catalogue. Says so
    /// at once.
    pub fn start(name: &str, local: bool, ai_beat: bool, ai_grid: bool, ai_phrases: bool) -> (r: (
        Job,
        Vec<Message>,
    ))
        ensures
            r.0.stage == (if local {
                Stage::Reading
            } else {
                Stage::Sourcing
            }),
            r.0.name@ == name@,
            r.0.ai_beat == ai_beat,
            r.0.ai_grid == ai_grid,
            r.0.ai_phrases == ai_phrases,
            r.0.first_us == 0 && r.0.bpm == 0 && r.0.phrases == 0 && !r.0.detected,
            messages(r.1@) == (if local {
                seq![
                    MessageV::Toast("⬇ "@ + name@),
                    MessageV::Toast("📂 "@ + name@ + " (LOCAL)"@),
                ]
            } else {
                seq![MessageV::Toast("⬇ "@ + name@)]
            }),
    {
        let mut said: Vec<Message> = Vec::new();
        said.push(Message::Toast(concat2("⬇ ", name)));
        if local {
            said.push(Message::Toast(concat3("📂 ", name, " (LOCAL)")));
        }
        let job: Job = Job {
            stage: if local {
                Stage::Reading
            } else {
                Stage::Sourcing
            },
            name: owned(name),
            ai_beat,
            ai_grid,
            ai_phrases,
            first_us: 0,
            bpm: 0,
            phrases: 0,
            detected: false,
        };
        assert(messages(said@) =~= (if local {
            seq![
                MessageV::Toast("⬇ "@ + name@),
                MessageV::Toast("📂 "@ + name@ + " (LOCAL)"@),
            ]
        } else {
            seq![MessageV::Toast("⬇ "@ + name@)]
        }));
        (job, said)
    }

    fn advance(&mut self, at: Stage, said: Vec<Message>) -> (out: Vec<Message>)
        ensures
            (*final(self), messages(out@)) == advanced(*old(self), at, messages(said@)),
    {
        let next: Stage = if at == Stage::Analyzing && self.ai_beat {
            Stage::Beat
        } else if (at == Stage::Analyzing || at == Stage::Beat) && self.ai_grid {
            Stage::Grid
        } else if at != Stage::Phrases && self.ai_phrases {
            Stage::Phrases
        } else {
            Stage::Done
        };
        self.stage = next;
        let mut out: Vec<Message> = said;
        let ghost before = messages(said@);
        if next == Stage::Done {
            out.push(Message::Decoded);
            assert(messages(out@) =~= before.push(MessageV::Decoded));
        }
        out
    }

    fn fail(&mut self, what: &str, e: &str) -> (out: Vec<Message>)
        ensures
            (*final(self), messages(out@)) == failed(*old(self), what@, e@),
    {
        self.stage = Stage::Done;
        one(Message::Failed(concat2(what, e)))
    }

    /// Takes an event and reports.
    pub fn take(&mut self, ev: Event) -> (out: Vec<Message>)
        requires
            can_move(*old(self), ev),
        ensures
            (*final(self), messages(out@)) == after(*old(self), ev),
    {
        let none: Vec<Message> = Vec::new();
        assert(messages(none@) =~= Seq::<MessageV>::empty());
        match (self.stage, ev) {
            (Stage::Reading, Event::Read { bytes, tenths }) => {
                self.stage = Stage::Analyzing;
                one(Message::Toast(analyzing_str(self.name.as_str(), bytes, tenths)))
            },
            (Stage::Reading, Event::ReadFailed(e)) => self.fail("Local file read: ", e.as_str()),
            (Stage::Reading, Event::ReadLost(e)) => self.fail("Task panicked: ", e.as_str()),
            (Stage::Sourcing, Event::Source { file }) => {
                self.stage = Stage::Downloading;
                let label: &str = if file {
                    "FLAC"
                } else {
                    "HLS"
                };
                let s: String = concat3("⬇ ", self.name.as_str(), " (");
                one(Message::Toast(concat3(s.as_str(), label, ")")))
            },
            (Stage::Sourcing, Event::SourceFailed(e)) => self.fail("Source error: ", e.as_str()),
            (Stage::Downloading, Event::Downloaded { bytes, tenths }) => {
                self.stage = Stage::Analyzing;
                one(Message::Toast(analyzing_str(self.name.as_str(), bytes, tenths)))
            },
            (Stage::Downloading, Event::DownloadFailed(e)) => self.fail("Download: ", e.as_str()),
            (Stage::Analyzing, Event::Analysis { first_us, bpm, phrases }) => {
                self.first_us = first_us;
                self.bpm = bpm;
                self.phrases = phrases;
                let said: Vec<Message> = if self.ai_beat || self.ai_grid || self.ai_phrases {
                    one(Message::Toast(concat2("AI analysis: ", self.name.as_str())))
                } else {
                    none
                };
                self.advance(Stage::Analyzing, said)
            },
            (Stage::Analyzing, Event::AnalysisFailed(e)) => self.fail("Analysis: ", e.as_str()),
            (Stage::Analyzing, Event::AnalysisLost(e)) => self.fail("Task: ", e.as_str()),
            (Stage::Beat, Event::Beat(t)) => {
                self.first_us = refined_beat(self.first_us, t);
                self.advance(Stage::Beat, none)
            },
            (Stage::Grid, Event::Grid { first, bpm }) => {
                self.first_us = corrected_beat(self.first_us, first);
                self.bpm = corrected_bpm(self.bpm, bpm);
                self.advance(Stage::Grid, none)
            },
            (Stage::Grid, Event::GridFailed) => self.advance(Stage::Grid, none),
            (Stage::Phrases, Event::Phrases(n)) => {
                if detected_phrases_win(n, self.phrases) {
                    self.phrases = n;
                    self.detected = true;
                }
                self.advance(Stage::Phrases, none)
            },
            (Stage::Phrases, Event::PhrasesFailed) => self.advance(Stage::Phrases, none),
            _ => none,
        }
    }
}

/// How far along a stage is.
pub open spec fn rank(s: Stage) -> int {
    match s {
        Stage::Reading => 0,
        Stage::Sourcing => 0,
        Stage::Downloading => 1,
        Stage::Analyzing => 2,
        Stage::Beat => 3,
        Stage::Grid => 4,
        Stage::Phrases => 5,
        Stage::Done => 6,
    }
}

/// A job never goes back, and every event that it reports on takes it further.
pub proof fn jobs_go_forward(job: Job, ev: Event)
    ensures
        rank(after(job, ev).0.stage) >= rank(job.stage),
        after(job, ev).1.len() > 0 ==> rank(after(job, ev).0.stage) > rank(job.stage),
{
}

/// A job that is done reports nothing more.
pub proof fn done_jobs_are_silent(job: Job, ev: Event)
    requires
        job.stage is Done,
    ensures
        after(job, ev) == (job, Seq::<MessageV>::empty()),
{
}

/// The end of a job: it failed, or the track can play.
pub open spec fn ends(m: MessageV) -> bool {
    m is Failed || m is Decoded
}

/// A job reports its end when it ends, once and last, and never before.
pub proof fn jobs_report_their_end_once(job: Job, ev: Event)
    ensures
        ({
            let (next, said) = after(job, ev);
            if next.stage is Done && !(job.stage is Done) {
                &&& said.len() > 0 && ends(said.last())
                &&& forall|i: int| 0 <= i < said.len() - 1 ==> !ends(#[trigger] said[i])
            } else {
                forall|i: int| 0 <= i < said.len() ==> !ends(#[trigger] said[i])
            }
        }),
{
}

/// A track is ready only when its job is done, and a job that fails is done
/// without it.
pub proof fn ready_means_done(job: Job, ev: Event)
    ensures
        after(job, ev).1.contains(MessageV::Decoded) ==> after(job, ev).0.stage is Done,
        (exists|e: Seq<char>| after(job, ev).1.contains(MessageV::Failed(e))) ==> after(
            job,
            ev,
        ).0.stage is Done && !after(job, ev).1.contains(MessageV::Decoded),
{
    let said = after(job, ev).1;
    if said.len() == 1 {
        assert(said[0] == said[0]);
    }
}

/// A preview after an event, and what it reports: no corrections are made, and
/// every failure is a message.
pub open spec fn preview_after(stage: Stage, ev: Event) -> (Stage, Seq<MessageV>) {
    let none = Seq::<MessageV>::empty();
    match (stage, ev) {
        (Stage::Reading, Event::Read { .. }) => (Stage::Analyzing, none),
        (Stage::Reading, Event::ReadFailed(e)) => (
            Stage::Done,
            seq![MessageV::Toast("Local read: "@ + e@)],
        ),
        (Stage::Reading, Event::ReadLost(_)) => (Stage::Done, none),
        (Stage::Sourcing, Event::Source { .. }) => (Stage::Downloading, none),
        (Stage::Sourcing, Event::SourceFailed(e)) => (
            Stage::Done,
            seq![MessageV::Toast("Source error: "@ + e@)],
        ),
        (Stage::Downloading, Event::Downloaded { .. }) => (Stage::Analyzing, none),
        (Stage::Downloading, Event::DownloadFailed(e)) => (
            Stage::Done,
            seq![MessageV::Toast("Download failed: "@ + e@)],
        ),
        (Stage::Analyzing, Event::Analysis { .. }) => (Stage::Done, seq![MessageV::PreviewReady]),
        (Stage::Analyzing, Event::AnalysisFailed(e)) => (
            Stage::Done,
            seq![MessageV::Toast("Analysis failed: "@ + e@)],
        ),
        (Stage::Analyzing, Event::AnalysisLost(e)) => (
            Stage::Done,
            seq![MessageV::Toast("Task failed: "@ + e@)],
        ),
        _ => (stage, none),
    }
}

fn say(what: &str, e: &str) -> (v: Vec<Message>)
    ensures
        messages(v@) == seq![MessageV::Toast(what@ + e@)],
{
    one(Message::Toast(concat2(what, e)))
}

/// Takes an event of a preview and reports.
pub fn preview_take(stage: Stage, ev: &Event) -> (r: (Stage, Vec<Message>))
    ensures
        (r.0, messages(r.1@)) == preview_after(stage, *ev),
{
    let none: Vec<Message> = Vec::new();
    assert(messages(none@) =~= Seq::<MessageV>::empty());
    match (stage, ev) {
        (Stage::Reading, Event::Read { .. }) => (Stage::Analyzing, none),
        (Stage::Reading, Event::ReadFailed(e)) => (Stage::Done, say("Local read: ", e.as_str())),
        (Stage::Reading, Event::ReadLost(_)) => (Stage::Done, none),
        (Stage::Sourcing, Event::Source { .. }) => (Stage::Downloading, none),
        (Stage::Sourcing, Event::SourceFailed(e)) => (
            Stage::Done,
            say("Source error: ", e.as_str()),
        ),
        (Stage::Downloading, Event::Downloaded { .. }) => (Stage::Analyzing, none),
        (Stage::Downloading, Event::DownloadFailed(e)) => (
            Stage::Done,
            say("Download failed: ", e.as_str()),
        ),
        (Stage::Analyzing, Event::Analysis { .. }) => (Stage::Done, one(Message::PreviewReady)),
        (Stage::Analyzing, Event::AnalysisFailed(e)) => (
            Stage::Done,
            say("Analysis failed: ", e.as_str()),
        ),
        (Stage::Analyzing, Event::AnalysisLost(e)) => (
            Stage::Done,
            say("Task failed: ", e.as_str()),
        ),
        _ => (stage, none),
    }
}

} // verus!
