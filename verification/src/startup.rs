//! The question at the start, and lines of the command prompt.
use crate::app::App;
use crate::config::ResumeBehavior;
use crate::effects::{add_text, fx_view, no_effects, only_toast, Effect, EffectV, TextAct};
use crate::modals::{
    apply_resume, resume_order, resume_positions, resume_question, resume_toast, session_size,
    ResumePlan, SessionSnapshot,
};
use crate::text::{concat2, decimal, first_char, owned, trim, trimmed};
use crate::track::Track;
use vstd::prelude::*;
use vstd::string::*;

verus! {

/// What becomes of a saved session at the start: it is left, asked about, or taken
/// up.
pub open spec fn startup_done(a: App, b: App, fx: Seq<EffectV>, saved: Option<SessionSnapshot>) -> bool {
    match saved {
        None => b == a && fx.len() == 0,
        Some(s) => match a.config.resume_behavior {
            ResumeBehavior::Never => b == a && fx.len() == 0,
            ResumeBehavior::Ask => b == App { session: Some(s), asks_resume: true, ..a } && fx
                == seq![EffectV::Toast(resume_question(s), 600_000)],
            ResumeBehavior::Always => {
                &&& b == App {
                    asks_resume: false,
                    session: None,
                    positions: b.positions,
                    to_queue: b.to_queue,
                    ..a
                }
                &&& b.positions@ == a.positions@ + resume_positions(s)
                &&& b.to_queue@ == a.to_queue@ + resume_order(s)
                &&& fx == (if session_size(s) > 0 {
                    seq![
                        EffectV::Toast("Resumed: "@ + decimal(session_size(s)) + " tracks"@, 2500),
                    ]
                } else {
                    Seq::empty()
                })
            },
        },
    }
}

impl App {
    /// Looks at the saved session at the start.
    pub fn check_startup_resume(&mut self, saved: Option<SessionSnapshot>) -> (fx: Vec<Effect>)
        requires
            old(self).wf(),
        ensures
            final(self).wf(),
            startup_done(*old(self), *final(self), fx_view(fx@), saved),
    {
        match saved {
            None => no_effects(),
            Some(s) => match self.config.resume_behavior {
                ResumeBehavior::Never => no_effects(),
                ResumeBehavior::Ask => {
                    let mut fx: Vec<Effect> = Vec::new();
                    fx.push(resume_toast(&s));
                    assert(fx_view(fx@) =~= seq![EffectV::Toast(resume_question(s), 600_000)]);
                    self.session = Some(s);
                    self.asks_resume = true;
                    fx
                },
                ResumeBehavior::Always => {
                    let plan: ResumePlan = apply_resume(s);
                    let ResumePlan { tracks, positions, toast } = plan;
                    let mut tracks: Vec<Track> = tracks;
                    let mut positions: Vec<(i64, u64)> = positions;
                    self.positions.append(&mut positions);
                    self.to_queue.append(&mut tracks);
                    self.session = None;
                    self.asks_resume = false;
                    toast
                },
            },
        }
    }
}

/// Whether `serde_json` reads a text as JSON.
pub uninterp spec fn reads_as_json(text: Seq<char>) -> bool;

/// `serde_json::from_str` into a `serde_json::Value`: whether the whole text is
/// one JSON value. Which texts are is left to that crate; the answer depends on
/// the text alone.
#[verifier::external_body]
fn is_json(text: &str) -> (b: bool)
    ensures
        b == reads_as_json(text@),
{
    serde_json::from_str::<serde_json::Value>(text).is_ok()
}

/// A line of the prompt is JSON by itself where it opens a brace.
pub open spec fn opens_brace(line: Seq<char>) -> bool {
    trim(line).len() > 0 && trim(line)[0] == '{'
}

/// The command that a line stands for: itself, or the long form of its shorthand.
pub open spec fn prompt_command(line: Seq<char>, long: Seq<char>) -> Seq<char> {
    if opens_brace(line) {
        line
    } else {
        long
    }
}

pub fn prompt_command_of(line: &str, long: &str) -> (s: String)
    ensures
        s@ == prompt_command(line@, long@),
{
    let t: String = trimmed(line);
    let brace: bool = match first_char(t.as_str()) {
        Some(c) => c == '{',
        None => false,
    };
    if brace {
        owned(line)
    } else {
        owned(long)
    }
}

/// What a line leads to: the command goes to the command file, where it is one.
pub open spec fn submit_effects(line: Seq<char>, command: Seq<char>, valid: bool) -> Seq<EffectV> {
    if valid {
        seq![EffectV::With(TextAct::WriteCommand, command)]
    } else {
        seq![EffectV::Toast("Bad command: "@ + line, 2000)]
    }
}

pub fn submit_checked(line: &str, command: &str, valid: bool) -> (fx: Vec<Effect>)
    ensures
        fx_view(fx@) == submit_effects(line@, command@, valid),
{
    if valid {
        let mut fx: Vec<Effect> = no_effects();
        add_text(&mut fx, TextAct::WriteCommand, command);
        assert(fx_view(fx@) =~= submit_effects(line@, command@, valid));
        fx
    } else {
        only_toast(concat2("Bad command: ", line).as_str(), 2000)
    }
}

/// Submits a line of the prompt; `long` is the long form of its shorthand. What is
/// no JSON is never written.
pub fn submit_command_prompt(line: &str, long: &str) -> (fx: Vec<Effect>)
    ensures
        fx_view(fx@) == submit_effects(
            line@,
            prompt_command(line@, long@),
            reads_as_json(prompt_command(line@, long@)),
        ),
{
    let command: String = prompt_command_of(line, long);
    let valid: bool = is_json(command.as_str());
    submit_checked(line, command.as_str(), valid)
}

/// What is said once a command was written, or could not be.
pub fn command_written(line: &str, error: &Option<String>) -> (fx: Vec<Effect>)
    ensures
        fx_view(fx@) == (match *error {
            None => seq![EffectV::Toast(":"@ + line@, 1000)],
            Some(e) => seq![EffectV::Toast("Command write failed: "@ + e@, 2000)],
        }),
{
    match error {
        None => only_toast(concat2(":", line).as_str(), 1000),
        Some(e) => only_toast(concat2("Command write failed: ", e.as_str()).as_str(), 2000),
    }
}

/// What cannot be read is not written.
pub proof fn bad_commands_are_not_written(line: Seq<char>, command: Seq<char>)
    ensures
        submit_effects(line, command, false).len() == 1,
        submit_effects(line, command, false)[0] is Toast,
{
}

} // verus!
