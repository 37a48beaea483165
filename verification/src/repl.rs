//! The REPL session's decision logic: what to do with each line the user
//! enters, what to record in history, and what to print for each execution
//! result. The interactive loop itself (line editing, blocking reads,
//! history files) lives outside the library and only carries these
//! decisions out.

use vstd::prelude::*;

use crate::render::render_all;
use crate::script::ExecutionResult;
use crate::text::trim_end_spec;

verus! {

/// What the line editor handed the session for one iteration.
#[derive(Debug, PartialEq)]
pub enum ReplEvent {
    /// The user entered a line.
    Line { text: String },
    /// The user interrupted the session.
    Interrupted,
    /// The input stream ended.
    EndOfInput,
    /// Reading a line failed for any other reason.
    Failed { message: String },
}

/// What one iteration of the loop does.
#[derive(Debug, PartialEq)]
pub enum ReplStep {
    /// An empty line: skipped, not recorded in history.
    Skip,
    /// A non-empty line: record it in history, then execute it remotely as
    /// an ephemeral script.
    Execute { code: String },
    /// The session ends; print the notice and flush the history.
    Stop { notice: String },
}

/// The notice printed when the session is interrupted or the input ends.
pub open spec fn interrupted_notice() -> Seq<char> {
    "Interrupted"@
}

/// The notice printed when reading a line fails: the cause, prefixed.
pub open spec fn failure_notice(message: Seq<char>) -> Seq<char> {
    "Error: "@ + message
}

/// Decides one iteration of the session: empty lines are skipped without
/// being recorded, non-empty lines are executed, an interrupt or the end of
/// input stops the loop cleanly, and any other read failure stops it after
/// naming the cause.
pub fn repl_step(event: ReplEvent) -> (r: ReplStep)
    ensures
        match r {
            ReplStep::Skip => event matches ReplEvent::Line { text } && text@.len() == 0,
            ReplStep::Execute { code } => event matches ReplEvent::Line { text } && code == text
                && text@.len() > 0,
            ReplStep::Stop { notice } => match event {
                ReplEvent::Line { .. } => false,
                ReplEvent::Interrupted => notice@ == interrupted_notice(),
                ReplEvent::EndOfInput => notice@ == interrupted_notice(),
                ReplEvent::Failed { message } => notice@ == failure_notice(message@),
            },
        },
{
    match event {
        ReplEvent::Line { text } => {
            if text.as_str().is_empty() {
                ReplStep::Skip
            } else {
                ReplStep::Execute { code: text }
            }
        },
        ReplEvent::Interrupted => ReplStep::Stop { notice: String::from_str("Interrupted") },
        ReplEvent::EndOfInput => ReplStep::Stop { notice: String::from_str("Interrupted") },
        ReplEvent::Failed { message } => {
            let mut notice = String::new();
            notice.append("Error: ");
            notice.append(message.as_str());
            ReplStep::Stop { notice }
        },
    }
}

/// The in-memory line history of one session: non-empty lines only, in the
/// order they were entered.
pub struct History {
    pub entries: Vec<String>,
}

impl History {
    /// An empty history, or one reloaded from what the shell could read.
    pub fn new(entries: Vec<String>) -> (r: History)
        ensures
            r.entries == entries,
    {
        History { entries }
    }

    /// Records one entered line: appended when non-empty, ignored when
    /// empty.
    pub fn note_line(&mut self, line: &String) -> (recorded: bool)
        ensures
            recorded == (line@.len() > 0),
            recorded ==> final(self).entries@ == old(self).entries@.push(*line),
            !recorded ==> final(self).entries@ == old(self).entries@,
    {
        if line.as_str().is_empty() {
            false
        } else {
            self.entries.push(line.clone());
            true
        }
    }
}

/// What the session prints for one executed line: the trimmed output, and,
/// when the execution failed, the diagnostics rendered line-joined with the
/// entered line as the default source.
pub struct ReplReport {
    pub output: String,
    pub problems: Option<String>,
}

/// Renders the result of one executed line.
pub fn repl_report(line: &String, result: &ExecutionResult) -> (r: ReplReport)
    ensures
        r.output@ == trim_end_spec(result.output@),
        match r.problems {
            Some(text) => !result.success && text@ == render_all(
                result.diagnostics@,
                line@,
                result.file_contents@,
                "\n"@,
            ),
            None => result.success,
        },
{
    let output = crate::text::trim_end(result.output.as_str());
    if result.success {
        ReplReport { output, problems: None }
    } else {
        ReplReport {
            output,
            problems: Some(
                crate::render::render(&result.diagnostics, line, &result.file_contents, "\n"),
            ),
        }
    }
}

/// The plain prompt of the session: `user@host> `.
pub open spec fn prompt_spec(username: Seq<char>, hostname: Seq<char>) -> Seq<char> {
    username + "@"@ + hostname + "> "@
}

/// The colored prompt the line editor shows in place of the plain one.
pub open spec fn colored_prompt_spec(username: Seq<char>, hostname: Seq<char>) -> Seq<char> {
    "\x1b[1;32m"@ + username + "\x1b[0m@\x1b[1;34m"@ + hostname + "\x1b[0m> "@
}

/// Builds the plain prompt.
pub fn prompt_text(username: &String, hostname: &String) -> (r: String)
    ensures
        r@ == prompt_spec(username@, hostname@),
{
    let mut s = String::new();
    s.append(username.as_str());
    s.append("@");
    s.append(hostname.as_str());
    s.append("> ");
    proof {
        assert(s@ =~= prompt_spec(username@, hostname@));
    }
    s
}

/// Builds the colored prompt.
pub fn colored_prompt_text(username: &String, hostname: &String) -> (r: String)
    ensures
        r@ == colored_prompt_spec(username@, hostname@),
{
    let mut s = String::new();
    s.append("\x1b[1;32m");
    s.append(username.as_str());
    s.append("\x1b[0m@\x1b[1;34m");
    s.append(hostname.as_str());
    s.append("\x1b[0m> ");
    proof {
        assert(s@ =~= colored_prompt_spec(username@, hostname@));
    }
    s
}

} // verus!
