//! The in-terminal command interpreter: the fixed keywords a user can type
//! into the terminal, recognized on the most recently entered line.
//!
//! Matching looks only at the last entered line — trailing line terminators
//! dropped, then the text after the last line feed — so a keyword that
//! merely sits somewhere in the scrollback never re-triggers a command.

use vstd::prelude::*;
use crate::text::{last_line, last_line_start, str_eq, trim_line_terminators, trimmed_len};

verus! {

/// A command typed into the terminal.
#[derive(Clone, Copy, PartialEq, Eq, Structural, Debug)]
pub enum TerminalCommand {
    /// Empty the terminal text.
    Clear,
    /// Print the host system report.
    System,
    /// Ask the attached device for its version.
    Version,
    /// Print the command summary.
    Help,
}

/// The command a line spells, if any: one of the fixed keywords, exactly.
pub open spec fn spec_parse_command(line: Seq<char>) -> Option<TerminalCommand> {
    if line == "clear"@ {
        Some(TerminalCommand::Clear)
    } else if line == "system"@ {
        Some(TerminalCommand::System)
    } else if line == "version"@ {
        Some(TerminalCommand::Version)
    } else if line == "help"@ {
        Some(TerminalCommand::Help)
    } else {
        None
    }
}

/// Recognizes one line as a command keyword.
pub fn parse_command(line: &str) -> (r: Option<TerminalCommand>)
    ensures
        r == spec_parse_command(line@),
{
    if str_eq(line, "clear") {
        Some(TerminalCommand::Clear)
    } else if str_eq(line, "system") {
        Some(TerminalCommand::System)
    } else if str_eq(line, "version") {
        Some(TerminalCommand::Version)
    } else if str_eq(line, "help") {
        Some(TerminalCommand::Help)
    } else {
        None
    }
}

/// The line the user just entered: what follows the last line feed once the
/// trailing line terminators are dropped.
pub open spec fn spec_entered_line(s: Seq<char>) -> Seq<char> {
    let t = s.subrange(0, trimmed_len(s));
    t.subrange(last_line_start(t), t.len() as int)
}

/// The command entered on the most recent line of the terminal text, if
/// any. Only that line is examined, never the whole scrollback.
pub fn command_of_entry(text: &str) -> (r: Option<TerminalCommand>)
    ensures
        r == spec_parse_command(spec_entered_line(text@)),
{
    let trimmed = trim_line_terminators(text);
    let line = last_line(trimmed);
    parse_command(line)
}

} // verus!
