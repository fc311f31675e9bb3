//! The terminal logger: the log text a session accumulates and the
//! responses the terminal gives to its typed commands.

use vstd::prelude::*;
use vstd::string::*;
use crate::buffer::SharedBuffer;
use crate::commands::TerminalCommand;
use crate::details::{spec_os_report, Details};

verus! {

/// The terminal's log state and command responder.
pub struct Logger {
    pub logger_text: String,
}

/// The command summary the `help` command prints.
pub open spec fn spec_help_text() -> Seq<char> {
    "Commands: clear, system, version, help\r\n"@
}

impl Default for Logger {
    /// A logger holding no text.
    fn default() -> (r: Logger)
        ensures
            r.logger_text@ == Seq::<char>::empty(),
    {
        Logger { logger_text: String::new() }
    }
}

impl Logger {
    /// Response to the `clear` command: the text that replaces the whole
    /// terminal contents — nothing at all.
    pub fn clear(&mut self) -> (r: String)
        ensures
            r@ == Seq::<char>::empty(),
            *final(self) == *old(self),
    {
        String::new()
    }

    /// Response to the `system` command: a freshly gathered host report.
    pub fn system_info(&mut self) -> (r: String)
        ensures
            *final(self) == *old(self),
            exists|d: Details| r@ == spec_os_report(d),
    {
        let mut details = Details::new();
        let r = details.format_os();
        proof {
            assert(r@ == spec_os_report(details));
        }
        r
    }

    /// Response to the `version` command.
    pub fn get_fpga_version(&mut self) -> (r: String)
        ensures
            r@ == "Requesting version info from FPGA"@,
            *final(self) == *old(self),
    {
        String::from_str("Requesting version info from FPGA")
    }

    /// Response to the `help` command.
    pub fn help_text(&mut self) -> (r: String)
        ensures
            r@ == spec_help_text(),
            *final(self) == *old(self),
    {
        String::from_str("Commands: clear, system, version, help\r\n")
    }

    /// Appends text verbatim to the log.
    pub fn append(&mut self, text: &str)
        ensures
            final(self).logger_text@ == old(self).logger_text@ + text@,
    {
        self.logger_text.append(text);
    }

    /// Applies one recognized command to the shared terminal buffer:
    /// `clear` replaces the whole contents with the clear response (empty),
    /// every other command appends its response.
    pub fn respond(&mut self, cmd: TerminalCommand, buf: &mut SharedBuffer)
        ensures
            *final(self) == *old(self),
            cmd is Clear ==> final(buf)@ == Seq::<char>::empty(),
            cmd is System ==> exists|d: Details| final(buf)@ == old(buf)@ + spec_os_report(d),
            cmd is Version ==> final(buf)@ == old(buf)@
                + "Requesting version info from FPGA"@,
            cmd is Help ==> final(buf)@ == old(buf)@ + spec_help_text(),
    {
        match cmd {
            TerminalCommand::Clear => {
                let r = self.clear();
                buf.replace_all(r.as_str());
            },
            TerminalCommand::System => {
                let r = self.system_info();
                buf.append(r.as_str());
            },
            TerminalCommand::Version => {
                let r = self.get_fpga_version();
                buf.append(r.as_str());
            },
            TerminalCommand::Help => {
                let r = self.help_text();
                buf.append(r.as_str());
            },
        }
    }
}

} // verus!
