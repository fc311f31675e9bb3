//! The welcome banner the serial runtime shows in its terminal.

use vstd::prelude::*;
use vstd::string::*;

verus! {

/// Relies on chrono::Utc::now: the present moment, rendered as
/// month-day-year hour:minute:second. The value depends on the clock, so
/// nothing is promised of the text.
#[verifier::external_body]
pub(crate) fn utc_now_stamp() -> String {
    format!("{}", chrono::Utc::now().format("%m-%d-%Y %H:%M:%S"))
}

/// The banner text for a given date stamp.
pub open spec fn spec_banner_message(date: Seq<char>) -> Seq<char> {
    "\n**** Welcome to Arrakis Serial Runtime, Version 0.1.0"@ + "\n**** Today is "@ + date
        + "\n"@
}

/// The welcome banner of the serial runtime terminal.
#[derive(Default, Debug)]
pub struct Banner {
    pub message: String,
}

impl Banner {
    /// A banner with no message yet.
    pub fn new() -> (r: Banner)
        ensures
            r.message@ == Seq::<char>::empty(),
    {
        Banner { message: String::new() }
    }

    /// Renders the banner for the given date stamp.
    pub fn format_with_date(&mut self, date: &str)
        ensures
            final(self).message@ == spec_banner_message(date@),
    {
        let mut m = String::from_str("\n**** Welcome to Arrakis Serial Runtime, Version 0.1.0");
        m.append("\n**** Today is ");
        m.append(date);
        m.append("\n");
        self.message = m;
        proof {
            assert(self.message@ =~= spec_banner_message(date@));
        }
    }

    /// Renders the banner for the present moment.
    pub fn format(&mut self)
        ensures
            exists|date: Seq<char>| final(self).message@ == spec_banner_message(date),
    {
        let stamp = utc_now_stamp();
        self.format_with_date(stamp.as_str());
        proof {
            assert(self.message@ == spec_banner_message(stamp@));
        }
    }
}

} // verus!
