//! The start-up banner printed when the manager first comes up.

use vstd::prelude::*;
use vstd::string::*;
use crate::banner::utc_now_stamp;

verus! {

/// The start-up banner text for a given date stamp.
pub open spec fn spec_startup_message(date: Seq<char>) -> Seq<char> {
    "\n**** Welcome to Vescript FPGA Manager, Version 0.1.0"@ + "\n**** Today is "@ + date
        + "\n"@
}

/// The banner shown once at start-up.
#[derive(Default, Debug)]
pub struct Banner {
    pub message: String,
}

impl Banner {
    /// A banner with no message yet.
    pub fn new() -> (r: Banner)
        ensures
            r.message@ == Seq::<char>::empty(),
    {
        Banner { message: String::new() }
    }

    /// Renders the banner for the given date stamp.
    pub fn format_with_date(&mut self, date: &str)
        ensures
            final(self).message@ == spec_startup_message(date@),
    {
        let mut m = String::from_str("\n**** Welcome to Vescript FPGA Manager, Version 0.1.0");
        m.append("\n**** Today is ");
        m.append(date);
        m.append("\n");
        self.message = m;
        proof {
            assert(self.message@ =~= spec_startup_message(date@));
        }
    }

    /// Renders the banner for the present moment.
    pub fn format(&mut self)
        ensures
            exists|date: Seq<char>| final(self).message@ == spec_startup_message(date),
    {
        let stamp = utc_now_stamp();
        self.format_with_date(stamp.as_str());
        proof {
            assert(self.message@ == spec_startup_message(stamp@));
        }
    }
}

} // verus!
