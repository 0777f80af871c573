//! The chat contains pornographic messages.

use vstd::prelude::*;

use crate::types::RObject;

verus! {

/// The chat contains pornographic messages.
#[derive(Debug)]
pub struct ChatReportReasonPornography {
    pub td_name: String,
}

impl Clone for ChatReportReasonPornography {
    fn clone(&self) -> (r: Self)
        ensures
            r == *self,
    {
        ChatReportReasonPornography {
            td_name: self.td_name.clone(),
        }
    }
}

impl Default for ChatReportReasonPornography {
    fn default() -> (r: Self)
        ensures
            r.td_name@ == Seq::<char>::empty(),
    {
        ChatReportReasonPornography { td_name: String::new() }
    }
}

impl RObject for ChatReportReasonPornography {
    fn td_name(&self) -> &'static str {
        "chatReportReasonPornography"
    }

    fn extra(&self) -> Option<String> {
        None
    }
}

impl ChatReportReasonPornography {
    pub fn _new() -> (r: Self)
        ensures
            r.td_name@ == "chatReportReasonPornography"@,
    {
        ChatReportReasonPornography { td_name: "chatReportReasonPornography".to_owned() }
    }
}

} // verus!
