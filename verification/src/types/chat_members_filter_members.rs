//! Returns all chat members, including restricted chat members.

use vstd::prelude::*;

use crate::types::RObject;

verus! {

/// Returns all chat members, including restricted chat members.
#[derive(Debug)]
pub struct ChatMembersFilterMembers {
    pub td_name: String,
}

impl Clone for ChatMembersFilterMembers {
    fn clone(&self) -> (r: Self)
        ensures
            r == *self,
    {
        ChatMembersFilterMembers {
            td_name: self.td_name.clone(),
        }
    }
}

impl Default for ChatMembersFilterMembers {
    fn default() -> (r: Self)
        ensures
            r.td_name@ == Seq::<char>::empty(),
    {
        ChatMembersFilterMembers { td_name: String::new() }
    }
}

impl RObject for ChatMembersFilterMembers {
    fn td_name(&self) -> &'static str {
        "chatMembersFilterMembers"
    }

    fn extra(&self) -> Option<String> {
        None
    }
}

impl ChatMembersFilterMembers {
    pub fn _new() -> (r: Self)
        ensures
            r.td_name@ == "chatMembersFilterMembers"@,
    {
        ChatMembersFilterMembers { td_name: "chatMembersFilterMembers".to_owned() }
    }
}

} // verus!
