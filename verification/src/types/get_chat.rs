//! Returns information about a chat by its identifier, this is an offline request if the current user is not a bot.

use vstd::prelude::*;

use crate::types::RObject;

verus! {

/// Returns information about a chat by its identifier, this is an offline request if the current user is not a bot.
#[derive(Debug)]
pub struct GetChat {
    pub td_name: String,
    /// Chat identifier.
    pub chat_id: Option<i64>,
}

impl Clone for GetChat {
    fn clone(&self) -> (r: Self)
        ensures
            r == *self,
    {
        GetChat {
            td_name: self.td_name.clone(),
            chat_id: self.chat_id,
        }
    }
}

impl Default for GetChat {
    fn default() -> (r: Self)
        ensures
            r.td_name@ == Seq::<char>::empty(),
            r.chat_id is None,
    {
        GetChat { td_name: String::new(), chat_id: None }
    }
}

impl RObject for GetChat {
    fn td_name(&self) -> &'static str {
        "getChat"
    }

    fn extra(&self) -> Option<String> {
        None
    }
}

impl GetChat {
    pub fn _new() -> (r: Self)
        ensures
            r.td_name@ == "getChat"@,
            r.chat_id is None,
    {
        GetChat { td_name: "getChat".to_owned(), chat_id: None }
    }

    /// Chat identifier.
    pub fn chat_id(&self) -> (r: Option<i64>)
        ensures
            r == self.chat_id,
    {
        self.chat_id
    }

    pub fn _set_chat_id(&mut self, chat_id: i64)
        ensures
            final(self).chat_id == Some(chat_id),
            final(self).td_name == old(self).td_name,
    {
        self.chat_id = Some(chat_id);
    }
}

} // verus!
