//! Changes the draft message in a chat.

use vstd::prelude::*;

use crate::types::RObject;
use crate::types::support::{DraftMessage};

verus! {

/// Changes the draft message in a chat.
#[derive(Debug)]
pub struct SetChatDraftMessage {
    pub td_name: String,
    /// Chat identifier.
    pub chat_id: Option<i64>,
    /// New draft message; may be null.
    pub draft_message: Option<DraftMessage>,
}

impl Clone for SetChatDraftMessage {
    fn clone(&self) -> (r: Self)
        ensures
            r == *self,
    {
        SetChatDraftMessage {
            td_name: self.td_name.clone(),
            chat_id: self.chat_id,
            draft_message: match &self.draft_message {
                Some(v) => Some(v.clone()),
                None => None,
            },
        }
    }
}

impl Default for SetChatDraftMessage {
    fn default() -> (r: Self)
        ensures
            r.td_name@ == Seq::<char>::empty(),
            r.chat_id is None,
            r.draft_message is None,
    {
        SetChatDraftMessage { td_name: String::new(), chat_id: None, draft_message: None }
    }
}

impl RObject for SetChatDraftMessage {
    fn td_name(&self) -> &'static str {
        "setChatDraftMessage"
    }

    fn extra(&self) -> Option<String> {
        None
    }
}

impl SetChatDraftMessage {
    pub fn _new() -> (r: Self)
        ensures
            r.td_name@ == "setChatDraftMessage"@,
            r.chat_id is None,
            r.draft_message is None,
    {
        SetChatDraftMessage { td_name: "setChatDraftMessage".to_owned(), chat_id: None, draft_message: None }
    }

    /// Chat identifier.
    pub fn chat_id(&self) -> (r: Option<i64>)
        ensures
            r == self.chat_id,
    {
        self.chat_id
    }

    /// New draft message; may be null.
    pub fn draft_message(&self) -> (r: Option<DraftMessage>)
        ensures
            r == self.draft_message,
    {
        match &self.draft_message {
                Some(v) => Some(v.clone()),
                None => None,
            }
    }

    pub fn _set_chat_id(&mut self, chat_id: i64)
        ensures
            final(self).chat_id == Some(chat_id),
            final(self).draft_message == old(self).draft_message,
            final(self).td_name == old(self).td_name,
    {
        self.chat_id = Some(chat_id);
    }

    pub fn _set_draft_message(&mut self, draft_message: DraftMessage)
        ensures
            final(self).draft_message == Some(draft_message),
            final(self).chat_id == old(self).chat_id,
            final(self).td_name == old(self).td_name,
    {
        self.draft_message = Some(draft_message);
    }
}

} // verus!
