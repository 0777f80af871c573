//! Supporting binding types that the concrete types in this crate carry
//! in their fields. Only identity data is modeled here: the wire type name
//! and the optional request-correlation tag.

use vstd::prelude::*;

use crate::types::RObject;

verus! {
#[derive(Debug)]
pub struct BotCommand {
    pub td_name: String,
    pub extra: Option<String>,
}

impl BotCommand {
    /// Both fields hold their empty defaults.
    pub open spec fn spec_is_default(self) -> bool {
        self.td_name@ == Seq::<char>::empty() && self.extra is None
    }
}

impl Clone for BotCommand {
    fn clone(&self) -> (r: Self)
        ensures
            r == *self,
    {
        BotCommand {
            td_name: self.td_name.clone(),
            extra: match &self.extra {
                Some(s) => Some(s.clone()),
                None => None,
            },
        }
    }
}

impl Default for BotCommand {
    fn default() -> (r: Self)
        ensures
            r.spec_is_default(),
    {
        BotCommand { td_name: String::new(), extra: None }
    }
}

impl RObject for BotCommand {
    fn td_name(&self) -> &'static str {
        "botCommand"
    }

    fn extra(&self) -> Option<String> {
        match &self.extra {
            Some(s) => Some(s.clone()),
            None => None,
        }
    }
}

#[derive(Debug)]
pub struct ChatInviteLink {
    pub td_name: String,
    pub extra: Option<String>,
}

impl ChatInviteLink {
    /// Both fields hold their empty defaults.
    pub open spec fn spec_is_default(self) -> bool {
        self.td_name@ == Seq::<char>::empty() && self.extra is None
    }
}

impl Clone for ChatInviteLink {
    fn clone(&self) -> (r: Self)
        ensures
            r == *self,
    {
        ChatInviteLink {
            td_name: self.td_name.clone(),
            extra: match &self.extra {
                Some(s) => Some(s.clone()),
                None => None,
            },
        }
    }
}

impl Default for ChatInviteLink {
    fn default() -> (r: Self)
        ensures
            r.spec_is_default(),
    {
        ChatInviteLink { td_name: String::new(), extra: None }
    }
}

impl RObject for ChatInviteLink {
    fn td_name(&self) -> &'static str {
        "chatInviteLink"
    }

    fn extra(&self) -> Option<String> {
        match &self.extra {
            Some(s) => Some(s.clone()),
            None => None,
        }
    }
}

#[derive(Debug)]
pub struct ChatMember {
    pub td_name: String,
    pub extra: Option<String>,
}

impl ChatMember {
    /// Both fields hold their empty defaults.
    pub open spec fn spec_is_default(self) -> bool {
        self.td_name@ == Seq::<char>::empty() && self.extra is None
    }
}

impl Clone for ChatMember {
    fn clone(&self) -> (r: Self)
        ensures
            r == *self,
    {
        ChatMember {
            td_name: self.td_name.clone(),
            extra: match &self.extra {
                Some(s) => Some(s.clone()),
                None => None,
            },
        }
    }
}

impl Default for ChatMember {
    fn default() -> (r: Self)
        ensures
            r.spec_is_default(),
    {
        ChatMember { td_name: String::new(), extra: None }
    }
}

impl RObject for ChatMember {
    fn td_name(&self) -> &'static str {
        "chatMember"
    }

    fn extra(&self) -> Option<String> {
        match &self.extra {
            Some(s) => Some(s.clone()),
            None => None,
        }
    }
}

#[derive(Debug)]
pub struct ChatMemberStatus {
    pub td_name: String,
    pub extra: Option<String>,
}

impl ChatMemberStatus {
    /// Both fields hold their empty defaults.
    pub open spec fn spec_is_default(self) -> bool {
        self.td_name@ == Seq::<char>::empty() && self.extra is None
    }
}

impl Clone for ChatMemberStatus {
    fn clone(&self) -> (r: Self)
        ensures
            r == *self,
    {
        ChatMemberStatus {
            td_name: self.td_name.clone(),
            extra: match &self.extra {
                Some(s) => Some(s.clone()),
                None => None,
            },
        }
    }
}

impl Default for ChatMemberStatus {
    fn default() -> (r: Self)
        ensures
            r.spec_is_default(),
    {
        ChatMemberStatus { td_name: String::new(), extra: None }
    }
}

impl RObject for ChatMemberStatus {
    fn td_name(&self) -> &'static str {
        "chatMemberStatus"
    }

    fn extra(&self) -> Option<String> {
        match &self.extra {
            Some(s) => Some(s.clone()),
            None => None,
        }
    }
}

#[derive(Debug)]
pub struct ChatNotificationSettings {
    pub td_name: String,
    pub extra: Option<String>,
}

impl ChatNotificationSettings {
    /// Both fields hold their empty defaults.
    pub open spec fn spec_is_default(self) -> bool {
        self.td_name@ == Seq::<char>::empty() && self.extra is None
    }
}

impl Clone for ChatNotificationSettings {
    fn clone(&self) -> (r: Self)
        ensures
            r == *self,
    {
        ChatNotificationSettings {
            td_name: self.td_name.clone(),
            extra: match &self.extra {
                Some(s) => Some(s.clone()),
                None => None,
            },
        }
    }
}

impl Default for ChatNotificationSettings {
    fn default() -> (r: Self)
        ensures
            r.spec_is_default(),
    {
        ChatNotificationSettings { td_name: String::new(), extra: None }
    }
}

impl RObject for ChatNotificationSettings {
    fn td_name(&self) -> &'static str {
        "chatNotificationSettings"
    }

    fn extra(&self) -> Option<String> {
        match &self.extra {
            Some(s) => Some(s.clone()),
            None => None,
        }
    }
}

#[derive(Debug)]
pub struct ChatPhoto {
    pub td_name: String,
    pub extra: Option<String>,
}

impl ChatPhoto {
    /// Both fields hold their empty defaults.
    pub open spec fn spec_is_default(self) -> bool {
        self.td_name@ == Seq::<char>::empty() && self.extra is None
    }
}

impl Clone for ChatPhoto {
    fn clone(&self) -> (r: Self)
        ensures
            r == *self,
    {
        ChatPhoto {
            td_name: self.td_name.clone(),
            extra: match &self.extra {
                Some(s) => Some(s.clone()),
                None => None,
            },
        }
    }
}

impl Default for ChatPhoto {
    fn default() -> (r: Self)
        ensures
            r.spec_is_default(),
    {
        ChatPhoto { td_name: String::new(), extra: None }
    }
}

impl RObject for ChatPhoto {
    fn td_name(&self) -> &'static str {
        "chatPhoto"
    }

    fn extra(&self) -> Option<String> {
        match &self.extra {
            Some(s) => Some(s.clone()),
            None => None,
        }
    }
}

#[derive(Debug)]
pub struct Contact {
    pub td_name: String,
    pub extra: Option<String>,
}

impl Contact {
    /// Both fields hold their empty defaults.
    pub open spec fn spec_is_default(self) -> bool {
        self.td_name@ == Seq::<char>::empty() && self.extra is None
    }
}

impl Clone for Contact {
    fn clone(&self) -> (r: Self)
        ensures
            r == *self,
    {
        Contact {
            td_name: self.td_name.clone(),
            extra: match &self.extra {
                Some(s) => Some(s.clone()),
                None => None,
            },
        }
    }
}

impl Default for Contact {
    fn default() -> (r: Self)
        ensures
            r.spec_is_default(),
    {
        Contact { td_name: String::new(), extra: None }
    }
}

impl RObject for Contact {
    fn td_name(&self) -> &'static str {
        "contact"
    }

    fn extra(&self) -> Option<String> {
        match &self.extra {
            Some(s) => Some(s.clone()),
            None => None,
        }
    }
}

#[derive(Debug)]
pub struct DraftMessage {
    pub td_name: String,
    pub extra: Option<String>,
}

impl DraftMessage {
    /// Both fields hold their empty defaults.
    pub open spec fn spec_is_default(self) -> bool {
        self.td_name@ == Seq::<char>::empty() && self.extra is None
    }
}

impl Clone for DraftMessage {
    fn clone(&self) -> (r: Self)
        ensures
            r == *self,
    {
        DraftMessage {
            td_name: self.td_name.clone(),
            extra: match &self.extra {
                Some(s) => Some(s.clone()),
                None => None,
            },
        }
    }
}

impl Default for DraftMessage {
    fn default() -> (r: Self)
        ensures
            r.spec_is_default(),
    {
        DraftMessage { td_name: String::new(), extra: None }
    }
}

impl RObject for DraftMessage {
    fn td_name(&self) -> &'static str {
        "draftMessage"
    }

    fn extra(&self) -> Option<String> {
        match &self.extra {
            Some(s) => Some(s.clone()),
            None => None,
        }
    }
}

#[derive(Debug)]
pub struct GetOption {
    pub td_name: String,
    pub extra: Option<String>,
}

impl GetOption {
    /// Both fields hold their empty defaults.
    pub open spec fn spec_is_default(self) -> bool {
        self.td_name@ == Seq::<char>::empty() && self.extra is None
    }
}

impl Clone for GetOption {
    fn clone(&self) -> (r: Self)
        ensures
            r == *self,
    {
        GetOption {
            td_name: self.td_name.clone(),
            extra: match &self.extra {
                Some(s) => Some(s.clone()),
                None => None,
            },
        }
    }
}

impl Default for GetOption {
    fn default() -> (r: Self)
        ensures
            r.spec_is_default(),
    {
        GetOption { td_name: String::new(), extra: None }
    }
}

impl RObject for GetOption {
    fn td_name(&self) -> &'static str {
        "getOption"
    }

    fn extra(&self) -> Option<String> {
        match &self.extra {
            Some(s) => Some(s.clone()),
            None => None,
        }
    }
}

#[derive(Debug)]
pub struct InputMessageContent {
    pub td_name: String,
    pub extra: Option<String>,
}

impl InputMessageContent {
    /// Both fields hold their empty defaults.
    pub open spec fn spec_is_default(self) -> bool {
        self.td_name@ == Seq::<char>::empty() && self.extra is None
    }
}

impl Clone for InputMessageContent {
    fn clone(&self) -> (r: Self)
        ensures
            r == *self,
    {
        InputMessageContent {
            td_name: self.td_name.clone(),
            extra: match &self.extra {
                Some(s) => Some(s.clone()),
                None => None,
            },
        }
    }
}

impl Default for InputMessageContent {
    fn default() -> (r: Self)
        ensures
            r.spec_is_default(),
    {
        InputMessageContent { td_name: String::new(), extra: None }
    }
}

impl RObject for InputMessageContent {
    fn td_name(&self) -> &'static str {
        "inputMessageContent"
    }

    fn extra(&self) -> Option<String> {
        match &self.extra {
            Some(s) => Some(s.clone()),
            None => None,
        }
    }
}

#[derive(Debug)]
pub struct Message {
    pub td_name: String,
    pub extra: Option<String>,
}

impl Message {
    /// Both fields hold their empty defaults.
    pub open spec fn spec_is_default(self) -> bool {
        self.td_name@ == Seq::<char>::empty() && self.extra is None
    }
}

impl Clone for Message {
    fn clone(&self) -> (r: Self)
        ensures
            r == *self,
    {
        Message {
            td_name: self.td_name.clone(),
            extra: match &self.extra {
                Some(s) => Some(s.clone()),
                None => None,
            },
        }
    }
}

impl Default for Message {
    fn default() -> (r: Self)
        ensures
            r.spec_is_default(),
    {
        Message { td_name: String::new(), extra: None }
    }
}

impl RObject for Message {
    fn td_name(&self) -> &'static str {
        "message"
    }

    fn extra(&self) -> Option<String> {
        match &self.extra {
            Some(s) => Some(s.clone()),
            None => None,
        }
    }
}

#[derive(Debug)]
pub struct MessageSender {
    pub td_name: String,
    pub extra: Option<String>,
}

impl MessageSender {
    /// Both fields hold their empty defaults.
    pub open spec fn spec_is_default(self) -> bool {
        self.td_name@ == Seq::<char>::empty() && self.extra is None
    }
}

impl Clone for MessageSender {
    fn clone(&self) -> (r: Self)
        ensures
            r == *self,
    {
        MessageSender {
            td_name: self.td_name.clone(),
            extra: match &self.extra {
                Some(s) => Some(s.clone()),
                None => None,
            },
        }
    }
}

impl Default for MessageSender {
    fn default() -> (r: Self)
        ensures
            r.spec_is_default(),
    {
        MessageSender { td_name: String::new(), extra: None }
    }
}

impl RObject for MessageSender {
    fn td_name(&self) -> &'static str {
        "messageSender"
    }

    fn extra(&self) -> Option<String> {
        match &self.extra {
            Some(s) => Some(s.clone()),
            None => None,
        }
    }
}

#[derive(Debug)]
pub struct PushMessageContent {
    pub td_name: String,
    pub extra: Option<String>,
}

impl PushMessageContent {
    /// Both fields hold their empty defaults.
    pub open spec fn spec_is_default(self) -> bool {
        self.td_name@ == Seq::<char>::empty() && self.extra is None
    }
}

impl Clone for PushMessageContent {
    fn clone(&self) -> (r: Self)
        ensures
            r == *self,
    {
        PushMessageContent {
            td_name: self.td_name.clone(),
            extra: match &self.extra {
                Some(s) => Some(s.clone()),
                None => None,
            },
        }
    }
}

impl Default for PushMessageContent {
    fn default() -> (r: Self)
        ensures
            r.spec_is_default(),
    {
        PushMessageContent { td_name: String::new(), extra: None }
    }
}

impl RObject for PushMessageContent {
    fn td_name(&self) -> &'static str {
        "pushMessageContent"
    }

    fn extra(&self) -> Option<String> {
        match &self.extra {
            Some(s) => Some(s.clone()),
            None => None,
        }
    }
}

#[derive(Debug)]
pub struct ReplyMarkup {
    pub td_name: String,
    pub extra: Option<String>,
}

impl ReplyMarkup {
    /// Both fields hold their empty defaults.
    pub open spec fn spec_is_default(self) -> bool {
        self.td_name@ == Seq::<char>::empty() && self.extra is None
    }
}

impl Clone for ReplyMarkup {
    fn clone(&self) -> (r: Self)
        ensures
            r == *self,
    {
        ReplyMarkup {
            td_name: self.td_name.clone(),
            extra: match &self.extra {
                Some(s) => Some(s.clone()),
                None => None,
            },
        }
    }
}

impl Default for ReplyMarkup {
    fn default() -> (r: Self)
        ensures
            r.spec_is_default(),
    {
        ReplyMarkup { td_name: String::new(), extra: None }
    }
}

impl RObject for ReplyMarkup {
    fn td_name(&self) -> &'static str {
        "replyMarkup"
    }

    fn extra(&self) -> Option<String> {
        match &self.extra {
            Some(s) => Some(s.clone()),
            None => None,
        }
    }
}

} // verus!
