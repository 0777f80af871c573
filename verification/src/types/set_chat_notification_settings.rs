//! Changes the notification settings of a chat.

use vstd::prelude::*;

use crate::types::RObject;
use crate::types::support::{ChatNotificationSettings};

verus! {

/// Changes the notification settings of a chat.
#[derive(Debug)]
pub struct SetChatNotificationSettings {
    pub td_name: String,
    /// Chat identifier.
    pub chat_id: Option<i64>,
    /// New notification settings for the chat.
    pub notification_settings: Option<ChatNotificationSettings>,
}

impl Clone for SetChatNotificationSettings {
    fn clone(&self) -> (r: Self)
        ensures
            r == *self,
    {
        SetChatNotificationSettings {
            td_name: self.td_name.clone(),
            chat_id: self.chat_id,
            notification_settings: match &self.notification_settings {
                Some(v) => Some(v.clone()),
                None => None,
            },
        }
    }
}

impl Default for SetChatNotificationSettings {
    fn default() -> (r: Self)
        ensures
            r.td_name@ == Seq::<char>::empty(),
            r.chat_id is None,
            r.notification_settings is None,
    {
        SetChatNotificationSettings { td_name: String::new(), chat_id: None, notification_settings: None }
    }
}

impl RObject for SetChatNotificationSettings {
    fn td_name(&self) -> &'static str {
        "setChatNotificationSettings"
    }

    fn extra(&self) -> Option<String> {
        None
    }
}

impl SetChatNotificationSettings {
    pub fn _new() -> (r: Self)
        ensures
            r.td_name@ == "setChatNotificationSettings"@,
            r.chat_id is None,
            r.notification_settings is None,
    {
        SetChatNotificationSettings { td_name: "setChatNotificationSettings".to_owned(), chat_id: None, notification_settings: None }
    }

    /// Chat identifier.
    pub fn chat_id(&self) -> (r: Option<i64>)
        ensures
            r == self.chat_id,
    {
        self.chat_id
    }

    /// New notification settings for the chat.
    pub fn notification_settings(&self) -> (r: Option<ChatNotificationSettings>)
        ensures
            r == self.notification_settings,
    {
        match &self.notification_settings {
                Some(v) => Some(v.clone()),
                None => None,
            }
    }

    pub fn _set_chat_id(&mut self, chat_id: i64)
        ensures
            final(self).chat_id == Some(chat_id),
            final(self).notification_settings == old(self).notification_settings,
            final(self).td_name == old(self).td_name,
    {
        self.chat_id = Some(chat_id);
    }

    pub fn _set_notification_settings(&mut self, notification_settings: ChatNotificationSettings)
        ensures
            final(self).notification_settings == Some(notification_settings),
            final(self).chat_id == old(self).chat_id,
            final(self).td_name == old(self).td_name,
    {
        self.notification_settings = Some(notification_settings);
    }
}

} // verus!
