//! Contains detailed information about a notification

use vstd::prelude::*;

use crate::types::{new_extra, RObject};
use crate::types::support::{Message, MessageSender, PushMessageContent};

verus! {

/// Contains detailed information about a notification
pub trait TDNotificationType: RObject {
}

/// Contains detailed information about a notification
#[derive(Debug)]
pub enum NotificationType {
    _Default(()),
    /// New call was received
    NewCall(NotificationTypeNewCall),
    /// New message was received
    NewMessage(NotificationTypeNewMessage),
    /// New message was received through a push notification
    NewPushMessage(NotificationTypeNewPushMessage),
    /// New secret chat was created
    NewSecretChat(NotificationTypeNewSecretChat),
}

impl Clone for NotificationType {
    fn clone(&self) -> (r: Self)
        ensures
            r == *self,
    {
        match self {
            NotificationType::_Default(_) => NotificationType::_Default(()),
            NotificationType::NewCall(t) => NotificationType::NewCall(t.clone()),
            NotificationType::NewMessage(t) => NotificationType::NewMessage(t.clone()),
            NotificationType::NewPushMessage(t) => NotificationType::NewPushMessage(t.clone()),
            NotificationType::NewSecretChat(t) => NotificationType::NewSecretChat(t.clone()),
        }
    }
}

impl Default for NotificationType {
    fn default() -> (r: Self)
        ensures
            r == NotificationType::_Default(()),
    {
        NotificationType::_Default(())
    }
}

impl RObject for NotificationType {
    fn td_name(&self) -> &'static str {
        match self {
            NotificationType::NewCall(t) => t.td_name(),
            NotificationType::NewMessage(t) => t.td_name(),
            NotificationType::NewPushMessage(t) => t.td_name(),
            NotificationType::NewSecretChat(t) => t.td_name(),
            _ => "-1",
        }
    }

    fn extra(&self) -> Option<String> {
        match self {
            NotificationType::NewCall(t) => t.extra(),
            NotificationType::NewMessage(t) => t.extra(),
            NotificationType::NewPushMessage(t) => t.extra(),
            NotificationType::NewSecretChat(t) => t.extra(),
            _ => None,
        }
    }
}

impl NotificationType {
    pub fn _is_default(&self) -> (r: bool)
        ensures
            r == (self is _Default),
    {
        if let NotificationType::_Default(_) = self {
            true
        } else {
            false
        }
    }

    pub fn is_new_call(&self) -> (r: bool)
        ensures
            r == (self is NewCall),
    {
        if let NotificationType::NewCall(_) = self {
            true
        } else {
            false
        }
    }

    pub fn is_new_message(&self) -> (r: bool)
        ensures
            r == (self is NewMessage),
    {
        if let NotificationType::NewMessage(_) = self {
            true
        } else {
            false
        }
    }

    pub fn is_new_push_message(&self) -> (r: bool)
        ensures
            r == (self is NewPushMessage),
    {
        if let NotificationType::NewPushMessage(_) = self {
            true
        } else {
            false
        }
    }

    pub fn is_new_secret_chat(&self) -> (r: bool)
        ensures
            r == (self is NewSecretChat),
    {
        if let NotificationType::NewSecretChat(_) = self {
            true
        } else {
            false
        }
    }

    pub fn on_new_call<F: FnOnce(&NotificationTypeNewCall)>(&self, fnc: F) -> (r: &Self)
        requires
            forall|t: &NotificationTypeNewCall| #[trigger] fnc.requires((t,)),
        ensures
            r == self,
            *self matches NotificationType::NewCall(c) ==> fnc.ensures((&c,), ()),
    {
        if let NotificationType::NewCall(t) = self {
            fnc(t)
        };
        self
    }

    pub fn on_new_message<F: FnOnce(&NotificationTypeNewMessage)>(&self, fnc: F) -> (r: &Self)
        requires
            forall|t: &NotificationTypeNewMessage| #[trigger] fnc.requires((t,)),
        ensures
            r == self,
            *self matches NotificationType::NewMessage(c) ==> fnc.ensures((&c,), ()),
    {
        if let NotificationType::NewMessage(t) = self {
            fnc(t)
        };
        self
    }

    pub fn on_new_push_message<F: FnOnce(&NotificationTypeNewPushMessage)>(&self, fnc: F) -> (r: &Self)
        requires
            forall|t: &NotificationTypeNewPushMessage| #[trigger] fnc.requires((t,)),
        ensures
            r == self,
            *self matches NotificationType::NewPushMessage(c) ==> fnc.ensures((&c,), ()),
    {
        if let NotificationType::NewPushMessage(t) = self {
            fnc(t)
        };
        self
    }

    pub fn on_new_secret_chat<F: FnOnce(&NotificationTypeNewSecretChat)>(&self, fnc: F) -> (r: &Self)
        requires
            forall|t: &NotificationTypeNewSecretChat| #[trigger] fnc.requires((t,)),
        ensures
            r == self,
            *self matches NotificationType::NewSecretChat(c) ==> fnc.ensures((&c,), ()),
    {
        if let NotificationType::NewSecretChat(t) = self {
            fnc(t)
        };
        self
    }

    pub fn as_new_call(&self) -> (r: Option<&NotificationTypeNewCall>)
        ensures
            (r is Some) == (self is NewCall),
            r matches Some(t) ==> *self matches NotificationType::NewCall(c) && *t == c,
    {
        if let NotificationType::NewCall(t) = self {
            return Some(t);
        }
        None
    }

    pub fn as_new_message(&self) -> (r: Option<&NotificationTypeNewMessage>)
        ensures
            (r is Some) == (self is NewMessage),
            r matches Some(t) ==> *self matches NotificationType::NewMessage(c) && *t == c,
    {
        if let NotificationType::NewMessage(t) = self {
            return Some(t);
        }
        None
    }

    pub fn as_new_push_message(&self) -> (r: Option<&NotificationTypeNewPushMessage>)
        ensures
            (r is Some) == (self is NewPushMessage),
            r matches Some(t) ==> *self matches NotificationType::NewPushMessage(c) && *t == c,
    {
        if let NotificationType::NewPushMessage(t) = self {
            return Some(t);
        }
        None
    }

    pub fn as_new_secret_chat(&self) -> (r: Option<&NotificationTypeNewSecretChat>)
        ensures
            (r is Some) == (self is NewSecretChat),
            r matches Some(t) ==> *self matches NotificationType::NewSecretChat(c) && *t == c,
    {
        if let NotificationType::NewSecretChat(t) = self {
            return Some(t);
        }
        None
    }

    pub fn new_call(t: &NotificationTypeNewCall) -> (r: Self)
        ensures
            r == NotificationType::NewCall(*t),
    {
        NotificationType::NewCall(t.clone())
    }

    pub fn new_message(t: &NotificationTypeNewMessage) -> (r: Self)
        ensures
            r == NotificationType::NewMessage(*t),
    {
        NotificationType::NewMessage(t.clone())
    }

    pub fn new_push_message(t: &NotificationTypeNewPushMessage) -> (r: Self)
        ensures
            r == NotificationType::NewPushMessage(*t),
    {
        NotificationType::NewPushMessage(t.clone())
    }

    pub fn new_secret_chat(t: &NotificationTypeNewSecretChat) -> (r: Self)
        ensures
            r == NotificationType::NewSecretChat(*t),
    {
        NotificationType::NewSecretChat(t.clone())
    }
}

/// New call was received
#[derive(Debug)]
pub struct NotificationTypeNewCall {
    pub td_name: String,
    pub extra: Option<String>,
    /// Call identifier
    pub call_id: i64,
}

impl Clone for NotificationTypeNewCall {
    fn clone(&self) -> (r: Self)
        ensures
            r == *self,
    {
        NotificationTypeNewCall {
            td_name: self.td_name.clone(),
            extra: match &self.extra {
                Some(s) => Some(s.clone()),
                None => None,
            },
            call_id: self.call_id,
        }
    }
}

impl Default for NotificationTypeNewCall {
    fn default() -> (r: Self)
        ensures
            r.td_name@ == Seq::<char>::empty(),
            r.extra is None,
            r.call_id == 0,
    {
        NotificationTypeNewCall { td_name: String::new(), extra: None, call_id: 0 }
    }
}

impl RObject for NotificationTypeNewCall {
    fn td_name(&self) -> &'static str {
        "notificationTypeNewCall"
    }

    fn extra(&self) -> Option<String> {
        match &self.extra {
            Some(s) => Some(s.clone()),
            None => None,
        }
    }
}

impl TDNotificationType for NotificationTypeNewCall {
}

impl NotificationTypeNewCall {
    pub fn builder() -> (r: RTDNotificationTypeNewCallBuilder)
        ensures
            r.inner.td_name@ == "notificationTypeNewCall"@,
            r.inner.extra is Some,
            r.inner.call_id == 0,
    {
        let mut inner = NotificationTypeNewCall::default();
        inner.td_name = "notificationTypeNewCall".to_owned();
        inner.extra = Some(new_extra());
        RTDNotificationTypeNewCallBuilder { inner }
    }

    /// Call identifier
    pub fn call_id(&self) -> (r: i64)
        ensures
            r == self.call_id,
    {
        self.call_id
    }
}

pub struct RTDNotificationTypeNewCallBuilder {
    pub inner: NotificationTypeNewCall,
}

impl RTDNotificationTypeNewCallBuilder {
    pub fn build(&self) -> (r: NotificationTypeNewCall)
        ensures
            r == self.inner,
    {
        self.inner.clone()
    }

    pub fn call_id(&mut self, call_id: i64)
        ensures
            final(self).inner.call_id == call_id,
            final(self).inner.td_name == old(self).inner.td_name,
            final(self).inner.extra == old(self).inner.extra,
    {
        self.inner.call_id = call_id;
    }
}

/// New message was received
#[derive(Debug)]
pub struct NotificationTypeNewMessage {
    pub td_name: String,
    pub extra: Option<String>,
    /// The message
    pub message: Message,
}

impl Clone for NotificationTypeNewMessage {
    fn clone(&self) -> (r: Self)
        ensures
            r == *self,
    {
        NotificationTypeNewMessage {
            td_name: self.td_name.clone(),
            extra: match &self.extra {
                Some(s) => Some(s.clone()),
                None => None,
            },
            message: self.message.clone(),
        }
    }
}

impl Default for NotificationTypeNewMessage {
    fn default() -> (r: Self)
        ensures
            r.td_name@ == Seq::<char>::empty(),
            r.extra is None,
            r.message.spec_is_default(),
    {
        NotificationTypeNewMessage { td_name: String::new(), extra: None, message: Message::default() }
    }
}

impl RObject for NotificationTypeNewMessage {
    fn td_name(&self) -> &'static str {
        "notificationTypeNewMessage"
    }

    fn extra(&self) -> Option<String> {
        match &self.extra {
            Some(s) => Some(s.clone()),
            None => None,
        }
    }
}

impl TDNotificationType for NotificationTypeNewMessage {
}

impl NotificationTypeNewMessage {
    pub fn builder() -> (r: RTDNotificationTypeNewMessageBuilder)
        ensures
            r.inner.td_name@ == "notificationTypeNewMessage"@,
            r.inner.extra is Some,
            r.inner.message.spec_is_default(),
    {
        let mut inner = NotificationTypeNewMessage::default();
        inner.td_name = "notificationTypeNewMessage".to_owned();
        inner.extra = Some(new_extra());
        RTDNotificationTypeNewMessageBuilder { inner }
    }

    /// The message
    pub fn message(&self) -> (r: &Message)
        ensures
            r == self.message,
    {
        &self.message
    }
}

pub struct RTDNotificationTypeNewMessageBuilder {
    pub inner: NotificationTypeNewMessage,
}

impl RTDNotificationTypeNewMessageBuilder {
    pub fn build(&self) -> (r: NotificationTypeNewMessage)
        ensures
            r == self.inner,
    {
        self.inner.clone()
    }

    pub fn message(&mut self, message: &Message)
        ensures
            final(self).inner.message == *message,
            final(self).inner.td_name == old(self).inner.td_name,
            final(self).inner.extra == old(self).inner.extra,
    {
        self.inner.message = message.clone();
    }
}

/// New message was received through a push notification
#[derive(Debug)]
pub struct NotificationTypeNewPushMessage {
    pub td_name: String,
    pub extra: Option<String>,
    /// The message identifier. The message will not be available in the chat history, but the ID can be used in viewMessages, or as reply_to_message_id
    pub message_id: i64,
    /// Identifier of the sender of the message. Corresponding user or chat may be inaccessible
    pub sender_id: MessageSender,
    /// Name of the sender
    pub sender_name: String,
    /// True, if the message is outgoing
    pub is_outgoing: bool,
    /// Push message content
    pub content: PushMessageContent,
}

impl Clone for NotificationTypeNewPushMessage {
    fn clone(&self) -> (r: Self)
        ensures
            r == *self,
    {
        NotificationTypeNewPushMessage {
            td_name: self.td_name.clone(),
            extra: match &self.extra {
                Some(s) => Some(s.clone()),
                None => None,
            },
            message_id: self.message_id,
            sender_id: self.sender_id.clone(),
            sender_name: self.sender_name.clone(),
            is_outgoing: self.is_outgoing,
            content: self.content.clone(),
        }
    }
}

impl Default for NotificationTypeNewPushMessage {
    fn default() -> (r: Self)
        ensures
            r.td_name@ == Seq::<char>::empty(),
            r.extra is None,
            r.message_id == 0,
            r.sender_id.spec_is_default(),
            r.sender_name@ == Seq::<char>::empty(),
            r.is_outgoing == false,
            r.content.spec_is_default(),
    {
        NotificationTypeNewPushMessage { td_name: String::new(), extra: None, message_id: 0, sender_id: MessageSender::default(), sender_name: String::new(), is_outgoing: false, content: PushMessageContent::default() }
    }
}

impl RObject for NotificationTypeNewPushMessage {
    fn td_name(&self) -> &'static str {
        "notificationTypeNewPushMessage"
    }

    fn extra(&self) -> Option<String> {
        match &self.extra {
            Some(s) => Some(s.clone()),
            None => None,
        }
    }
}

impl TDNotificationType for NotificationTypeNewPushMessage {
}

impl NotificationTypeNewPushMessage {
    pub fn builder() -> (r: RTDNotificationTypeNewPushMessageBuilder)
        ensures
            r.inner.td_name@ == "notificationTypeNewPushMessage"@,
            r.inner.extra is Some,
            r.inner.message_id == 0,
            r.inner.sender_id.spec_is_default(),
            r.inner.sender_name@ == Seq::<char>::empty(),
            r.inner.is_outgoing == false,
            r.inner.content.spec_is_default(),
    {
        let mut inner = NotificationTypeNewPushMessage::default();
        inner.td_name = "notificationTypeNewPushMessage".to_owned();
        inner.extra = Some(new_extra());
        RTDNotificationTypeNewPushMessageBuilder { inner }
    }

    /// The message identifier. The message will not be available in the chat history, but the ID can be used in viewMessages, or as reply_to_message_id
    pub fn message_id(&self) -> (r: i64)
        ensures
            r == self.message_id,
    {
        self.message_id
    }

    /// Identifier of the sender of the message. Corresponding user or chat may be inaccessible
    pub fn sender_id(&self) -> (r: &MessageSender)
        ensures
            r == self.sender_id,
    {
        &self.sender_id
    }

    /// Name of the sender
    pub fn sender_name(&self) -> (r: &String)
        ensures
            r == self.sender_name,
    {
        &self.sender_name
    }

    /// True, if the message is outgoing
    pub fn is_outgoing(&self) -> (r: bool)
        ensures
            r == self.is_outgoing,
    {
        self.is_outgoing
    }

    /// Push message content
    pub fn content(&self) -> (r: &PushMessageContent)
        ensures
            r == self.content,
    {
        &self.content
    }
}

pub struct RTDNotificationTypeNewPushMessageBuilder {
    pub inner: NotificationTypeNewPushMessage,
}

impl RTDNotificationTypeNewPushMessageBuilder {
    pub fn build(&self) -> (r: NotificationTypeNewPushMessage)
        ensures
            r == self.inner,
    {
        self.inner.clone()
    }

    pub fn message_id(&mut self, message_id: i64)
        ensures
            final(self).inner.message_id == message_id,
            final(self).inner.sender_id == old(self).inner.sender_id,
            final(self).inner.sender_name == old(self).inner.sender_name,
            final(self).inner.is_outgoing == old(self).inner.is_outgoing,
            final(self).inner.content == old(self).inner.content,
            final(self).inner.td_name == old(self).inner.td_name,
            final(self).inner.extra == old(self).inner.extra,
    {
        self.inner.message_id = message_id;
    }

    pub fn sender_id(&mut self, sender_id: &MessageSender)
        ensures
            final(self).inner.sender_id == *sender_id,
            final(self).inner.message_id == old(self).inner.message_id,
            final(self).inner.sender_name == old(self).inner.sender_name,
            final(self).inner.is_outgoing == old(self).inner.is_outgoing,
            final(self).inner.content == old(self).inner.content,
            final(self).inner.td_name == old(self).inner.td_name,
            final(self).inner.extra == old(self).inner.extra,
    {
        self.inner.sender_id = sender_id.clone();
    }

    pub fn sender_name(&mut self, sender_name: &str)
        ensures
            final(self).inner.sender_name@ == sender_name@,
            final(self).inner.message_id == old(self).inner.message_id,
            final(self).inner.sender_id == old(self).inner.sender_id,
            final(self).inner.is_outgoing == old(self).inner.is_outgoing,
            final(self).inner.content == old(self).inner.content,
            final(self).inner.td_name == old(self).inner.td_name,
            final(self).inner.extra == old(self).inner.extra,
    {
        self.inner.sender_name = sender_name.to_owned();
    }

    pub fn is_outgoing(&mut self, is_outgoing: bool)
        ensures
            final(self).inner.is_outgoing == is_outgoing,
            final(self).inner.message_id == old(self).inner.message_id,
            final(self).inner.sender_id == old(self).inner.sender_id,
            final(self).inner.sender_name == old(self).inner.sender_name,
            final(self).inner.content == old(self).inner.content,
            final(self).inner.td_name == old(self).inner.td_name,
            final(self).inner.extra == old(self).inner.extra,
    {
        self.inner.is_outgoing = is_outgoing;
    }

    pub fn content(&mut self, content: &PushMessageContent)
        ensures
            final(self).inner.content == *content,
            final(self).inner.message_id == old(self).inner.message_id,
            final(self).inner.sender_id == old(self).inner.sender_id,
            final(self).inner.sender_name == old(self).inner.sender_name,
            final(self).inner.is_outgoing == old(self).inner.is_outgoing,
            final(self).inner.td_name == old(self).inner.td_name,
            final(self).inner.extra == old(self).inner.extra,
    {
        self.inner.content = content.clone();
    }
}

/// New secret chat was created
#[derive(Debug)]
pub struct NotificationTypeNewSecretChat {
    pub td_name: String,
    pub extra: Option<String>,
}

impl Clone for NotificationTypeNewSecretChat {
    fn clone(&self) -> (r: Self)
        ensures
            r == *self,
    {
        NotificationTypeNewSecretChat {
            td_name: self.td_name.clone(),
            extra: match &self.extra {
                Some(s) => Some(s.clone()),
                None => None,
            },
        }
    }
}

impl Default for NotificationTypeNewSecretChat {
    fn default() -> (r: Self)
        ensures
            r.td_name@ == Seq::<char>::empty(),
            r.extra is None,
    {
        NotificationTypeNewSecretChat { td_name: String::new(), extra: None }
    }
}

impl RObject for NotificationTypeNewSecretChat {
    fn td_name(&self) -> &'static str {
        "notificationTypeNewSecretChat"
    }

    fn extra(&self) -> Option<String> {
        match &self.extra {
            Some(s) => Some(s.clone()),
            None => None,
        }
    }
}

impl TDNotificationType for NotificationTypeNewSecretChat {
}

impl NotificationTypeNewSecretChat {
    pub fn builder() -> (r: RTDNotificationTypeNewSecretChatBuilder)
        ensures
            r.inner.td_name@ == "notificationTypeNewSecretChat"@,
            r.inner.extra is Some,
    {
        let mut inner = NotificationTypeNewSecretChat::default();
        inner.td_name = "notificationTypeNewSecretChat".to_owned();
        inner.extra = Some(new_extra());
        RTDNotificationTypeNewSecretChatBuilder { inner }
    }
}

pub struct RTDNotificationTypeNewSecretChatBuilder {
    pub inner: NotificationTypeNewSecretChat,
}

impl RTDNotificationTypeNewSecretChatBuilder {
    pub fn build(&self) -> (r: NotificationTypeNewSecretChat)
        ensures
            r == self.inner,
    {
        self.inner.clone()
    }
}

} // verus!
