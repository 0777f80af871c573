//! Represents a chat event

use vstd::prelude::*;

use crate::types::RObject;
use crate::types::support::{ChatMemberStatus, ChatPhoto, Message};

verus! {

/// Represents a chat event
pub trait TDChatEventAction: RObject {
}

/// Represents a chat event
#[derive(Debug)]
pub enum ChatEventAction {
    _Default(()),
    /// The chat description was changed
    ChatEventDescriptionChanged(ChatEventDescriptionChanged),
    /// The anyone_can_invite setting of a supergroup chat was toggled
    ChatEventInvitesToggled(ChatEventInvitesToggled),
    /// The is_all_history_available setting of a supergroup was toggled
    ChatEventIsAllHistoryAvailableToggled(ChatEventIsAllHistoryAvailableToggled),
    /// A new chat member was invited
    ChatEventMemberInvited(ChatEventMemberInvited),
    /// A new member joined the chat
    ChatEventMemberJoined(ChatEventMemberJoined),
    /// A member left the chat
    ChatEventMemberLeft(ChatEventMemberLeft),
    /// A chat member has gained/lost administrator status, or the list of their administrator privileges has changed
    ChatEventMemberPromoted(ChatEventMemberPromoted),
    /// A chat member was restricted/unrestricted or banned/unbanned, or the list of their restrictions has changed
    ChatEventMemberRestricted(ChatEventMemberRestricted),
    /// A message was deleted
    ChatEventMessageDeleted(ChatEventMessageDeleted),
    /// A message was edited
    ChatEventMessageEdited(ChatEventMessageEdited),
    /// A message was pinned
    ChatEventMessagePinned(ChatEventMessagePinned),
    /// A message was unpinned
    ChatEventMessageUnpinned(ChatEventMessageUnpinned),
    /// The chat photo was changed
    ChatEventPhotoChanged(ChatEventPhotoChanged),
    /// The sign_messages setting of a channel was toggled
    ChatEventSignMessagesToggled(ChatEventSignMessagesToggled),
    /// The supergroup sticker set was changed
    ChatEventStickerSetChanged(ChatEventStickerSetChanged),
    /// The chat title was changed
    ChatEventTitleChanged(ChatEventTitleChanged),
    /// The chat username was changed
    ChatEventUsernameChanged(ChatEventUsernameChanged),
}

impl Clone for ChatEventAction {
    fn clone(&self) -> (r: Self)
        ensures
            r == *self,
    {
        match self {
            ChatEventAction::_Default(_) => ChatEventAction::_Default(()),
            ChatEventAction::ChatEventDescriptionChanged(t) => ChatEventAction::ChatEventDescriptionChanged(t.clone()),
            ChatEventAction::ChatEventInvitesToggled(t) => ChatEventAction::ChatEventInvitesToggled(t.clone()),
            ChatEventAction::ChatEventIsAllHistoryAvailableToggled(t) => ChatEventAction::ChatEventIsAllHistoryAvailableToggled(t.clone()),
            ChatEventAction::ChatEventMemberInvited(t) => ChatEventAction::ChatEventMemberInvited(t.clone()),
            ChatEventAction::ChatEventMemberJoined(t) => ChatEventAction::ChatEventMemberJoined(t.clone()),
            ChatEventAction::ChatEventMemberLeft(t) => ChatEventAction::ChatEventMemberLeft(t.clone()),
            ChatEventAction::ChatEventMemberPromoted(t) => ChatEventAction::ChatEventMemberPromoted(t.clone()),
            ChatEventAction::ChatEventMemberRestricted(t) => ChatEventAction::ChatEventMemberRestricted(t.clone()),
            ChatEventAction::ChatEventMessageDeleted(t) => ChatEventAction::ChatEventMessageDeleted(t.clone()),
            ChatEventAction::ChatEventMessageEdited(t) => ChatEventAction::ChatEventMessageEdited(t.clone()),
            ChatEventAction::ChatEventMessagePinned(t) => ChatEventAction::ChatEventMessagePinned(t.clone()),
            ChatEventAction::ChatEventMessageUnpinned(t) => ChatEventAction::ChatEventMessageUnpinned(t.clone()),
            ChatEventAction::ChatEventPhotoChanged(t) => ChatEventAction::ChatEventPhotoChanged(t.clone()),
            ChatEventAction::ChatEventSignMessagesToggled(t) => ChatEventAction::ChatEventSignMessagesToggled(t.clone()),
            ChatEventAction::ChatEventStickerSetChanged(t) => ChatEventAction::ChatEventStickerSetChanged(t.clone()),
            ChatEventAction::ChatEventTitleChanged(t) => ChatEventAction::ChatEventTitleChanged(t.clone()),
            ChatEventAction::ChatEventUsernameChanged(t) => ChatEventAction::ChatEventUsernameChanged(t.clone()),
        }
    }
}

impl Default for ChatEventAction {
    fn default() -> (r: Self)
        ensures
            r == ChatEventAction::_Default(()),
    {
        ChatEventAction::_Default(())
    }
}

impl RObject for ChatEventAction {
    fn td_name(&self) -> &'static str {
        match self {
            ChatEventAction::ChatEventDescriptionChanged(t) => t.td_name(),
            ChatEventAction::ChatEventInvitesToggled(t) => t.td_name(),
            ChatEventAction::ChatEventIsAllHistoryAvailableToggled(t) => t.td_name(),
            ChatEventAction::ChatEventMemberInvited(t) => t.td_name(),
            ChatEventAction::ChatEventMemberJoined(t) => t.td_name(),
            ChatEventAction::ChatEventMemberLeft(t) => t.td_name(),
            ChatEventAction::ChatEventMemberPromoted(t) => t.td_name(),
            ChatEventAction::ChatEventMemberRestricted(t) => t.td_name(),
            ChatEventAction::ChatEventMessageDeleted(t) => t.td_name(),
            ChatEventAction::ChatEventMessageEdited(t) => t.td_name(),
            ChatEventAction::ChatEventMessagePinned(t) => t.td_name(),
            ChatEventAction::ChatEventMessageUnpinned(t) => t.td_name(),
            ChatEventAction::ChatEventPhotoChanged(t) => t.td_name(),
            ChatEventAction::ChatEventSignMessagesToggled(t) => t.td_name(),
            ChatEventAction::ChatEventStickerSetChanged(t) => t.td_name(),
            ChatEventAction::ChatEventTitleChanged(t) => t.td_name(),
            ChatEventAction::ChatEventUsernameChanged(t) => t.td_name(),
            _ => "-1",
        }
    }

    fn extra(&self) -> Option<String> {
        match self {
            ChatEventAction::ChatEventDescriptionChanged(t) => t.extra(),
            ChatEventAction::ChatEventInvitesToggled(t) => t.extra(),
            ChatEventAction::ChatEventIsAllHistoryAvailableToggled(t) => t.extra(),
            ChatEventAction::ChatEventMemberInvited(t) => t.extra(),
            ChatEventAction::ChatEventMemberJoined(t) => t.extra(),
            ChatEventAction::ChatEventMemberLeft(t) => t.extra(),
            ChatEventAction::ChatEventMemberPromoted(t) => t.extra(),
            ChatEventAction::ChatEventMemberRestricted(t) => t.extra(),
            ChatEventAction::ChatEventMessageDeleted(t) => t.extra(),
            ChatEventAction::ChatEventMessageEdited(t) => t.extra(),
            ChatEventAction::ChatEventMessagePinned(t) => t.extra(),
            ChatEventAction::ChatEventMessageUnpinned(t) => t.extra(),
            ChatEventAction::ChatEventPhotoChanged(t) => t.extra(),
            ChatEventAction::ChatEventSignMessagesToggled(t) => t.extra(),
            ChatEventAction::ChatEventStickerSetChanged(t) => t.extra(),
            ChatEventAction::ChatEventTitleChanged(t) => t.extra(),
            ChatEventAction::ChatEventUsernameChanged(t) => t.extra(),
            _ => None,
        }
    }
}

impl ChatEventAction {
    pub fn _is_default(&self) -> (r: bool)
        ensures
            r == (self is _Default),
    {
        if let ChatEventAction::_Default(_) = self {
            true
        } else {
            false
        }
    }

    pub fn is_chat_event_description_changed(&self) -> (r: bool)
        ensures
            r == (self is ChatEventDescriptionChanged),
    {
        if let ChatEventAction::ChatEventDescriptionChanged(_) = self {
            true
        } else {
            false
        }
    }

    pub fn is_chat_event_invites_toggled(&self) -> (r: bool)
        ensures
            r == (self is ChatEventInvitesToggled),
    {
        if let ChatEventAction::ChatEventInvitesToggled(_) = self {
            true
        } else {
            false
        }
    }

    pub fn is_chat_event_is_all_history_available_toggled(&self) -> (r: bool)
        ensures
            r == (self is ChatEventIsAllHistoryAvailableToggled),
    {
        if let ChatEventAction::ChatEventIsAllHistoryAvailableToggled(_) = self {
            true
        } else {
            false
        }
    }

    pub fn is_chat_event_member_invited(&self) -> (r: bool)
        ensures
            r == (self is ChatEventMemberInvited),
    {
        if let ChatEventAction::ChatEventMemberInvited(_) = self {
            true
        } else {
            false
        }
    }

    pub fn is_chat_event_member_joined(&self) -> (r: bool)
        ensures
            r == (self is ChatEventMemberJoined),
    {
        if let ChatEventAction::ChatEventMemberJoined(_) = self {
            true
        } else {
            false
        }
    }

    pub fn is_chat_event_member_left(&self) -> (r: bool)
        ensures
            r == (self is ChatEventMemberLeft),
    {
        if let ChatEventAction::ChatEventMemberLeft(_) = self {
            true
        } else {
            false
        }
    }

    pub fn is_chat_event_member_promoted(&self) -> (r: bool)
        ensures
            r == (self is ChatEventMemberPromoted),
    {
        if let ChatEventAction::ChatEventMemberPromoted(_) = self {
            true
        } else {
            false
        }
    }

    pub fn is_chat_event_member_restricted(&self) -> (r: bool)
        ensures
            r == (self is ChatEventMemberRestricted),
    {
        if let ChatEventAction::ChatEventMemberRestricted(_) = self {
            true
        } else {
            false
        }
    }

    pub fn is_chat_event_message_deleted(&self) -> (r: bool)
        ensures
            r == (self is ChatEventMessageDeleted),
    {
        if let ChatEventAction::ChatEventMessageDeleted(_) = self {
            true
        } else {
            false
        }
    }

    pub fn is_chat_event_message_edited(&self) -> (r: bool)
        ensures
            r == (self is ChatEventMessageEdited),
    {
        if let ChatEventAction::ChatEventMessageEdited(_) = self {
            true
        } else {
            false
        }
    }

    pub fn is_chat_event_message_pinned(&self) -> (r: bool)
        ensures
            r == (self is ChatEventMessagePinned),
    {
        if let ChatEventAction::ChatEventMessagePinned(_) = self {
            true
        } else {
            false
        }
    }

    pub fn is_chat_event_message_unpinned(&self) -> (r: bool)
        ensures
            r == (self is ChatEventMessageUnpinned),
    {
        if let ChatEventAction::ChatEventMessageUnpinned(_) = self {
            true
        } else {
            false
        }
    }

    pub fn is_chat_event_photo_changed(&self) -> (r: bool)
        ensures
            r == (self is ChatEventPhotoChanged),
    {
        if let ChatEventAction::ChatEventPhotoChanged(_) = self {
            true
        } else {
            false
        }
    }

    pub fn is_chat_event_sign_messages_toggled(&self) -> (r: bool)
        ensures
            r == (self is ChatEventSignMessagesToggled),
    {
        if let ChatEventAction::ChatEventSignMessagesToggled(_) = self {
            true
        } else {
            false
        }
    }

    pub fn is_chat_event_sticker_set_changed(&self) -> (r: bool)
        ensures
            r == (self is ChatEventStickerSetChanged),
    {
        if let ChatEventAction::ChatEventStickerSetChanged(_) = self {
            true
        } else {
            false
        }
    }

    pub fn is_chat_event_title_changed(&self) -> (r: bool)
        ensures
            r == (self is ChatEventTitleChanged),
    {
        if let ChatEventAction::ChatEventTitleChanged(_) = self {
            true
        } else {
            false
        }
    }

    pub fn is_chat_event_username_changed(&self) -> (r: bool)
        ensures
            r == (self is ChatEventUsernameChanged),
    {
        if let ChatEventAction::ChatEventUsernameChanged(_) = self {
            true
        } else {
            false
        }
    }

    pub fn on_chat_event_description_changed<F: FnOnce(&ChatEventDescriptionChanged)>(&self, fnc: F) -> (r: &Self)
        requires
            forall|t: &ChatEventDescriptionChanged| #[trigger] fnc.requires((t,)),
        ensures
            r == self,
            *self matches ChatEventAction::ChatEventDescriptionChanged(c) ==> fnc.ensures((&c,), ()),
    {
        if let ChatEventAction::ChatEventDescriptionChanged(t) = self {
            fnc(t)
        };
        self
    }

    pub fn on_chat_event_invites_toggled<F: FnOnce(&ChatEventInvitesToggled)>(&self, fnc: F) -> (r: &Self)
        requires
            forall|t: &ChatEventInvitesToggled| #[trigger] fnc.requires((t,)),
        ensures
            r == self,
            *self matches ChatEventAction::ChatEventInvitesToggled(c) ==> fnc.ensures((&c,), ()),
    {
        if let ChatEventAction::ChatEventInvitesToggled(t) = self {
            fnc(t)
        };
        self
    }

    pub fn on_chat_event_is_all_history_available_toggled<F: FnOnce(&ChatEventIsAllHistoryAvailableToggled)>(&self, fnc: F) -> (r: &Self)
        requires
            forall|t: &ChatEventIsAllHistoryAvailableToggled| #[trigger] fnc.requires((t,)),
        ensures
            r == self,
            *self matches ChatEventAction::ChatEventIsAllHistoryAvailableToggled(c) ==> fnc.ensures((&c,), ()),
    {
        if let ChatEventAction::ChatEventIsAllHistoryAvailableToggled(t) = self {
            fnc(t)
        };
        self
    }

    pub fn on_chat_event_member_invited<F: FnOnce(&ChatEventMemberInvited)>(&self, fnc: F) -> (r: &Self)
        requires
            forall|t: &ChatEventMemberInvited| #[trigger] fnc.requires((t,)),
        ensures
            r == self,
            *self matches ChatEventAction::ChatEventMemberInvited(c) ==> fnc.ensures((&c,), ()),
    {
        if let ChatEventAction::ChatEventMemberInvited(t) = self {
            fnc(t)
        };
        self
    }

    pub fn on_chat_event_member_joined<F: FnOnce(&ChatEventMemberJoined)>(&self, fnc: F) -> (r: &Self)
        requires
            forall|t: &ChatEventMemberJoined| #[trigger] fnc.requires((t,)),
        ensures
            r == self,
            *self matches ChatEventAction::ChatEventMemberJoined(c) ==> fnc.ensures((&c,), ()),
    {
        if let ChatEventAction::ChatEventMemberJoined(t) = self {
            fnc(t)
        };
        self
    }

    pub fn on_chat_event_member_left<F: FnOnce(&ChatEventMemberLeft)>(&self, fnc: F) -> (r: &Self)
        requires
            forall|t: &ChatEventMemberLeft| #[trigger] fnc.requires((t,)),
        ensures
            r == self,
            *self matches ChatEventAction::ChatEventMemberLeft(c) ==> fnc.ensures((&c,), ()),
    {
        if let ChatEventAction::ChatEventMemberLeft(t) = self {
            fnc(t)
        };
        self
    }

    pub fn on_chat_event_member_promoted<F: FnOnce(&ChatEventMemberPromoted)>(&self, fnc: F) -> (r: &Self)
        requires
            forall|t: &ChatEventMemberPromoted| #[trigger] fnc.requires((t,)),
        ensures
            r == self,
            *self matches ChatEventAction::ChatEventMemberPromoted(c) ==> fnc.ensures((&c,), ()),
    {
        if let ChatEventAction::ChatEventMemberPromoted(t) = self {
            fnc(t)
        };
        self
    }

    pub fn on_chat_event_member_restricted<F: FnOnce(&ChatEventMemberRestricted)>(&self, fnc: F) -> (r: &Self)
        requires
            forall|t: &ChatEventMemberRestricted| #[trigger] fnc.requires((t,)),
        ensures
            r == self,
            *self matches ChatEventAction::ChatEventMemberRestricted(c) ==> fnc.ensures((&c,), ()),
    {
        if let ChatEventAction::ChatEventMemberRestricted(t) = self {
            fnc(t)
        };
        self
    }

    pub fn on_chat_event_message_deleted<F: FnOnce(&ChatEventMessageDeleted)>(&self, fnc: F) -> (r: &Self)
        requires
            forall|t: &ChatEventMessageDeleted| #[trigger] fnc.requires((t,)),
        ensures
            r == self,
            *self matches ChatEventAction::ChatEventMessageDeleted(c) ==> fnc.ensures((&c,), ()),
    {
        if let ChatEventAction::ChatEventMessageDeleted(t) = self {
            fnc(t)
        };
        self
    }

    pub fn on_chat_event_message_edited<F: FnOnce(&ChatEventMessageEdited)>(&self, fnc: F) -> (r: &Self)
        requires
            forall|t: &ChatEventMessageEdited| #[trigger] fnc.requires((t,)),
        ensures
            r == self,
            *self matches ChatEventAction::ChatEventMessageEdited(c) ==> fnc.ensures((&c,), ()),
    {
        if let ChatEventAction::ChatEventMessageEdited(t) = self {
            fnc(t)
        };
        self
    }

    pub fn on_chat_event_message_pinned<F: FnOnce(&ChatEventMessagePinned)>(&self, fnc: F) -> (r: &Self)
        requires
            forall|t: &ChatEventMessagePinned| #[trigger] fnc.requires((t,)),
        ensures
            r == self,
            *self matches ChatEventAction::ChatEventMessagePinned(c) ==> fnc.ensures((&c,), ()),
    {
        if let ChatEventAction::ChatEventMessagePinned(t) = self {
            fnc(t)
        };
        self
    }

    pub fn on_chat_event_message_unpinned<F: FnOnce(&ChatEventMessageUnpinned)>(&self, fnc: F) -> (r: &Self)
        requires
            forall|t: &ChatEventMessageUnpinned| #[trigger] fnc.requires((t,)),
        ensures
            r == self,
            *self matches ChatEventAction::ChatEventMessageUnpinned(c) ==> fnc.ensures((&c,), ()),
    {
        if let ChatEventAction::ChatEventMessageUnpinned(t) = self {
            fnc(t)
        };
        self
    }

    pub fn on_chat_event_photo_changed<F: FnOnce(&ChatEventPhotoChanged)>(&self, fnc: F) -> (r: &Self)
        requires
            forall|t: &ChatEventPhotoChanged| #[trigger] fnc.requires((t,)),
        ensures
            r == self,
            *self matches ChatEventAction::ChatEventPhotoChanged(c) ==> fnc.ensures((&c,), ()),
    {
        if let ChatEventAction::ChatEventPhotoChanged(t) = self {
            fnc(t)
        };
        self
    }

    pub fn on_chat_event_sign_messages_toggled<F: FnOnce(&ChatEventSignMessagesToggled)>(&self, fnc: F) -> (r: &Self)
        requires
            forall|t: &ChatEventSignMessagesToggled| #[trigger] fnc.requires((t,)),
        ensures
            r == self,
            *self matches ChatEventAction::ChatEventSignMessagesToggled(c) ==> fnc.ensures((&c,), ()),
    {
        if let ChatEventAction::ChatEventSignMessagesToggled(t) = self {
            fnc(t)
        };
        self
    }

    pub fn on_chat_event_sticker_set_changed<F: FnOnce(&ChatEventStickerSetChanged)>(&self, fnc: F) -> (r: &Self)
        requires
            forall|t: &ChatEventStickerSetChanged| #[trigger] fnc.requires((t,)),
        ensures
            r == self,
            *self matches ChatEventAction::ChatEventStickerSetChanged(c) ==> fnc.ensures((&c,), ()),
    {
        if let ChatEventAction::ChatEventStickerSetChanged(t) = self {
            fnc(t)
        };
        self
    }

    pub fn on_chat_event_title_changed<F: FnOnce(&ChatEventTitleChanged)>(&self, fnc: F) -> (r: &Self)
        requires
            forall|t: &ChatEventTitleChanged| #[trigger] fnc.requires((t,)),
        ensures
            r == self,
            *self matches ChatEventAction::ChatEventTitleChanged(c) ==> fnc.ensures((&c,), ()),
    {
        if let ChatEventAction::ChatEventTitleChanged(t) = self {
            fnc(t)
        };
        self
    }

    pub fn on_chat_event_username_changed<F: FnOnce(&ChatEventUsernameChanged)>(&self, fnc: F) -> (r: &Self)
        requires
            forall|t: &ChatEventUsernameChanged| #[trigger] fnc.requires((t,)),
        ensures
            r == self,
            *self matches ChatEventAction::ChatEventUsernameChanged(c) ==> fnc.ensures((&c,), ()),
    {
        if let ChatEventAction::ChatEventUsernameChanged(t) = self {
            fnc(t)
        };
        self
    }

    pub fn as_chat_event_description_changed(&self) -> (r: Option<&ChatEventDescriptionChanged>)
        ensures
            (r is Some) == (self is ChatEventDescriptionChanged),
            r matches Some(t) ==> *self matches ChatEventAction::ChatEventDescriptionChanged(c) && *t == c,
    {
        if let ChatEventAction::ChatEventDescriptionChanged(t) = self {
            return Some(t);
        }
        None
    }

    pub fn as_chat_event_invites_toggled(&self) -> (r: Option<&ChatEventInvitesToggled>)
        ensures
            (r is Some) == (self is ChatEventInvitesToggled),
            r matches Some(t) ==> *self matches ChatEventAction::ChatEventInvitesToggled(c) && *t == c,
    {
        if let ChatEventAction::ChatEventInvitesToggled(t) = self {
            return Some(t);
        }
        None
    }

    pub fn as_chat_event_is_all_history_available_toggled(&self) -> (r: Option<&ChatEventIsAllHistoryAvailableToggled>)
        ensures
            (r is Some) == (self is ChatEventIsAllHistoryAvailableToggled),
            r matches Some(t) ==> *self matches ChatEventAction::ChatEventIsAllHistoryAvailableToggled(c) && *t == c,
    {
        if let ChatEventAction::ChatEventIsAllHistoryAvailableToggled(t) = self {
            return Some(t);
        }
        None
    }

    pub fn as_chat_event_member_invited(&self) -> (r: Option<&ChatEventMemberInvited>)
        ensures
            (r is Some) == (self is ChatEventMemberInvited),
            r matches Some(t) ==> *self matches ChatEventAction::ChatEventMemberInvited(c) && *t == c,
    {
        if let ChatEventAction::ChatEventMemberInvited(t) = self {
            return Some(t);
        }
        None
    }

    pub fn as_chat_event_member_joined(&self) -> (r: Option<&ChatEventMemberJoined>)
        ensures
            (r is Some) == (self is ChatEventMemberJoined),
            r matches Some(t) ==> *self matches ChatEventAction::ChatEventMemberJoined(c) && *t == c,
    {
        if let ChatEventAction::ChatEventMemberJoined(t) = self {
            return Some(t);
        }
        None
    }

    pub fn as_chat_event_member_left(&self) -> (r: Option<&ChatEventMemberLeft>)
        ensures
            (r is Some) == (self is ChatEventMemberLeft),
            r matches Some(t) ==> *self matches ChatEventAction::ChatEventMemberLeft(c) && *t == c,
    {
        if let ChatEventAction::ChatEventMemberLeft(t) = self {
            return Some(t);
        }
        None
    }

    pub fn as_chat_event_member_promoted(&self) -> (r: Option<&ChatEventMemberPromoted>)
        ensures
            (r is Some) == (self is ChatEventMemberPromoted),
            r matches Some(t) ==> *self matches ChatEventAction::ChatEventMemberPromoted(c) && *t == c,
    {
        if let ChatEventAction::ChatEventMemberPromoted(t) = self {
            return Some(t);
        }
        None
    }

    pub fn as_chat_event_member_restricted(&self) -> (r: Option<&ChatEventMemberRestricted>)
        ensures
            (r is Some) == (self is ChatEventMemberRestricted),
            r matches Some(t) ==> *self matches ChatEventAction::ChatEventMemberRestricted(c) && *t == c,
    {
        if let ChatEventAction::ChatEventMemberRestricted(t) = self {
            return Some(t);
        }
        None
    }

    pub fn as_chat_event_message_deleted(&self) -> (r: Option<&ChatEventMessageDeleted>)
        ensures
            (r is Some) == (self is ChatEventMessageDeleted),
            r matches Some(t) ==> *self matches ChatEventAction::ChatEventMessageDeleted(c) && *t == c,
    {
        if let ChatEventAction::ChatEventMessageDeleted(t) = self {
            return Some(t);
        }
        None
    }

    pub fn as_chat_event_message_edited(&self) -> (r: Option<&ChatEventMessageEdited>)
        ensures
            (r is Some) == (self is ChatEventMessageEdited),
            r matches Some(t) ==> *self matches ChatEventAction::ChatEventMessageEdited(c) && *t == c,
    {
        if let ChatEventAction::ChatEventMessageEdited(t) = self {
            return Some(t);
        }
        None
    }

    pub fn as_chat_event_message_pinned(&self) -> (r: Option<&ChatEventMessagePinned>)
        ensures
            (r is Some) == (self is ChatEventMessagePinned),
            r matches Some(t) ==> *self matches ChatEventAction::ChatEventMessagePinned(c) && *t == c,
    {
        if let ChatEventAction::ChatEventMessagePinned(t) = self {
            return Some(t);
        }
        None
    }

    pub fn as_chat_event_message_unpinned(&self) -> (r: Option<&ChatEventMessageUnpinned>)
        ensures
            (r is Some) == (self is ChatEventMessageUnpinned),
            r matches Some(t) ==> *self matches ChatEventAction::ChatEventMessageUnpinned(c) && *t == c,
    {
        if let ChatEventAction::ChatEventMessageUnpinned(t) = self {
            return Some(t);
        }
        None
    }

    pub fn as_chat_event_photo_changed(&self) -> (r: Option<&ChatEventPhotoChanged>)
        ensures
            (r is Some) == (self is ChatEventPhotoChanged),
            r matches Some(t) ==> *self matches ChatEventAction::ChatEventPhotoChanged(c) && *t == c,
    {
        if let ChatEventAction::ChatEventPhotoChanged(t) = self {
            return Some(t);
        }
        None
    }

    pub fn as_chat_event_sign_messages_toggled(&self) -> (r: Option<&ChatEventSignMessagesToggled>)
        ensures
            (r is Some) == (self is ChatEventSignMessagesToggled),
            r matches Some(t) ==> *self matches ChatEventAction::ChatEventSignMessagesToggled(c) && *t == c,
    {
        if let ChatEventAction::ChatEventSignMessagesToggled(t) = self {
            return Some(t);
        }
        None
    }

    pub fn as_chat_event_sticker_set_changed(&self) -> (r: Option<&ChatEventStickerSetChanged>)
        ensures
            (r is Some) == (self is ChatEventStickerSetChanged),
            r matches Some(t) ==> *self matches ChatEventAction::ChatEventStickerSetChanged(c) && *t == c,
    {
        if let ChatEventAction::ChatEventStickerSetChanged(t) = self {
            return Some(t);
        }
        None
    }

    pub fn as_chat_event_title_changed(&self) -> (r: Option<&ChatEventTitleChanged>)
        ensures
            (r is Some) == (self is ChatEventTitleChanged),
            r matches Some(t) ==> *self matches ChatEventAction::ChatEventTitleChanged(c) && *t == c,
    {
        if let ChatEventAction::ChatEventTitleChanged(t) = self {
            return Some(t);
        }
        None
    }

    pub fn as_chat_event_username_changed(&self) -> (r: Option<&ChatEventUsernameChanged>)
        ensures
            (r is Some) == (self is ChatEventUsernameChanged),
            r matches Some(t) ==> *self matches ChatEventAction::ChatEventUsernameChanged(c) && *t == c,
    {
        if let ChatEventAction::ChatEventUsernameChanged(t) = self {
            return Some(t);
        }
        None
    }

    pub fn chat_event_description_changed(t: &ChatEventDescriptionChanged) -> (r: Self)
        ensures
            r == ChatEventAction::ChatEventDescriptionChanged(*t),
    {
        ChatEventAction::ChatEventDescriptionChanged(t.clone())
    }

    pub fn chat_event_invites_toggled(t: &ChatEventInvitesToggled) -> (r: Self)
        ensures
            r == ChatEventAction::ChatEventInvitesToggled(*t),
    {
        ChatEventAction::ChatEventInvitesToggled(t.clone())
    }

    pub fn chat_event_is_all_history_available_toggled(t: &ChatEventIsAllHistoryAvailableToggled) -> (r: Self)
        ensures
            r == ChatEventAction::ChatEventIsAllHistoryAvailableToggled(*t),
    {
        ChatEventAction::ChatEventIsAllHistoryAvailableToggled(t.clone())
    }

    pub fn chat_event_member_invited(t: &ChatEventMemberInvited) -> (r: Self)
        ensures
            r == ChatEventAction::ChatEventMemberInvited(*t),
    {
        ChatEventAction::ChatEventMemberInvited(t.clone())
    }

    pub fn chat_event_member_joined(t: &ChatEventMemberJoined) -> (r: Self)
        ensures
            r == ChatEventAction::ChatEventMemberJoined(*t),
    {
        ChatEventAction::ChatEventMemberJoined(t.clone())
    }

    pub fn chat_event_member_left(t: &ChatEventMemberLeft) -> (r: Self)
        ensures
            r == ChatEventAction::ChatEventMemberLeft(*t),
    {
        ChatEventAction::ChatEventMemberLeft(t.clone())
    }

    pub fn chat_event_member_promoted(t: &ChatEventMemberPromoted) -> (r: Self)
        ensures
            r == ChatEventAction::ChatEventMemberPromoted(*t),
    {
        ChatEventAction::ChatEventMemberPromoted(t.clone())
    }

    pub fn chat_event_member_restricted(t: &ChatEventMemberRestricted) -> (r: Self)
        ensures
            r == ChatEventAction::ChatEventMemberRestricted(*t),
    {
        ChatEventAction::ChatEventMemberRestricted(t.clone())
    }

    pub fn chat_event_message_deleted(t: &ChatEventMessageDeleted) -> (r: Self)
        ensures
            r == ChatEventAction::ChatEventMessageDeleted(*t),
    {
        ChatEventAction::ChatEventMessageDeleted(t.clone())
    }

    pub fn chat_event_message_edited(t: &ChatEventMessageEdited) -> (r: Self)
        ensures
            r == ChatEventAction::ChatEventMessageEdited(*t),
    {
        ChatEventAction::ChatEventMessageEdited(t.clone())
    }

    pub fn chat_event_message_pinned(t: &ChatEventMessagePinned) -> (r: Self)
        ensures
            r == ChatEventAction::ChatEventMessagePinned(*t),
    {
        ChatEventAction::ChatEventMessagePinned(t.clone())
    }

    pub fn chat_event_message_unpinned(t: &ChatEventMessageUnpinned) -> (r: Self)
        ensures
            r == ChatEventAction::ChatEventMessageUnpinned(*t),
    {
        ChatEventAction::ChatEventMessageUnpinned(t.clone())
    }

    pub fn chat_event_photo_changed(t: &ChatEventPhotoChanged) -> (r: Self)
        ensures
            r == ChatEventAction::ChatEventPhotoChanged(*t),
    {
        ChatEventAction::ChatEventPhotoChanged(t.clone())
    }

    pub fn chat_event_sign_messages_toggled(t: &ChatEventSignMessagesToggled) -> (r: Self)
        ensures
            r == ChatEventAction::ChatEventSignMessagesToggled(*t),
    {
        ChatEventAction::ChatEventSignMessagesToggled(t.clone())
    }

    pub fn chat_event_sticker_set_changed(t: &ChatEventStickerSetChanged) -> (r: Self)
        ensures
            r == ChatEventAction::ChatEventStickerSetChanged(*t),
    {
        ChatEventAction::ChatEventStickerSetChanged(t.clone())
    }

    pub fn chat_event_title_changed(t: &ChatEventTitleChanged) -> (r: Self)
        ensures
            r == ChatEventAction::ChatEventTitleChanged(*t),
    {
        ChatEventAction::ChatEventTitleChanged(t.clone())
    }

    pub fn chat_event_username_changed(t: &ChatEventUsernameChanged) -> (r: Self)
        ensures
            r == ChatEventAction::ChatEventUsernameChanged(*t),
    {
        ChatEventAction::ChatEventUsernameChanged(t.clone())
    }
}

/// The chat description was changed
#[derive(Debug)]
pub struct ChatEventDescriptionChanged {
    pub td_name: String,
    /// Previous chat description
    pub old_description: String,
    /// New chat description
    pub new_description: String,
}

impl Clone for ChatEventDescriptionChanged {
    fn clone(&self) -> (r: Self)
        ensures
            r == *self,
    {
        ChatEventDescriptionChanged {
            td_name: self.td_name.clone(),
            old_description: self.old_description.clone(),
            new_description: self.new_description.clone(),
        }
    }
}

impl Default for ChatEventDescriptionChanged {
    fn default() -> (r: Self)
        ensures
            r.td_name@ == Seq::<char>::empty(),
            r.old_description@ == Seq::<char>::empty(),
            r.new_description@ == Seq::<char>::empty(),
    {
        ChatEventDescriptionChanged { td_name: String::new(), old_description: String::new(), new_description: String::new() }
    }
}

impl RObject for ChatEventDescriptionChanged {
    fn td_name(&self) -> &'static str {
        "chatEventDescriptionChanged"
    }

    fn extra(&self) -> Option<String> {
        None
    }
}

impl TDChatEventAction for ChatEventDescriptionChanged {
}

impl ChatEventDescriptionChanged {
    pub fn builder() -> (r: RTDChatEventDescriptionChangedBuilder)
        ensures
            r.inner.td_name@ == "chatEventDescriptionChanged"@,
            r.inner.old_description@ == Seq::<char>::empty(),
            r.inner.new_description@ == Seq::<char>::empty(),
    {
        let mut inner = ChatEventDescriptionChanged::default();
        inner.td_name = "chatEventDescriptionChanged".to_owned();
        RTDChatEventDescriptionChangedBuilder { inner }
    }

    /// Previous chat description
    pub fn old_description(&self) -> (r: &String)
        ensures
            r == self.old_description,
    {
        &self.old_description
    }

    /// New chat description
    pub fn new_description(&self) -> (r: &String)
        ensures
            r == self.new_description,
    {
        &self.new_description
    }
}

pub struct RTDChatEventDescriptionChangedBuilder {
    pub inner: ChatEventDescriptionChanged,
}

impl RTDChatEventDescriptionChangedBuilder {
    pub fn build(&self) -> (r: ChatEventDescriptionChanged)
        ensures
            r == self.inner,
    {
        self.inner.clone()
    }

    pub fn old_description(&mut self, old_description: &str)
        ensures
            final(self).inner.old_description@ == old_description@,
            final(self).inner.new_description == old(self).inner.new_description,
            final(self).inner.td_name == old(self).inner.td_name,
    {
        self.inner.old_description = old_description.to_owned();
    }

    pub fn new_description(&mut self, new_description: &str)
        ensures
            final(self).inner.new_description@ == new_description@,
            final(self).inner.old_description == old(self).inner.old_description,
            final(self).inner.td_name == old(self).inner.td_name,
    {
        self.inner.new_description = new_description.to_owned();
    }
}

/// The anyone_can_invite setting of a supergroup chat was toggled
#[derive(Debug)]
pub struct ChatEventInvitesToggled {
    pub td_name: String,
    /// New value of anyone_can_invite
    pub anyone_can_invite: bool,
}

impl Clone for ChatEventInvitesToggled {
    fn clone(&self) -> (r: Self)
        ensures
            r == *self,
    {
        ChatEventInvitesToggled {
            td_name: self.td_name.clone(),
            anyone_can_invite: self.anyone_can_invite,
        }
    }
}

impl Default for ChatEventInvitesToggled {
    fn default() -> (r: Self)
        ensures
            r.td_name@ == Seq::<char>::empty(),
            r.anyone_can_invite == false,
    {
        ChatEventInvitesToggled { td_name: String::new(), anyone_can_invite: false }
    }
}

impl RObject for ChatEventInvitesToggled {
    fn td_name(&self) -> &'static str {
        "chatEventInvitesToggled"
    }

    fn extra(&self) -> Option<String> {
        None
    }
}

impl TDChatEventAction for ChatEventInvitesToggled {
}

impl ChatEventInvitesToggled {
    pub fn builder() -> (r: RTDChatEventInvitesToggledBuilder)
        ensures
            r.inner.td_name@ == "chatEventInvitesToggled"@,
            r.inner.anyone_can_invite == false,
    {
        let mut inner = ChatEventInvitesToggled::default();
        inner.td_name = "chatEventInvitesToggled".to_owned();
        RTDChatEventInvitesToggledBuilder { inner }
    }

    /// New value of anyone_can_invite
    pub fn anyone_can_invite(&self) -> (r: bool)
        ensures
            r == self.anyone_can_invite,
    {
        self.anyone_can_invite
    }
}

pub struct RTDChatEventInvitesToggledBuilder {
    pub inner: ChatEventInvitesToggled,
}

impl RTDChatEventInvitesToggledBuilder {
    pub fn build(&self) -> (r: ChatEventInvitesToggled)
        ensures
            r == self.inner,
    {
        self.inner.clone()
    }

    pub fn anyone_can_invite(&mut self, anyone_can_invite: bool)
        ensures
            final(self).inner.anyone_can_invite == anyone_can_invite,
            final(self).inner.td_name == old(self).inner.td_name,
    {
        self.inner.anyone_can_invite = anyone_can_invite;
    }
}

/// The is_all_history_available setting of a supergroup was toggled
#[derive(Debug)]
pub struct ChatEventIsAllHistoryAvailableToggled {
    pub td_name: String,
    /// New value of is_all_history_available
    pub is_all_history_available: bool,
}

impl Clone for ChatEventIsAllHistoryAvailableToggled {
    fn clone(&self) -> (r: Self)
        ensures
            r == *self,
    {
        ChatEventIsAllHistoryAvailableToggled {
            td_name: self.td_name.clone(),
            is_all_history_available: self.is_all_history_available,
        }
    }
}

impl Default for ChatEventIsAllHistoryAvailableToggled {
    fn default() -> (r: Self)
        ensures
            r.td_name@ == Seq::<char>::empty(),
            r.is_all_history_available == false,
    {
        ChatEventIsAllHistoryAvailableToggled { td_name: String::new(), is_all_history_available: false }
    }
}

impl RObject for ChatEventIsAllHistoryAvailableToggled {
    fn td_name(&self) -> &'static str {
        "chatEventIsAllHistoryAvailableToggled"
    }

    fn extra(&self) -> Option<String> {
        None
    }
}

impl TDChatEventAction for ChatEventIsAllHistoryAvailableToggled {
}

impl ChatEventIsAllHistoryAvailableToggled {
    pub fn builder() -> (r: RTDChatEventIsAllHistoryAvailableToggledBuilder)
        ensures
            r.inner.td_name@ == "chatEventIsAllHistoryAvailableToggled"@,
            r.inner.is_all_history_available == false,
    {
        let mut inner = ChatEventIsAllHistoryAvailableToggled::default();
        inner.td_name = "chatEventIsAllHistoryAvailableToggled".to_owned();
        RTDChatEventIsAllHistoryAvailableToggledBuilder { inner }
    }

    /// New value of is_all_history_available
    pub fn is_all_history_available(&self) -> (r: bool)
        ensures
            r == self.is_all_history_available,
    {
        self.is_all_history_available
    }
}

pub struct RTDChatEventIsAllHistoryAvailableToggledBuilder {
    pub inner: ChatEventIsAllHistoryAvailableToggled,
}

impl RTDChatEventIsAllHistoryAvailableToggledBuilder {
    pub fn build(&self) -> (r: ChatEventIsAllHistoryAvailableToggled)
        ensures
            r == self.inner,
    {
        self.inner.clone()
    }

    pub fn is_all_history_available(&mut self, is_all_history_available: bool)
        ensures
            final(self).inner.is_all_history_available == is_all_history_available,
            final(self).inner.td_name == old(self).inner.td_name,
    {
        self.inner.is_all_history_available = is_all_history_available;
    }
}

/// A new chat member was invited
#[derive(Debug)]
pub struct ChatEventMemberInvited {
    pub td_name: String,
    /// New member user identifier
    pub user_id: i64,
    /// New member status
    pub status: ChatMemberStatus,
}

impl Clone for ChatEventMemberInvited {
    fn clone(&self) -> (r: Self)
        ensures
            r == *self,
    {
        ChatEventMemberInvited {
            td_name: self.td_name.clone(),
            user_id: self.user_id,
            status: self.status.clone(),
        }
    }
}

impl Default for ChatEventMemberInvited {
    fn default() -> (r: Self)
        ensures
            r.td_name@ == Seq::<char>::empty(),
            r.user_id == 0,
            r.status.spec_is_default(),
    {
        ChatEventMemberInvited { td_name: String::new(), user_id: 0, status: ChatMemberStatus::default() }
    }
}

impl RObject for ChatEventMemberInvited {
    fn td_name(&self) -> &'static str {
        "chatEventMemberInvited"
    }

    fn extra(&self) -> Option<String> {
        None
    }
}

impl TDChatEventAction for ChatEventMemberInvited {
}

impl ChatEventMemberInvited {
    pub fn builder() -> (r: RTDChatEventMemberInvitedBuilder)
        ensures
            r.inner.td_name@ == "chatEventMemberInvited"@,
            r.inner.user_id == 0,
            r.inner.status.spec_is_default(),
    {
        let mut inner = ChatEventMemberInvited::default();
        inner.td_name = "chatEventMemberInvited".to_owned();
        RTDChatEventMemberInvitedBuilder { inner }
    }

    /// New member user identifier
    pub fn user_id(&self) -> (r: i64)
        ensures
            r == self.user_id,
    {
        self.user_id
    }

    /// New member status
    pub fn status(&self) -> (r: &ChatMemberStatus)
        ensures
            r == self.status,
    {
        &self.status
    }
}

pub struct RTDChatEventMemberInvitedBuilder {
    pub inner: ChatEventMemberInvited,
}

impl RTDChatEventMemberInvitedBuilder {
    pub fn build(&self) -> (r: ChatEventMemberInvited)
        ensures
            r == self.inner,
    {
        self.inner.clone()
    }

    pub fn user_id(&mut self, user_id: i64)
        ensures
            final(self).inner.user_id == user_id,
            final(self).inner.status == old(self).inner.status,
            final(self).inner.td_name == old(self).inner.td_name,
    {
        self.inner.user_id = user_id;
    }

    pub fn status(&mut self, status: &ChatMemberStatus)
        ensures
            final(self).inner.status == *status,
            final(self).inner.user_id == old(self).inner.user_id,
            final(self).inner.td_name == old(self).inner.td_name,
    {
        self.inner.status = status.clone();
    }
}

/// A new member joined the chat
#[derive(Debug)]
pub struct ChatEventMemberJoined {
    pub td_name: String,
}

impl Clone for ChatEventMemberJoined {
    fn clone(&self) -> (r: Self)
        ensures
            r == *self,
    {
        ChatEventMemberJoined {
            td_name: self.td_name.clone(),
        }
    }
}

impl Default for ChatEventMemberJoined {
    fn default() -> (r: Self)
        ensures
            r.td_name@ == Seq::<char>::empty(),
    {
        ChatEventMemberJoined { td_name: String::new() }
    }
}

impl RObject for ChatEventMemberJoined {
    fn td_name(&self) -> &'static str {
        "chatEventMemberJoined"
    }

    fn extra(&self) -> Option<String> {
        None
    }
}

impl TDChatEventAction for ChatEventMemberJoined {
}

impl ChatEventMemberJoined {
    pub fn builder() -> (r: RTDChatEventMemberJoinedBuilder)
        ensures
            r.inner.td_name@ == "chatEventMemberJoined"@,
    {
        let mut inner = ChatEventMemberJoined::default();
        inner.td_name = "chatEventMemberJoined".to_owned();
        RTDChatEventMemberJoinedBuilder { inner }
    }
}

pub struct RTDChatEventMemberJoinedBuilder {
    pub inner: ChatEventMemberJoined,
}

impl RTDChatEventMemberJoinedBuilder {
    pub fn build(&self) -> (r: ChatEventMemberJoined)
        ensures
            r == self.inner,
    {
        self.inner.clone()
    }
}

/// A member left the chat
#[derive(Debug)]
pub struct ChatEventMemberLeft {
    pub td_name: String,
}

impl Clone for ChatEventMemberLeft {
    fn clone(&self) -> (r: Self)
        ensures
            r == *self,
    {
        ChatEventMemberLeft {
            td_name: self.td_name.clone(),
        }
    }
}

impl Default for ChatEventMemberLeft {
    fn default() -> (r: Self)
        ensures
            r.td_name@ == Seq::<char>::empty(),
    {
        ChatEventMemberLeft { td_name: String::new() }
    }
}

impl RObject for ChatEventMemberLeft {
    fn td_name(&self) -> &'static str {
        "chatEventMemberLeft"
    }

    fn extra(&self) -> Option<String> {
        None
    }
}

impl TDChatEventAction for ChatEventMemberLeft {
}

impl ChatEventMemberLeft {
    pub fn builder() -> (r: RTDChatEventMemberLeftBuilder)
        ensures
            r.inner.td_name@ == "chatEventMemberLeft"@,
    {
        let mut inner = ChatEventMemberLeft::default();
        inner.td_name = "chatEventMemberLeft".to_owned();
        RTDChatEventMemberLeftBuilder { inner }
    }
}

pub struct RTDChatEventMemberLeftBuilder {
    pub inner: ChatEventMemberLeft,
}

impl RTDChatEventMemberLeftBuilder {
    pub fn build(&self) -> (r: ChatEventMemberLeft)
        ensures
            r == self.inner,
    {
        self.inner.clone()
    }
}

/// A chat member has gained/lost administrator status, or the list of their administrator privileges has changed
#[derive(Debug)]
pub struct ChatEventMemberPromoted {
    pub td_name: String,
    /// Chat member user identifier
    pub user_id: i64,
    /// Previous status of the chat member
    pub old_status: ChatMemberStatus,
    /// New status of the chat member
    pub new_status: ChatMemberStatus,
}

impl Clone for ChatEventMemberPromoted {
    fn clone(&self) -> (r: Self)
        ensures
            r == *self,
    {
        ChatEventMemberPromoted {
            td_name: self.td_name.clone(),
            user_id: self.user_id,
            old_status: self.old_status.clone(),
            new_status: self.new_status.clone(),
        }
    }
}

impl Default for ChatEventMemberPromoted {
    fn default() -> (r: Self)
        ensures
            r.td_name@ == Seq::<char>::empty(),
            r.user_id == 0,
            r.old_status.spec_is_default(),
            r.new_status.spec_is_default(),
    {
        ChatEventMemberPromoted { td_name: String::new(), user_id: 0, old_status: ChatMemberStatus::default(), new_status: ChatMemberStatus::default() }
    }
}

impl RObject for ChatEventMemberPromoted {
    fn td_name(&self) -> &'static str {
        "chatEventMemberPromoted"
    }

    fn extra(&self) -> Option<String> {
        None
    }
}

impl TDChatEventAction for ChatEventMemberPromoted {
}

impl ChatEventMemberPromoted {
    pub fn builder() -> (r: RTDChatEventMemberPromotedBuilder)
        ensures
            r.inner.td_name@ == "chatEventMemberPromoted"@,
            r.inner.user_id == 0,
            r.inner.old_status.spec_is_default(),
            r.inner.new_status.spec_is_default(),
    {
        let mut inner = ChatEventMemberPromoted::default();
        inner.td_name = "chatEventMemberPromoted".to_owned();
        RTDChatEventMemberPromotedBuilder { inner }
    }

    /// Chat member user identifier
    pub fn user_id(&self) -> (r: i64)
        ensures
            r == self.user_id,
    {
        self.user_id
    }

    /// Previous status of the chat member
    pub fn old_status(&self) -> (r: &ChatMemberStatus)
        ensures
            r == self.old_status,
    {
        &self.old_status
    }

    /// New status of the chat member
    pub fn new_status(&self) -> (r: &ChatMemberStatus)
        ensures
            r == self.new_status,
    {
        &self.new_status
    }
}

pub struct RTDChatEventMemberPromotedBuilder {
    pub inner: ChatEventMemberPromoted,
}

impl RTDChatEventMemberPromotedBuilder {
    pub fn build(&self) -> (r: ChatEventMemberPromoted)
        ensures
            r == self.inner,
    {
        self.inner.clone()
    }

    pub fn user_id(&mut self, user_id: i64)
        ensures
            final(self).inner.user_id == user_id,
            final(self).inner.old_status == old(self).inner.old_status,
            final(self).inner.new_status == old(self).inner.new_status,
            final(self).inner.td_name == old(self).inner.td_name,
    {
        self.inner.user_id = user_id;
    }

    pub fn old_status(&mut self, old_status: &ChatMemberStatus)
        ensures
            final(self).inner.old_status == *old_status,
            final(self).inner.user_id == old(self).inner.user_id,
            final(self).inner.new_status == old(self).inner.new_status,
            final(self).inner.td_name == old(self).inner.td_name,
    {
        self.inner.old_status = old_status.clone();
    }

    pub fn new_status(&mut self, new_status: &ChatMemberStatus)
        ensures
            final(self).inner.new_status == *new_status,
            final(self).inner.user_id == old(self).inner.user_id,
            final(self).inner.old_status == old(self).inner.old_status,
            final(self).inner.td_name == old(self).inner.td_name,
    {
        self.inner.new_status = new_status.clone();
    }
}

/// A chat member was restricted/unrestricted or banned/unbanned, or the list of their restrictions has changed
#[derive(Debug)]
pub struct ChatEventMemberRestricted {
    pub td_name: String,
    /// Chat member user identifier
    pub user_id: i64,
    /// Previous status of the chat member
    pub old_status: ChatMemberStatus,
    /// New status of the chat member
    pub new_status: ChatMemberStatus,
}

impl Clone for ChatEventMemberRestricted {
    fn clone(&self) -> (r: Self)
        ensures
            r == *self,
    {
        ChatEventMemberRestricted {
            td_name: self.td_name.clone(),
            user_id: self.user_id,
            old_status: self.old_status.clone(),
            new_status: self.new_status.clone(),
        }
    }
}

impl Default for ChatEventMemberRestricted {
    fn default() -> (r: Self)
        ensures
            r.td_name@ == Seq::<char>::empty(),
            r.user_id == 0,
            r.old_status.spec_is_default(),
            r.new_status.spec_is_default(),
    {
        ChatEventMemberRestricted { td_name: String::new(), user_id: 0, old_status: ChatMemberStatus::default(), new_status: ChatMemberStatus::default() }
    }
}

impl RObject for ChatEventMemberRestricted {
    fn td_name(&self) -> &'static str {
        "chatEventMemberRestricted"
    }

    fn extra(&self) -> Option<String> {
        None
    }
}

impl TDChatEventAction for ChatEventMemberRestricted {
}

impl ChatEventMemberRestricted {
    pub fn builder() -> (r: RTDChatEventMemberRestrictedBuilder)
        ensures
            r.inner.td_name@ == "chatEventMemberRestricted"@,
            r.inner.user_id == 0,
            r.inner.old_status.spec_is_default(),
            r.inner.new_status.spec_is_default(),
    {
        let mut inner = ChatEventMemberRestricted::default();
        inner.td_name = "chatEventMemberRestricted".to_owned();
        RTDChatEventMemberRestrictedBuilder { inner }
    }

    /// Chat member user identifier
    pub fn user_id(&self) -> (r: i64)
        ensures
            r == self.user_id,
    {
        self.user_id
    }

    /// Previous status of the chat member
    pub fn old_status(&self) -> (r: &ChatMemberStatus)
        ensures
            r == self.old_status,
    {
        &self.old_status
    }

    /// New status of the chat member
    pub fn new_status(&self) -> (r: &ChatMemberStatus)
        ensures
            r == self.new_status,
    {
        &self.new_status
    }
}

pub struct RTDChatEventMemberRestrictedBuilder {
    pub inner: ChatEventMemberRestricted,
}

impl RTDChatEventMemberRestrictedBuilder {
    pub fn build(&self) -> (r: ChatEventMemberRestricted)
        ensures
            r == self.inner,
    {
        self.inner.clone()
    }

    pub fn user_id(&mut self, user_id: i64)
        ensures
            final(self).inner.user_id == user_id,
            final(self).inner.old_status == old(self).inner.old_status,
            final(self).inner.new_status == old(self).inner.new_status,
            final(self).inner.td_name == old(self).inner.td_name,
    {
        self.inner.user_id = user_id;
    }

    pub fn old_status(&mut self, old_status: &ChatMemberStatus)
        ensures
            final(self).inner.old_status == *old_status,
            final(self).inner.user_id == old(self).inner.user_id,
            final(self).inner.new_status == old(self).inner.new_status,
            final(self).inner.td_name == old(self).inner.td_name,
    {
        self.inner.old_status = old_status.clone();
    }

    pub fn new_status(&mut self, new_status: &ChatMemberStatus)
        ensures
            final(self).inner.new_status == *new_status,
            final(self).inner.user_id == old(self).inner.user_id,
            final(self).inner.old_status == old(self).inner.old_status,
            final(self).inner.td_name == old(self).inner.td_name,
    {
        self.inner.new_status = new_status.clone();
    }
}

/// A message was deleted
#[derive(Debug)]
pub struct ChatEventMessageDeleted {
    pub td_name: String,
    /// Deleted message
    pub message: Message,
}

impl Clone for ChatEventMessageDeleted {
    fn clone(&self) -> (r: Self)
        ensures
            r == *self,
    {
        ChatEventMessageDeleted {
            td_name: self.td_name.clone(),
            message: self.message.clone(),
        }
    }
}

impl Default for ChatEventMessageDeleted {
    fn default() -> (r: Self)
        ensures
            r.td_name@ == Seq::<char>::empty(),
            r.message.spec_is_default(),
    {
        ChatEventMessageDeleted { td_name: String::new(), message: Message::default() }
    }
}

impl RObject for ChatEventMessageDeleted {
    fn td_name(&self) -> &'static str {
        "chatEventMessageDeleted"
    }

    fn extra(&self) -> Option<String> {
        None
    }
}

impl TDChatEventAction for ChatEventMessageDeleted {
}

impl ChatEventMessageDeleted {
    pub fn builder() -> (r: RTDChatEventMessageDeletedBuilder)
        ensures
            r.inner.td_name@ == "chatEventMessageDeleted"@,
            r.inner.message.spec_is_default(),
    {
        let mut inner = ChatEventMessageDeleted::default();
        inner.td_name = "chatEventMessageDeleted".to_owned();
        RTDChatEventMessageDeletedBuilder { inner }
    }

    /// Deleted message
    pub fn message(&self) -> (r: &Message)
        ensures
            r == self.message,
    {
        &self.message
    }
}

pub struct RTDChatEventMessageDeletedBuilder {
    pub inner: ChatEventMessageDeleted,
}

impl RTDChatEventMessageDeletedBuilder {
    pub fn build(&self) -> (r: ChatEventMessageDeleted)
        ensures
            r == self.inner,
    {
        self.inner.clone()
    }

    pub fn message(&mut self, message: &Message)
        ensures
            final(self).inner.message == *message,
            final(self).inner.td_name == old(self).inner.td_name,
    {
        self.inner.message = message.clone();
    }
}

/// A message was edited
#[derive(Debug)]
pub struct ChatEventMessageEdited {
    pub td_name: String,
    /// The original message before the edit
    pub old_message: Message,
    /// The message after it was edited
    pub new_message: Message,
}

impl Clone for ChatEventMessageEdited {
    fn clone(&self) -> (r: Self)
        ensures
            r == *self,
    {
        ChatEventMessageEdited {
            td_name: self.td_name.clone(),
            old_message: self.old_message.clone(),
            new_message: self.new_message.clone(),
        }
    }
}

impl Default for ChatEventMessageEdited {
    fn default() -> (r: Self)
        ensures
            r.td_name@ == Seq::<char>::empty(),
            r.old_message.spec_is_default(),
            r.new_message.spec_is_default(),
    {
        ChatEventMessageEdited { td_name: String::new(), old_message: Message::default(), new_message: Message::default() }
    }
}

impl RObject for ChatEventMessageEdited {
    fn td_name(&self) -> &'static str {
        "chatEventMessageEdited"
    }

    fn extra(&self) -> Option<String> {
        None
    }
}

impl TDChatEventAction for ChatEventMessageEdited {
}

impl ChatEventMessageEdited {
    pub fn builder() -> (r: RTDChatEventMessageEditedBuilder)
        ensures
            r.inner.td_name@ == "chatEventMessageEdited"@,
            r.inner.old_message.spec_is_default(),
            r.inner.new_message.spec_is_default(),
    {
        let mut inner = ChatEventMessageEdited::default();
        inner.td_name = "chatEventMessageEdited".to_owned();
        RTDChatEventMessageEditedBuilder { inner }
    }

    /// The original message before the edit
    pub fn old_message(&self) -> (r: &Message)
        ensures
            r == self.old_message,
    {
        &self.old_message
    }

    /// The message after it was edited
    pub fn new_message(&self) -> (r: &Message)
        ensures
            r == self.new_message,
    {
        &self.new_message
    }
}

pub struct RTDChatEventMessageEditedBuilder {
    pub inner: ChatEventMessageEdited,
}

impl RTDChatEventMessageEditedBuilder {
    pub fn build(&self) -> (r: ChatEventMessageEdited)
        ensures
            r == self.inner,
    {
        self.inner.clone()
    }

    pub fn old_message(&mut self, old_message: &Message)
        ensures
            final(self).inner.old_message == *old_message,
            final(self).inner.new_message == old(self).inner.new_message,
            final(self).inner.td_name == old(self).inner.td_name,
    {
        self.inner.old_message = old_message.clone();
    }

    pub fn new_message(&mut self, new_message: &Message)
        ensures
            final(self).inner.new_message == *new_message,
            final(self).inner.old_message == old(self).inner.old_message,
            final(self).inner.td_name == old(self).inner.td_name,
    {
        self.inner.new_message = new_message.clone();
    }
}

/// A message was pinned
#[derive(Debug)]
pub struct ChatEventMessagePinned {
    pub td_name: String,
    /// Pinned message
    pub message: Message,
}

impl Clone for ChatEventMessagePinned {
    fn clone(&self) -> (r: Self)
        ensures
            r == *self,
    {
        ChatEventMessagePinned {
            td_name: self.td_name.clone(),
            message: self.message.clone(),
        }
    }
}

impl Default for ChatEventMessagePinned {
    fn default() -> (r: Self)
        ensures
            r.td_name@ == Seq::<char>::empty(),
            r.message.spec_is_default(),
    {
        ChatEventMessagePinned { td_name: String::new(), message: Message::default() }
    }
}

impl RObject for ChatEventMessagePinned {
    fn td_name(&self) -> &'static str {
        "chatEventMessagePinned"
    }

    fn extra(&self) -> Option<String> {
        None
    }
}

impl TDChatEventAction for ChatEventMessagePinned {
}

impl ChatEventMessagePinned {
    pub fn builder() -> (r: RTDChatEventMessagePinnedBuilder)
        ensures
            r.inner.td_name@ == "chatEventMessagePinned"@,
            r.inner.message.spec_is_default(),
    {
        let mut inner = ChatEventMessagePinned::default();
        inner.td_name = "chatEventMessagePinned".to_owned();
        RTDChatEventMessagePinnedBuilder { inner }
    }

    /// Pinned message
    pub fn message(&self) -> (r: &Message)
        ensures
            r == self.message,
    {
        &self.message
    }
}

pub struct RTDChatEventMessagePinnedBuilder {
    pub inner: ChatEventMessagePinned,
}

impl RTDChatEventMessagePinnedBuilder {
    pub fn build(&self) -> (r: ChatEventMessagePinned)
        ensures
            r == self.inner,
    {
        self.inner.clone()
    }

    pub fn message(&mut self, message: &Message)
        ensures
            final(self).inner.message == *message,
            final(self).inner.td_name == old(self).inner.td_name,
    {
        self.inner.message = message.clone();
    }
}

/// A message was unpinned
#[derive(Debug)]
pub struct ChatEventMessageUnpinned {
    pub td_name: String,
}

impl Clone for ChatEventMessageUnpinned {
    fn clone(&self) -> (r: Self)
        ensures
            r == *self,
    {
        ChatEventMessageUnpinned {
            td_name: self.td_name.clone(),
        }
    }
}

impl Default for ChatEventMessageUnpinned {
    fn default() -> (r: Self)
        ensures
            r.td_name@ == Seq::<char>::empty(),
    {
        ChatEventMessageUnpinned { td_name: String::new() }
    }
}

impl RObject for ChatEventMessageUnpinned {
    fn td_name(&self) -> &'static str {
        "chatEventMessageUnpinned"
    }

    fn extra(&self) -> Option<String> {
        None
    }
}

impl TDChatEventAction for ChatEventMessageUnpinned {
}

impl ChatEventMessageUnpinned {
    pub fn builder() -> (r: RTDChatEventMessageUnpinnedBuilder)
        ensures
            r.inner.td_name@ == "chatEventMessageUnpinned"@,
    {
        let mut inner = ChatEventMessageUnpinned::default();
        inner.td_name = "chatEventMessageUnpinned".to_owned();
        RTDChatEventMessageUnpinnedBuilder { inner }
    }
}

pub struct RTDChatEventMessageUnpinnedBuilder {
    pub inner: ChatEventMessageUnpinned,
}

impl RTDChatEventMessageUnpinnedBuilder {
    pub fn build(&self) -> (r: ChatEventMessageUnpinned)
        ensures
            r == self.inner,
    {
        self.inner.clone()
    }
}

/// The chat photo was changed
#[derive(Debug)]
pub struct ChatEventPhotoChanged {
    pub td_name: String,
    /// Previous chat photo value; may be null
    pub old_photo: Option<ChatPhoto>,
    /// New chat photo value; may be null
    pub new_photo: Option<ChatPhoto>,
}

impl Clone for ChatEventPhotoChanged {
    fn clone(&self) -> (r: Self)
        ensures
            r == *self,
    {
        ChatEventPhotoChanged {
            td_name: self.td_name.clone(),
            old_photo: match &self.old_photo {
                Some(v) => Some(v.clone()),
                None => None,
            },
            new_photo: match &self.new_photo {
                Some(v) => Some(v.clone()),
                None => None,
            },
        }
    }
}

impl Default for ChatEventPhotoChanged {
    fn default() -> (r: Self)
        ensures
            r.td_name@ == Seq::<char>::empty(),
            r.old_photo is None,
            r.new_photo is None,
    {
        ChatEventPhotoChanged { td_name: String::new(), old_photo: None, new_photo: None }
    }
}

impl RObject for ChatEventPhotoChanged {
    fn td_name(&self) -> &'static str {
        "chatEventPhotoChanged"
    }

    fn extra(&self) -> Option<String> {
        None
    }
}

impl TDChatEventAction for ChatEventPhotoChanged {
}

impl ChatEventPhotoChanged {
    pub fn builder() -> (r: RTDChatEventPhotoChangedBuilder)
        ensures
            r.inner.td_name@ == "chatEventPhotoChanged"@,
            r.inner.old_photo is None,
            r.inner.new_photo is None,
    {
        let mut inner = ChatEventPhotoChanged::default();
        inner.td_name = "chatEventPhotoChanged".to_owned();
        RTDChatEventPhotoChangedBuilder { inner }
    }

    /// Previous chat photo value; may be null
    pub fn old_photo(&self) -> (r: &Option<ChatPhoto>)
        ensures
            r == self.old_photo,
    {
        &self.old_photo
    }

    /// New chat photo value; may be null
    pub fn new_photo(&self) -> (r: &Option<ChatPhoto>)
        ensures
            r == self.new_photo,
    {
        &self.new_photo
    }
}

pub struct RTDChatEventPhotoChangedBuilder {
    pub inner: ChatEventPhotoChanged,
}

impl RTDChatEventPhotoChangedBuilder {
    pub fn build(&self) -> (r: ChatEventPhotoChanged)
        ensures
            r == self.inner,
    {
        self.inner.clone()
    }

    pub fn old_photo(&mut self, old_photo: &ChatPhoto)
        ensures
            final(self).inner.old_photo == Some(*old_photo),
            final(self).inner.new_photo == old(self).inner.new_photo,
            final(self).inner.td_name == old(self).inner.td_name,
    {
        self.inner.old_photo = Some(old_photo.clone());
    }

    pub fn new_photo(&mut self, new_photo: &ChatPhoto)
        ensures
            final(self).inner.new_photo == Some(*new_photo),
            final(self).inner.old_photo == old(self).inner.old_photo,
            final(self).inner.td_name == old(self).inner.td_name,
    {
        self.inner.new_photo = Some(new_photo.clone());
    }
}

/// The sign_messages setting of a channel was toggled
#[derive(Debug)]
pub struct ChatEventSignMessagesToggled {
    pub td_name: String,
    /// New value of sign_messages
    pub sign_messages: bool,
}

impl Clone for ChatEventSignMessagesToggled {
    fn clone(&self) -> (r: Self)
        ensures
            r == *self,
    {
        ChatEventSignMessagesToggled {
            td_name: self.td_name.clone(),
            sign_messages: self.sign_messages,
        }
    }
}

impl Default for ChatEventSignMessagesToggled {
    fn default() -> (r: Self)
        ensures
            r.td_name@ == Seq::<char>::empty(),
            r.sign_messages == false,
    {
        ChatEventSignMessagesToggled { td_name: String::new(), sign_messages: false }
    }
}

impl RObject for ChatEventSignMessagesToggled {
    fn td_name(&self) -> &'static str {
        "chatEventSignMessagesToggled"
    }

    fn extra(&self) -> Option<String> {
        None
    }
}

impl TDChatEventAction for ChatEventSignMessagesToggled {
}

impl ChatEventSignMessagesToggled {
    pub fn builder() -> (r: RTDChatEventSignMessagesToggledBuilder)
        ensures
            r.inner.td_name@ == "chatEventSignMessagesToggled"@,
            r.inner.sign_messages == false,
    {
        let mut inner = ChatEventSignMessagesToggled::default();
        inner.td_name = "chatEventSignMessagesToggled".to_owned();
        RTDChatEventSignMessagesToggledBuilder { inner }
    }

    /// New value of sign_messages
    pub fn sign_messages(&self) -> (r: bool)
        ensures
            r == self.sign_messages,
    {
        self.sign_messages
    }
}

pub struct RTDChatEventSignMessagesToggledBuilder {
    pub inner: ChatEventSignMessagesToggled,
}

impl RTDChatEventSignMessagesToggledBuilder {
    pub fn build(&self) -> (r: ChatEventSignMessagesToggled)
        ensures
            r == self.inner,
    {
        self.inner.clone()
    }

    pub fn sign_messages(&mut self, sign_messages: bool)
        ensures
            final(self).inner.sign_messages == sign_messages,
            final(self).inner.td_name == old(self).inner.td_name,
    {
        self.inner.sign_messages = sign_messages;
    }
}

/// The supergroup sticker set was changed
#[derive(Debug)]
pub struct ChatEventStickerSetChanged {
    pub td_name: String,
    /// Previous identifier of the chat sticker set; 0 if none
    pub old_sticker_set_id: isize,
    /// New identifier of the chat sticker set; 0 if none
    pub new_sticker_set_id: isize,
}

impl Clone for ChatEventStickerSetChanged {
    fn clone(&self) -> (r: Self)
        ensures
            r == *self,
    {
        ChatEventStickerSetChanged {
            td_name: self.td_name.clone(),
            old_sticker_set_id: self.old_sticker_set_id,
            new_sticker_set_id: self.new_sticker_set_id,
        }
    }
}

impl Default for ChatEventStickerSetChanged {
    fn default() -> (r: Self)
        ensures
            r.td_name@ == Seq::<char>::empty(),
            r.old_sticker_set_id == 0,
            r.new_sticker_set_id == 0,
    {
        ChatEventStickerSetChanged { td_name: String::new(), old_sticker_set_id: 0, new_sticker_set_id: 0 }
    }
}

impl RObject for ChatEventStickerSetChanged {
    fn td_name(&self) -> &'static str {
        "chatEventStickerSetChanged"
    }

    fn extra(&self) -> Option<String> {
        None
    }
}

impl TDChatEventAction for ChatEventStickerSetChanged {
}

impl ChatEventStickerSetChanged {
    pub fn builder() -> (r: RTDChatEventStickerSetChangedBuilder)
        ensures
            r.inner.td_name@ == "chatEventStickerSetChanged"@,
            r.inner.old_sticker_set_id == 0,
            r.inner.new_sticker_set_id == 0,
    {
        let mut inner = ChatEventStickerSetChanged::default();
        inner.td_name = "chatEventStickerSetChanged".to_owned();
        RTDChatEventStickerSetChangedBuilder { inner }
    }

    /// Previous identifier of the chat sticker set; 0 if none
    pub fn old_sticker_set_id(&self) -> (r: isize)
        ensures
            r == self.old_sticker_set_id,
    {
        self.old_sticker_set_id
    }

    /// New identifier of the chat sticker set; 0 if none
    pub fn new_sticker_set_id(&self) -> (r: isize)
        ensures
            r == self.new_sticker_set_id,
    {
        self.new_sticker_set_id
    }
}

pub struct RTDChatEventStickerSetChangedBuilder {
    pub inner: ChatEventStickerSetChanged,
}

impl RTDChatEventStickerSetChangedBuilder {
    pub fn build(&self) -> (r: ChatEventStickerSetChanged)
        ensures
            r == self.inner,
    {
        self.inner.clone()
    }

    pub fn old_sticker_set_id(&mut self, old_sticker_set_id: isize)
        ensures
            final(self).inner.old_sticker_set_id == old_sticker_set_id,
            final(self).inner.new_sticker_set_id == old(self).inner.new_sticker_set_id,
            final(self).inner.td_name == old(self).inner.td_name,
    {
        self.inner.old_sticker_set_id = old_sticker_set_id;
    }

    pub fn new_sticker_set_id(&mut self, new_sticker_set_id: isize)
        ensures
            final(self).inner.new_sticker_set_id == new_sticker_set_id,
            final(self).inner.old_sticker_set_id == old(self).inner.old_sticker_set_id,
            final(self).inner.td_name == old(self).inner.td_name,
    {
        self.inner.new_sticker_set_id = new_sticker_set_id;
    }
}

/// The chat title was changed
#[derive(Debug)]
pub struct ChatEventTitleChanged {
    pub td_name: String,
    /// Previous chat title
    pub old_title: String,
    /// New chat title
    pub new_title: String,
}

impl Clone for ChatEventTitleChanged {
    fn clone(&self) -> (r: Self)
        ensures
            r == *self,
    {
        ChatEventTitleChanged {
            td_name: self.td_name.clone(),
            old_title: self.old_title.clone(),
            new_title: self.new_title.clone(),
        }
    }
}

impl Default for ChatEventTitleChanged {
    fn default() -> (r: Self)
        ensures
            r.td_name@ == Seq::<char>::empty(),
            r.old_title@ == Seq::<char>::empty(),
            r.new_title@ == Seq::<char>::empty(),
    {
        ChatEventTitleChanged { td_name: String::new(), old_title: String::new(), new_title: String::new() }
    }
}

impl RObject for ChatEventTitleChanged {
    fn td_name(&self) -> &'static str {
        "chatEventTitleChanged"
    }

    fn extra(&self) -> Option<String> {
        None
    }
}

impl TDChatEventAction for ChatEventTitleChanged {
}

impl ChatEventTitleChanged {
    pub fn builder() -> (r: RTDChatEventTitleChangedBuilder)
        ensures
            r.inner.td_name@ == "chatEventTitleChanged"@,
            r.inner.old_title@ == Seq::<char>::empty(),
            r.inner.new_title@ == Seq::<char>::empty(),
    {
        let mut inner = ChatEventTitleChanged::default();
        inner.td_name = "chatEventTitleChanged".to_owned();
        RTDChatEventTitleChangedBuilder { inner }
    }

    /// Previous chat title
    pub fn old_title(&self) -> (r: &String)
        ensures
            r == self.old_title,
    {
        &self.old_title
    }

    /// New chat title
    pub fn new_title(&self) -> (r: &String)
        ensures
            r == self.new_title,
    {
        &self.new_title
    }
}

pub struct RTDChatEventTitleChangedBuilder {
    pub inner: ChatEventTitleChanged,
}

impl RTDChatEventTitleChangedBuilder {
    pub fn build(&self) -> (r: ChatEventTitleChanged)
        ensures
            r == self.inner,
    {
        self.inner.clone()
    }

    pub fn old_title(&mut self, old_title: &str)
        ensures
            final(self).inner.old_title@ == old_title@,
            final(self).inner.new_title == old(self).inner.new_title,
            final(self).inner.td_name == old(self).inner.td_name,
    {
        self.inner.old_title = old_title.to_owned();
    }

    pub fn new_title(&mut self, new_title: &str)
        ensures
            final(self).inner.new_title@ == new_title@,
            final(self).inner.old_title == old(self).inner.old_title,
            final(self).inner.td_name == old(self).inner.td_name,
    {
        self.inner.new_title = new_title.to_owned();
    }
}

/// The chat username was changed
#[derive(Debug)]
pub struct ChatEventUsernameChanged {
    pub td_name: String,
    /// Previous chat username
    pub old_username: String,
    /// New chat username
    pub new_username: String,
}

impl Clone for ChatEventUsernameChanged {
    fn clone(&self) -> (r: Self)
        ensures
            r == *self,
    {
        ChatEventUsernameChanged {
            td_name: self.td_name.clone(),
            old_username: self.old_username.clone(),
            new_username: self.new_username.clone(),
        }
    }
}

impl Default for ChatEventUsernameChanged {
    fn default() -> (r: Self)
        ensures
            r.td_name@ == Seq::<char>::empty(),
            r.old_username@ == Seq::<char>::empty(),
            r.new_username@ == Seq::<char>::empty(),
    {
        ChatEventUsernameChanged { td_name: String::new(), old_username: String::new(), new_username: String::new() }
    }
}

impl RObject for ChatEventUsernameChanged {
    fn td_name(&self) -> &'static str {
        "chatEventUsernameChanged"
    }

    fn extra(&self) -> Option<String> {
        None
    }
}

impl TDChatEventAction for ChatEventUsernameChanged {
}

impl ChatEventUsernameChanged {
    pub fn builder() -> (r: RTDChatEventUsernameChangedBuilder)
        ensures
            r.inner.td_name@ == "chatEventUsernameChanged"@,
            r.inner.old_username@ == Seq::<char>::empty(),
            r.inner.new_username@ == Seq::<char>::empty(),
    {
        let mut inner = ChatEventUsernameChanged::default();
        inner.td_name = "chatEventUsernameChanged".to_owned();
        RTDChatEventUsernameChangedBuilder { inner }
    }

    /// Previous chat username
    pub fn old_username(&self) -> (r: &String)
        ensures
            r == self.old_username,
    {
        &self.old_username
    }

    /// New chat username
    pub fn new_username(&self) -> (r: &String)
        ensures
            r == self.new_username,
    {
        &self.new_username
    }
}

pub struct RTDChatEventUsernameChangedBuilder {
    pub inner: ChatEventUsernameChanged,
}

impl RTDChatEventUsernameChangedBuilder {
    pub fn build(&self) -> (r: ChatEventUsernameChanged)
        ensures
            r == self.inner,
    {
        self.inner.clone()
    }

    pub fn old_username(&mut self, old_username: &str)
        ensures
            final(self).inner.old_username@ == old_username@,
            final(self).inner.new_username == old(self).inner.new_username,
            final(self).inner.td_name == old(self).inner.td_name,
    {
        self.inner.old_username = old_username.to_owned();
    }

    pub fn new_username(&mut self, new_username: &str)
        ensures
            final(self).inner.new_username@ == new_username@,
            final(self).inner.old_username == old(self).inner.old_username,
            final(self).inner.td_name == old(self).inner.td_name,
    {
        self.inner.new_username = new_username.to_owned();
    }
}

} // verus!
