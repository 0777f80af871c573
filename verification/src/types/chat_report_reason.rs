//! Describes the reason why a chat is reported

use vstd::prelude::*;

use crate::types::{new_extra, RObject};

verus! {

/// Describes the reason why a chat is reported
pub trait TDChatReportReason: RObject {
}

/// Describes the reason why a chat is reported
#[derive(Debug)]
pub enum ChatReportReason {
    _Default(()),
    /// The chat has child abuse related content
    ChildAbuse(ChatReportReasonChildAbuse),
    /// The chat contains copyrighted content
    Copyright(ChatReportReasonCopyright),
    /// A custom reason provided by the user
    Custom(ChatReportReasonCustom),
    /// The chat represents a fake account
    Fake(ChatReportReasonFake),
    /// The chat contains pornographic messages
    Pornography(ChatReportReasonPornography),
    /// The chat contains spam messages
    Spam(ChatReportReasonSpam),
    /// The location-based chat is unrelated to its stated location
    UnrelatedLocation(ChatReportReasonUnrelatedLocation),
    /// The chat promotes violence
    Violence(ChatReportReasonViolence),
}

impl Clone for ChatReportReason {
    fn clone(&self) -> (r: Self)
        ensures
            r == *self,
    {
        match self {
            ChatReportReason::_Default(_) => ChatReportReason::_Default(()),
            ChatReportReason::ChildAbuse(t) => ChatReportReason::ChildAbuse(t.clone()),
            ChatReportReason::Copyright(t) => ChatReportReason::Copyright(t.clone()),
            ChatReportReason::Custom(t) => ChatReportReason::Custom(t.clone()),
            ChatReportReason::Fake(t) => ChatReportReason::Fake(t.clone()),
            ChatReportReason::Pornography(t) => ChatReportReason::Pornography(t.clone()),
            ChatReportReason::Spam(t) => ChatReportReason::Spam(t.clone()),
            ChatReportReason::UnrelatedLocation(t) => ChatReportReason::UnrelatedLocation(t.clone()),
            ChatReportReason::Violence(t) => ChatReportReason::Violence(t.clone()),
        }
    }
}

impl Default for ChatReportReason {
    fn default() -> (r: Self)
        ensures
            r == ChatReportReason::_Default(()),
    {
        ChatReportReason::_Default(())
    }
}

impl RObject for ChatReportReason {
    fn td_name(&self) -> &'static str {
        match self {
            ChatReportReason::ChildAbuse(t) => t.td_name(),
            ChatReportReason::Copyright(t) => t.td_name(),
            ChatReportReason::Custom(t) => t.td_name(),
            ChatReportReason::Fake(t) => t.td_name(),
            ChatReportReason::Pornography(t) => t.td_name(),
            ChatReportReason::Spam(t) => t.td_name(),
            ChatReportReason::UnrelatedLocation(t) => t.td_name(),
            ChatReportReason::Violence(t) => t.td_name(),
            _ => "-1",
        }
    }

    fn extra(&self) -> Option<String> {
        match self {
            ChatReportReason::ChildAbuse(t) => t.extra(),
            ChatReportReason::Copyright(t) => t.extra(),
            ChatReportReason::Custom(t) => t.extra(),
            ChatReportReason::Fake(t) => t.extra(),
            ChatReportReason::Pornography(t) => t.extra(),
            ChatReportReason::Spam(t) => t.extra(),
            ChatReportReason::UnrelatedLocation(t) => t.extra(),
            ChatReportReason::Violence(t) => t.extra(),
            _ => None,
        }
    }
}

impl ChatReportReason {
    pub fn _is_default(&self) -> (r: bool)
        ensures
            r == (self is _Default),
    {
        if let ChatReportReason::_Default(_) = self {
            true
        } else {
            false
        }
    }

    pub fn is_child_abuse(&self) -> (r: bool)
        ensures
            r == (self is ChildAbuse),
    {
        if let ChatReportReason::ChildAbuse(_) = self {
            true
        } else {
            false
        }
    }

    pub fn is_copyright(&self) -> (r: bool)
        ensures
            r == (self is Copyright),
    {
        if let ChatReportReason::Copyright(_) = self {
            true
        } else {
            false
        }
    }

    pub fn is_custom(&self) -> (r: bool)
        ensures
            r == (self is Custom),
    {
        if let ChatReportReason::Custom(_) = self {
            true
        } else {
            false
        }
    }

    pub fn is_fake(&self) -> (r: bool)
        ensures
            r == (self is Fake),
    {
        if let ChatReportReason::Fake(_) = self {
            true
        } else {
            false
        }
    }

    pub fn is_pornography(&self) -> (r: bool)
        ensures
            r == (self is Pornography),
    {
        if let ChatReportReason::Pornography(_) = self {
            true
        } else {
            false
        }
    }

    pub fn is_spam(&self) -> (r: bool)
        ensures
            r == (self is Spam),
    {
        if let ChatReportReason::Spam(_) = self {
            true
        } else {
            false
        }
    }

    pub fn is_unrelated_location(&self) -> (r: bool)
        ensures
            r == (self is UnrelatedLocation),
    {
        if let ChatReportReason::UnrelatedLocation(_) = self {
            true
        } else {
            false
        }
    }

    pub fn is_violence(&self) -> (r: bool)
        ensures
            r == (self is Violence),
    {
        if let ChatReportReason::Violence(_) = self {
            true
        } else {
            false
        }
    }

    pub fn on_child_abuse<F: FnOnce(&ChatReportReasonChildAbuse)>(&self, fnc: F) -> (r: &Self)
        requires
            forall|t: &ChatReportReasonChildAbuse| #[trigger] fnc.requires((t,)),
        ensures
            r == self,
            *self matches ChatReportReason::ChildAbuse(c) ==> fnc.ensures((&c,), ()),
    {
        if let ChatReportReason::ChildAbuse(t) = self {
            fnc(t)
        };
        self
    }

    pub fn on_copyright<F: FnOnce(&ChatReportReasonCopyright)>(&self, fnc: F) -> (r: &Self)
        requires
            forall|t: &ChatReportReasonCopyright| #[trigger] fnc.requires((t,)),
        ensures
            r == self,
            *self matches ChatReportReason::Copyright(c) ==> fnc.ensures((&c,), ()),
    {
        if let ChatReportReason::Copyright(t) = self {
            fnc(t)
        };
        self
    }

    pub fn on_custom<F: FnOnce(&ChatReportReasonCustom)>(&self, fnc: F) -> (r: &Self)
        requires
            forall|t: &ChatReportReasonCustom| #[trigger] fnc.requires((t,)),
        ensures
            r == self,
            *self matches ChatReportReason::Custom(c) ==> fnc.ensures((&c,), ()),
    {
        if let ChatReportReason::Custom(t) = self {
            fnc(t)
        };
        self
    }

    pub fn on_fake<F: FnOnce(&ChatReportReasonFake)>(&self, fnc: F) -> (r: &Self)
        requires
            forall|t: &ChatReportReasonFake| #[trigger] fnc.requires((t,)),
        ensures
            r == self,
            *self matches ChatReportReason::Fake(c) ==> fnc.ensures((&c,), ()),
    {
        if let ChatReportReason::Fake(t) = self {
            fnc(t)
        };
        self
    }

    pub fn on_pornography<F: FnOnce(&ChatReportReasonPornography)>(&self, fnc: F) -> (r: &Self)
        requires
            forall|t: &ChatReportReasonPornography| #[trigger] fnc.requires((t,)),
        ensures
            r == self,
            *self matches ChatReportReason::Pornography(c) ==> fnc.ensures((&c,), ()),
    {
        if let ChatReportReason::Pornography(t) = self {
            fnc(t)
        };
        self
    }

    pub fn on_spam<F: FnOnce(&ChatReportReasonSpam)>(&self, fnc: F) -> (r: &Self)
        requires
            forall|t: &ChatReportReasonSpam| #[trigger] fnc.requires((t,)),
        ensures
            r == self,
            *self matches ChatReportReason::Spam(c) ==> fnc.ensures((&c,), ()),
    {
        if let ChatReportReason::Spam(t) = self {
            fnc(t)
        };
        self
    }

    pub fn on_unrelated_location<F: FnOnce(&ChatReportReasonUnrelatedLocation)>(&self, fnc: F) -> (r: &Self)
        requires
            forall|t: &ChatReportReasonUnrelatedLocation| #[trigger] fnc.requires((t,)),
        ensures
            r == self,
            *self matches ChatReportReason::UnrelatedLocation(c) ==> fnc.ensures((&c,), ()),
    {
        if let ChatReportReason::UnrelatedLocation(t) = self {
            fnc(t)
        };
        self
    }

    pub fn on_violence<F: FnOnce(&ChatReportReasonViolence)>(&self, fnc: F) -> (r: &Self)
        requires
            forall|t: &ChatReportReasonViolence| #[trigger] fnc.requires((t,)),
        ensures
            r == self,
            *self matches ChatReportReason::Violence(c) ==> fnc.ensures((&c,), ()),
    {
        if let ChatReportReason::Violence(t) = self {
            fnc(t)
        };
        self
    }

    pub fn as_child_abuse(&self) -> (r: Option<&ChatReportReasonChildAbuse>)
        ensures
            (r is Some) == (self is ChildAbuse),
            r matches Some(t) ==> *self matches ChatReportReason::ChildAbuse(c) && *t == c,
    {
        if let ChatReportReason::ChildAbuse(t) = self {
            return Some(t);
        }
        None
    }

    pub fn as_copyright(&self) -> (r: Option<&ChatReportReasonCopyright>)
        ensures
            (r is Some) == (self is Copyright),
            r matches Some(t) ==> *self matches ChatReportReason::Copyright(c) && *t == c,
    {
        if let ChatReportReason::Copyright(t) = self {
            return Some(t);
        }
        None
    }

    pub fn as_custom(&self) -> (r: Option<&ChatReportReasonCustom>)
        ensures
            (r is Some) == (self is Custom),
            r matches Some(t) ==> *self matches ChatReportReason::Custom(c) && *t == c,
    {
        if let ChatReportReason::Custom(t) = self {
            return Some(t);
        }
        None
    }

    pub fn as_fake(&self) -> (r: Option<&ChatReportReasonFake>)
        ensures
            (r is Some) == (self is Fake),
            r matches Some(t) ==> *self matches ChatReportReason::Fake(c) && *t == c,
    {
        if let ChatReportReason::Fake(t) = self {
            return Some(t);
        }
        None
    }

    pub fn as_pornography(&self) -> (r: Option<&ChatReportReasonPornography>)
        ensures
            (r is Some) == (self is Pornography),
            r matches Some(t) ==> *self matches ChatReportReason::Pornography(c) && *t == c,
    {
        if let ChatReportReason::Pornography(t) = self {
            return Some(t);
        }
        None
    }

    pub fn as_spam(&self) -> (r: Option<&ChatReportReasonSpam>)
        ensures
            (r is Some) == (self is Spam),
            r matches Some(t) ==> *self matches ChatReportReason::Spam(c) && *t == c,
    {
        if let ChatReportReason::Spam(t) = self {
            return Some(t);
        }
        None
    }

    pub fn as_unrelated_location(&self) -> (r: Option<&ChatReportReasonUnrelatedLocation>)
        ensures
            (r is Some) == (self is UnrelatedLocation),
            r matches Some(t) ==> *self matches ChatReportReason::UnrelatedLocation(c) && *t == c,
    {
        if let ChatReportReason::UnrelatedLocation(t) = self {
            return Some(t);
        }
        None
    }

    pub fn as_violence(&self) -> (r: Option<&ChatReportReasonViolence>)
        ensures
            (r is Some) == (self is Violence),
            r matches Some(t) ==> *self matches ChatReportReason::Violence(c) && *t == c,
    {
        if let ChatReportReason::Violence(t) = self {
            return Some(t);
        }
        None
    }

    pub fn child_abuse(t: &ChatReportReasonChildAbuse) -> (r: Self)
        ensures
            r == ChatReportReason::ChildAbuse(*t),
    {
        ChatReportReason::ChildAbuse(t.clone())
    }

    pub fn copyright(t: &ChatReportReasonCopyright) -> (r: Self)
        ensures
            r == ChatReportReason::Copyright(*t),
    {
        ChatReportReason::Copyright(t.clone())
    }

    pub fn custom(t: &ChatReportReasonCustom) -> (r: Self)
        ensures
            r == ChatReportReason::Custom(*t),
    {
        ChatReportReason::Custom(t.clone())
    }

    pub fn fake(t: &ChatReportReasonFake) -> (r: Self)
        ensures
            r == ChatReportReason::Fake(*t),
    {
        ChatReportReason::Fake(t.clone())
    }

    pub fn pornography(t: &ChatReportReasonPornography) -> (r: Self)
        ensures
            r == ChatReportReason::Pornography(*t),
    {
        ChatReportReason::Pornography(t.clone())
    }

    pub fn spam(t: &ChatReportReasonSpam) -> (r: Self)
        ensures
            r == ChatReportReason::Spam(*t),
    {
        ChatReportReason::Spam(t.clone())
    }

    pub fn unrelated_location(t: &ChatReportReasonUnrelatedLocation) -> (r: Self)
        ensures
            r == ChatReportReason::UnrelatedLocation(*t),
    {
        ChatReportReason::UnrelatedLocation(t.clone())
    }

    pub fn violence(t: &ChatReportReasonViolence) -> (r: Self)
        ensures
            r == ChatReportReason::Violence(*t),
    {
        ChatReportReason::Violence(t.clone())
    }
}

/// The chat has child abuse related content
#[derive(Debug)]
pub struct ChatReportReasonChildAbuse {
    pub td_name: String,
    pub extra: Option<String>,
}

impl Clone for ChatReportReasonChildAbuse {
    fn clone(&self) -> (r: Self)
        ensures
            r == *self,
    {
        ChatReportReasonChildAbuse {
            td_name: self.td_name.clone(),
            extra: match &self.extra {
                Some(s) => Some(s.clone()),
                None => None,
            },
        }
    }
}

impl Default for ChatReportReasonChildAbuse {
    fn default() -> (r: Self)
        ensures
            r.td_name@ == Seq::<char>::empty(),
            r.extra is None,
    {
        ChatReportReasonChildAbuse { td_name: String::new(), extra: None }
    }
}

impl RObject for ChatReportReasonChildAbuse {
    fn td_name(&self) -> &'static str {
        "chatReportReasonChildAbuse"
    }

    fn extra(&self) -> Option<String> {
        match &self.extra {
            Some(s) => Some(s.clone()),
            None => None,
        }
    }
}

impl TDChatReportReason for ChatReportReasonChildAbuse {
}

impl ChatReportReasonChildAbuse {
    pub fn builder() -> (r: RTDChatReportReasonChildAbuseBuilder)
        ensures
            r.inner.td_name@ == "chatReportReasonChildAbuse"@,
            r.inner.extra is Some,
    {
        let mut inner = ChatReportReasonChildAbuse::default();
        inner.td_name = "chatReportReasonChildAbuse".to_owned();
        inner.extra = Some(new_extra());
        RTDChatReportReasonChildAbuseBuilder { inner }
    }
}

pub struct RTDChatReportReasonChildAbuseBuilder {
    pub inner: ChatReportReasonChildAbuse,
}

impl RTDChatReportReasonChildAbuseBuilder {
    pub fn build(&self) -> (r: ChatReportReasonChildAbuse)
        ensures
            r == self.inner,
    {
        self.inner.clone()
    }
}

/// The chat contains copyrighted content
#[derive(Debug)]
pub struct ChatReportReasonCopyright {
    pub td_name: String,
    pub extra: Option<String>,
}

impl Clone for ChatReportReasonCopyright {
    fn clone(&self) -> (r: Self)
        ensures
            r == *self,
    {
        ChatReportReasonCopyright {
            td_name: self.td_name.clone(),
            extra: match &self.extra {
                Some(s) => Some(s.clone()),
                None => None,
            },
        }
    }
}

impl Default for ChatReportReasonCopyright {
    fn default() -> (r: Self)
        ensures
            r.td_name@ == Seq::<char>::empty(),
            r.extra is None,
    {
        ChatReportReasonCopyright { td_name: String::new(), extra: None }
    }
}

impl RObject for ChatReportReasonCopyright {
    fn td_name(&self) -> &'static str {
        "chatReportReasonCopyright"
    }

    fn extra(&self) -> Option<String> {
        match &self.extra {
            Some(s) => Some(s.clone()),
            None => None,
        }
    }
}

impl TDChatReportReason for ChatReportReasonCopyright {
}

impl ChatReportReasonCopyright {
    pub fn builder() -> (r: RTDChatReportReasonCopyrightBuilder)
        ensures
            r.inner.td_name@ == "chatReportReasonCopyright"@,
            r.inner.extra is Some,
    {
        let mut inner = ChatReportReasonCopyright::default();
        inner.td_name = "chatReportReasonCopyright".to_owned();
        inner.extra = Some(new_extra());
        RTDChatReportReasonCopyrightBuilder { inner }
    }
}

pub struct RTDChatReportReasonCopyrightBuilder {
    pub inner: ChatReportReasonCopyright,
}

impl RTDChatReportReasonCopyrightBuilder {
    pub fn build(&self) -> (r: ChatReportReasonCopyright)
        ensures
            r == self.inner,
    {
        self.inner.clone()
    }
}

/// A custom reason provided by the user
#[derive(Debug)]
pub struct ChatReportReasonCustom {
    pub td_name: String,
    pub extra: Option<String>,
}

impl Clone for ChatReportReasonCustom {
    fn clone(&self) -> (r: Self)
        ensures
            r == *self,
    {
        ChatReportReasonCustom {
            td_name: self.td_name.clone(),
            extra: match &self.extra {
                Some(s) => Some(s.clone()),
                None => None,
            },
        }
    }
}

impl Default for ChatReportReasonCustom {
    fn default() -> (r: Self)
        ensures
            r.td_name@ == Seq::<char>::empty(),
            r.extra is None,
    {
        ChatReportReasonCustom { td_name: String::new(), extra: None }
    }
}

impl RObject for ChatReportReasonCustom {
    fn td_name(&self) -> &'static str {
        "chatReportReasonCustom"
    }

    fn extra(&self) -> Option<String> {
        match &self.extra {
            Some(s) => Some(s.clone()),
            None => None,
        }
    }
}

impl TDChatReportReason for ChatReportReasonCustom {
}

impl ChatReportReasonCustom {
    pub fn builder() -> (r: RTDChatReportReasonCustomBuilder)
        ensures
            r.inner.td_name@ == "chatReportReasonCustom"@,
            r.inner.extra is Some,
    {
        let mut inner = ChatReportReasonCustom::default();
        inner.td_name = "chatReportReasonCustom".to_owned();
        inner.extra = Some(new_extra());
        RTDChatReportReasonCustomBuilder { inner }
    }
}

pub struct RTDChatReportReasonCustomBuilder {
    pub inner: ChatReportReasonCustom,
}

impl RTDChatReportReasonCustomBuilder {
    pub fn build(&self) -> (r: ChatReportReasonCustom)
        ensures
            r == self.inner,
    {
        self.inner.clone()
    }
}

/// The chat represents a fake account
#[derive(Debug)]
pub struct ChatReportReasonFake {
    pub td_name: String,
    pub extra: Option<String>,
}

impl Clone for ChatReportReasonFake {
    fn clone(&self) -> (r: Self)
        ensures
            r == *self,
    {
        ChatReportReasonFake {
            td_name: self.td_name.clone(),
            extra: match &self.extra {
                Some(s) => Some(s.clone()),
                None => None,
            },
        }
    }
}

impl Default for ChatReportReasonFake {
    fn default() -> (r: Self)
        ensures
            r.td_name@ == Seq::<char>::empty(),
            r.extra is None,
    {
        ChatReportReasonFake { td_name: String::new(), extra: None }
    }
}

impl RObject for ChatReportReasonFake {
    fn td_name(&self) -> &'static str {
        "chatReportReasonFake"
    }

    fn extra(&self) -> Option<String> {
        match &self.extra {
            Some(s) => Some(s.clone()),
            None => None,
        }
    }
}

impl TDChatReportReason for ChatReportReasonFake {
}

impl ChatReportReasonFake {
    pub fn builder() -> (r: RTDChatReportReasonFakeBuilder)
        ensures
            r.inner.td_name@ == "chatReportReasonFake"@,
            r.inner.extra is Some,
    {
        let mut inner = ChatReportReasonFake::default();
        inner.td_name = "chatReportReasonFake".to_owned();
        inner.extra = Some(new_extra());
        RTDChatReportReasonFakeBuilder { inner }
    }
}

pub struct RTDChatReportReasonFakeBuilder {
    pub inner: ChatReportReasonFake,
}

impl RTDChatReportReasonFakeBuilder {
    pub fn build(&self) -> (r: ChatReportReasonFake)
        ensures
            r == self.inner,
    {
        self.inner.clone()
    }
}

/// The chat contains pornographic messages
#[derive(Debug)]
pub struct ChatReportReasonPornography {
    pub td_name: String,
    pub extra: Option<String>,
}

impl Clone for ChatReportReasonPornography {
    fn clone(&self) -> (r: Self)
        ensures
            r == *self,
    {
        ChatReportReasonPornography {
            td_name: self.td_name.clone(),
            extra: match &self.extra {
                Some(s) => Some(s.clone()),
                None => None,
            },
        }
    }
}

impl Default for ChatReportReasonPornography {
    fn default() -> (r: Self)
        ensures
            r.td_name@ == Seq::<char>::empty(),
            r.extra is None,
    {
        ChatReportReasonPornography { td_name: String::new(), extra: None }
    }
}

impl RObject for ChatReportReasonPornography {
    fn td_name(&self) -> &'static str {
        "chatReportReasonPornography"
    }

    fn extra(&self) -> Option<String> {
        match &self.extra {
            Some(s) => Some(s.clone()),
            None => None,
        }
    }
}

impl TDChatReportReason for ChatReportReasonPornography {
}

impl ChatReportReasonPornography {
    pub fn builder() -> (r: RTDChatReportReasonPornographyBuilder)
        ensures
            r.inner.td_name@ == "chatReportReasonPornography"@,
            r.inner.extra is Some,
    {
        let mut inner = ChatReportReasonPornography::default();
        inner.td_name = "chatReportReasonPornography".to_owned();
        inner.extra = Some(new_extra());
        RTDChatReportReasonPornographyBuilder { inner }
    }
}

pub struct RTDChatReportReasonPornographyBuilder {
    pub inner: ChatReportReasonPornography,
}

impl RTDChatReportReasonPornographyBuilder {
    pub fn build(&self) -> (r: ChatReportReasonPornography)
        ensures
            r == self.inner,
    {
        self.inner.clone()
    }
}

/// The chat contains spam messages
#[derive(Debug)]
pub struct ChatReportReasonSpam {
    pub td_name: String,
    pub extra: Option<String>,
}

impl Clone for ChatReportReasonSpam {
    fn clone(&self) -> (r: Self)
        ensures
            r == *self,
    {
        ChatReportReasonSpam {
            td_name: self.td_name.clone(),
            extra: match &self.extra {
                Some(s) => Some(s.clone()),
                None => None,
            },
        }
    }
}

impl Default for ChatReportReasonSpam {
    fn default() -> (r: Self)
        ensures
            r.td_name@ == Seq::<char>::empty(),
            r.extra is None,
    {
        ChatReportReasonSpam { td_name: String::new(), extra: None }
    }
}

impl RObject for ChatReportReasonSpam {
    fn td_name(&self) -> &'static str {
        "chatReportReasonSpam"
    }

    fn extra(&self) -> Option<String> {
        match &self.extra {
            Some(s) => Some(s.clone()),
            None => None,
        }
    }
}

impl TDChatReportReason for ChatReportReasonSpam {
}

impl ChatReportReasonSpam {
    pub fn builder() -> (r: RTDChatReportReasonSpamBuilder)
        ensures
            r.inner.td_name@ == "chatReportReasonSpam"@,
            r.inner.extra is Some,
    {
        let mut inner = ChatReportReasonSpam::default();
        inner.td_name = "chatReportReasonSpam".to_owned();
        inner.extra = Some(new_extra());
        RTDChatReportReasonSpamBuilder { inner }
    }
}

pub struct RTDChatReportReasonSpamBuilder {
    pub inner: ChatReportReasonSpam,
}

impl RTDChatReportReasonSpamBuilder {
    pub fn build(&self) -> (r: ChatReportReasonSpam)
        ensures
            r == self.inner,
    {
        self.inner.clone()
    }
}

/// The location-based chat is unrelated to its stated location
#[derive(Debug)]
pub struct ChatReportReasonUnrelatedLocation {
    pub td_name: String,
    pub extra: Option<String>,
}

impl Clone for ChatReportReasonUnrelatedLocation {
    fn clone(&self) -> (r: Self)
        ensures
            r == *self,
    {
        ChatReportReasonUnrelatedLocation {
            td_name: self.td_name.clone(),
            extra: match &self.extra {
                Some(s) => Some(s.clone()),
                None => None,
            },
        }
    }
}

impl Default for ChatReportReasonUnrelatedLocation {
    fn default() -> (r: Self)
        ensures
            r.td_name@ == Seq::<char>::empty(),
            r.extra is None,
    {
        ChatReportReasonUnrelatedLocation { td_name: String::new(), extra: None }
    }
}

impl RObject for ChatReportReasonUnrelatedLocation {
    fn td_name(&self) -> &'static str {
        "chatReportReasonUnrelatedLocation"
    }

    fn extra(&self) -> Option<String> {
        match &self.extra {
            Some(s) => Some(s.clone()),
            None => None,
        }
    }
}

impl TDChatReportReason for ChatReportReasonUnrelatedLocation {
}

impl ChatReportReasonUnrelatedLocation {
    pub fn builder() -> (r: RTDChatReportReasonUnrelatedLocationBuilder)
        ensures
            r.inner.td_name@ == "chatReportReasonUnrelatedLocation"@,
            r.inner.extra is Some,
    {
        let mut inner = ChatReportReasonUnrelatedLocation::default();
        inner.td_name = "chatReportReasonUnrelatedLocation".to_owned();
        inner.extra = Some(new_extra());
        RTDChatReportReasonUnrelatedLocationBuilder { inner }
    }
}

pub struct RTDChatReportReasonUnrelatedLocationBuilder {
    pub inner: ChatReportReasonUnrelatedLocation,
}

impl RTDChatReportReasonUnrelatedLocationBuilder {
    pub fn build(&self) -> (r: ChatReportReasonUnrelatedLocation)
        ensures
            r == self.inner,
    {
        self.inner.clone()
    }
}

/// The chat promotes violence
#[derive(Debug)]
pub struct ChatReportReasonViolence {
    pub td_name: String,
    pub extra: Option<String>,
}

impl Clone for ChatReportReasonViolence {
    fn clone(&self) -> (r: Self)
        ensures
            r == *self,
    {
        ChatReportReasonViolence {
            td_name: self.td_name.clone(),
            extra: match &self.extra {
                Some(s) => Some(s.clone()),
                None => None,
            },
        }
    }
}

impl Default for ChatReportReasonViolence {
    fn default() -> (r: Self)
        ensures
            r.td_name@ == Seq::<char>::empty(),
            r.extra is None,
    {
        ChatReportReasonViolence { td_name: String::new(), extra: None }
    }
}

impl RObject for ChatReportReasonViolence {
    fn td_name(&self) -> &'static str {
        "chatReportReasonViolence"
    }

    fn extra(&self) -> Option<String> {
        match &self.extra {
            Some(s) => Some(s.clone()),
            None => None,
        }
    }
}

impl TDChatReportReason for ChatReportReasonViolence {
}

impl ChatReportReasonViolence {
    pub fn builder() -> (r: RTDChatReportReasonViolenceBuilder)
        ensures
            r.inner.td_name@ == "chatReportReasonViolence"@,
            r.inner.extra is Some,
    {
        let mut inner = ChatReportReasonViolence::default();
        inner.td_name = "chatReportReasonViolence".to_owned();
        inner.extra = Some(new_extra());
        RTDChatReportReasonViolenceBuilder { inner }
    }
}

pub struct RTDChatReportReasonViolenceBuilder {
    pub inner: ChatReportReasonViolence,
}

impl RTDChatReportReasonViolenceBuilder {
    pub fn build(&self) -> (r: ChatReportReasonViolence)
        ensures
            r == self.inner,
    {
        self.inner.clone()
    }
}

} // verus!
