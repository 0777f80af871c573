//! Provides information about the method by which an authentication code is delivered to the user

use vstd::prelude::*;

use crate::types::{new_extra, RObject};

verus! {

/// Provides information about the method by which an authentication code is delivered to the user
pub trait TDAuthenticationCodeType: RObject {
}

/// Provides information about the method by which an authentication code is delivered to the user
#[derive(Debug)]
pub enum AuthenticationCodeType {
    _Default(()),
    /// An authentication code is delivered via a phone call to the specified phone number
    Call(AuthenticationCodeTypeCall),
    /// An authentication code is delivered by an immediately canceled call to the specified phone number. The phone number that calls is the code that must be entered automatically
    FlashCall(AuthenticationCodeTypeFlashCall),
    /// An authentication code is delivered by an immediately canceled call to the specified phone number. The last digits of the phone number that calls are the code that must be entered manually by the user
    MissedCall(AuthenticationCodeTypeMissedCall),
    /// An authentication code is delivered via an SMS message to the specified phone number
    Sms(AuthenticationCodeTypeSms),
    /// An authentication code is delivered via a private Telegram message, which can be viewed from another active session
    TelegramMessage(AuthenticationCodeTypeTelegramMessage),
}

impl Clone for AuthenticationCodeType {
    fn clone(&self) -> (r: Self)
        ensures
            r == *self,
    {
        match self {
            AuthenticationCodeType::_Default(_) => AuthenticationCodeType::_Default(()),
            AuthenticationCodeType::Call(t) => AuthenticationCodeType::Call(t.clone()),
            AuthenticationCodeType::FlashCall(t) => AuthenticationCodeType::FlashCall(t.clone()),
            AuthenticationCodeType::MissedCall(t) => AuthenticationCodeType::MissedCall(t.clone()),
            AuthenticationCodeType::Sms(t) => AuthenticationCodeType::Sms(t.clone()),
            AuthenticationCodeType::TelegramMessage(t) => AuthenticationCodeType::TelegramMessage(t.clone()),
        }
    }
}

impl Default for AuthenticationCodeType {
    fn default() -> (r: Self)
        ensures
            r == AuthenticationCodeType::_Default(()),
    {
        AuthenticationCodeType::_Default(())
    }
}

impl RObject for AuthenticationCodeType {
    fn td_name(&self) -> &'static str {
        match self {
            AuthenticationCodeType::Call(t) => t.td_name(),
            AuthenticationCodeType::FlashCall(t) => t.td_name(),
            AuthenticationCodeType::MissedCall(t) => t.td_name(),
            AuthenticationCodeType::Sms(t) => t.td_name(),
            AuthenticationCodeType::TelegramMessage(t) => t.td_name(),
            _ => "-1",
        }
    }

    fn extra(&self) -> Option<String> {
        match self {
            AuthenticationCodeType::Call(t) => t.extra(),
            AuthenticationCodeType::FlashCall(t) => t.extra(),
            AuthenticationCodeType::MissedCall(t) => t.extra(),
            AuthenticationCodeType::Sms(t) => t.extra(),
            AuthenticationCodeType::TelegramMessage(t) => t.extra(),
            _ => None,
        }
    }
}

impl AuthenticationCodeType {
    pub fn _is_default(&self) -> (r: bool)
        ensures
            r == (self is _Default),
    {
        if let AuthenticationCodeType::_Default(_) = self {
            true
        } else {
            false
        }
    }

    pub fn is_call(&self) -> (r: bool)
        ensures
            r == (self is Call),
    {
        if let AuthenticationCodeType::Call(_) = self {
            true
        } else {
            false
        }
    }

    pub fn is_flash_call(&self) -> (r: bool)
        ensures
            r == (self is FlashCall),
    {
        if let AuthenticationCodeType::FlashCall(_) = self {
            true
        } else {
            false
        }
    }

    pub fn is_missed_call(&self) -> (r: bool)
        ensures
            r == (self is MissedCall),
    {
        if let AuthenticationCodeType::MissedCall(_) = self {
            true
        } else {
            false
        }
    }

    pub fn is_sms(&self) -> (r: bool)
        ensures
            r == (self is Sms),
    {
        if let AuthenticationCodeType::Sms(_) = self {
            true
        } else {
            false
        }
    }

    pub fn is_telegram_message(&self) -> (r: bool)
        ensures
            r == (self is TelegramMessage),
    {
        if let AuthenticationCodeType::TelegramMessage(_) = self {
            true
        } else {
            false
        }
    }

    pub fn on_call<F: FnOnce(&AuthenticationCodeTypeCall)>(&self, fnc: F) -> (r: &Self)
        requires
            forall|t: &AuthenticationCodeTypeCall| #[trigger] fnc.requires((t,)),
        ensures
            r == self,
            *self matches AuthenticationCodeType::Call(c) ==> fnc.ensures((&c,), ()),
    {
        if let AuthenticationCodeType::Call(t) = self {
            fnc(t)
        };
        self
    }

    pub fn on_flash_call<F: FnOnce(&AuthenticationCodeTypeFlashCall)>(&self, fnc: F) -> (r: &Self)
        requires
            forall|t: &AuthenticationCodeTypeFlashCall| #[trigger] fnc.requires((t,)),
        ensures
            r == self,
            *self matches AuthenticationCodeType::FlashCall(c) ==> fnc.ensures((&c,), ()),
    {
        if let AuthenticationCodeType::FlashCall(t) = self {
            fnc(t)
        };
        self
    }

    pub fn on_missed_call<F: FnOnce(&AuthenticationCodeTypeMissedCall)>(&self, fnc: F) -> (r: &Self)
        requires
            forall|t: &AuthenticationCodeTypeMissedCall| #[trigger] fnc.requires((t,)),
        ensures
            r == self,
            *self matches AuthenticationCodeType::MissedCall(c) ==> fnc.ensures((&c,), ()),
    {
        if let AuthenticationCodeType::MissedCall(t) = self {
            fnc(t)
        };
        self
    }

    pub fn on_sms<F: FnOnce(&AuthenticationCodeTypeSms)>(&self, fnc: F) -> (r: &Self)
        requires
            forall|t: &AuthenticationCodeTypeSms| #[trigger] fnc.requires((t,)),
        ensures
            r == self,
            *self matches AuthenticationCodeType::Sms(c) ==> fnc.ensures((&c,), ()),
    {
        if let AuthenticationCodeType::Sms(t) = self {
            fnc(t)
        };
        self
    }

    pub fn on_telegram_message<F: FnOnce(&AuthenticationCodeTypeTelegramMessage)>(&self, fnc: F) -> (r: &Self)
        requires
            forall|t: &AuthenticationCodeTypeTelegramMessage| #[trigger] fnc.requires((t,)),
        ensures
            r == self,
            *self matches AuthenticationCodeType::TelegramMessage(c) ==> fnc.ensures((&c,), ()),
    {
        if let AuthenticationCodeType::TelegramMessage(t) = self {
            fnc(t)
        };
        self
    }

    pub fn as_call(&self) -> (r: Option<&AuthenticationCodeTypeCall>)
        ensures
            (r is Some) == (self is Call),
            r matches Some(t) ==> *self matches AuthenticationCodeType::Call(c) && *t == c,
    {
        if let AuthenticationCodeType::Call(t) = self {
            return Some(t);
        }
        None
    }

    pub fn as_flash_call(&self) -> (r: Option<&AuthenticationCodeTypeFlashCall>)
        ensures
            (r is Some) == (self is FlashCall),
            r matches Some(t) ==> *self matches AuthenticationCodeType::FlashCall(c) && *t == c,
    {
        if let AuthenticationCodeType::FlashCall(t) = self {
            return Some(t);
        }
        None
    }

    pub fn as_missed_call(&self) -> (r: Option<&AuthenticationCodeTypeMissedCall>)
        ensures
            (r is Some) == (self is MissedCall),
            r matches Some(t) ==> *self matches AuthenticationCodeType::MissedCall(c) && *t == c,
    {
        if let AuthenticationCodeType::MissedCall(t) = self {
            return Some(t);
        }
        None
    }

    pub fn as_sms(&self) -> (r: Option<&AuthenticationCodeTypeSms>)
        ensures
            (r is Some) == (self is Sms),
            r matches Some(t) ==> *self matches AuthenticationCodeType::Sms(c) && *t == c,
    {
        if let AuthenticationCodeType::Sms(t) = self {
            return Some(t);
        }
        None
    }

    pub fn as_telegram_message(&self) -> (r: Option<&AuthenticationCodeTypeTelegramMessage>)
        ensures
            (r is Some) == (self is TelegramMessage),
            r matches Some(t) ==> *self matches AuthenticationCodeType::TelegramMessage(c) && *t == c,
    {
        if let AuthenticationCodeType::TelegramMessage(t) = self {
            return Some(t);
        }
        None
    }

    pub fn call(t: &AuthenticationCodeTypeCall) -> (r: Self)
        ensures
            r == AuthenticationCodeType::Call(*t),
    {
        AuthenticationCodeType::Call(t.clone())
    }

    pub fn flash_call(t: &AuthenticationCodeTypeFlashCall) -> (r: Self)
        ensures
            r == AuthenticationCodeType::FlashCall(*t),
    {
        AuthenticationCodeType::FlashCall(t.clone())
    }

    pub fn missed_call(t: &AuthenticationCodeTypeMissedCall) -> (r: Self)
        ensures
            r == AuthenticationCodeType::MissedCall(*t),
    {
        AuthenticationCodeType::MissedCall(t.clone())
    }

    pub fn sms(t: &AuthenticationCodeTypeSms) -> (r: Self)
        ensures
            r == AuthenticationCodeType::Sms(*t),
    {
        AuthenticationCodeType::Sms(t.clone())
    }

    pub fn telegram_message(t: &AuthenticationCodeTypeTelegramMessage) -> (r: Self)
        ensures
            r == AuthenticationCodeType::TelegramMessage(*t),
    {
        AuthenticationCodeType::TelegramMessage(t.clone())
    }
}

/// An authentication code is delivered via a phone call to the specified phone number
#[derive(Debug)]
pub struct AuthenticationCodeTypeCall {
    pub td_name: String,
    pub extra: Option<String>,
    /// Length of the code
    pub length: i64,
}

impl Clone for AuthenticationCodeTypeCall {
    fn clone(&self) -> (r: Self)
        ensures
            r == *self,
    {
        AuthenticationCodeTypeCall {
            td_name: self.td_name.clone(),
            extra: match &self.extra {
                Some(s) => Some(s.clone()),
                None => None,
            },
            length: self.length,
        }
    }
}

impl Default for AuthenticationCodeTypeCall {
    fn default() -> (r: Self)
        ensures
            r.td_name@ == Seq::<char>::empty(),
            r.extra is None,
            r.length == 0,
    {
        AuthenticationCodeTypeCall { td_name: String::new(), extra: None, length: 0 }
    }
}

impl RObject for AuthenticationCodeTypeCall {
    fn td_name(&self) -> &'static str {
        "authenticationCodeTypeCall"
    }

    fn extra(&self) -> Option<String> {
        match &self.extra {
            Some(s) => Some(s.clone()),
            None => None,
        }
    }
}

impl TDAuthenticationCodeType for AuthenticationCodeTypeCall {
}

impl AuthenticationCodeTypeCall {
    pub fn builder() -> (r: RTDAuthenticationCodeTypeCallBuilder)
        ensures
            r.inner.td_name@ == "authenticationCodeTypeCall"@,
            r.inner.extra is Some,
            r.inner.length == 0,
    {
        let mut inner = AuthenticationCodeTypeCall::default();
        inner.td_name = "authenticationCodeTypeCall".to_owned();
        inner.extra = Some(new_extra());
        RTDAuthenticationCodeTypeCallBuilder { inner }
    }

    /// Length of the code
    pub fn length(&self) -> (r: i64)
        ensures
            r == self.length,
    {
        self.length
    }
}

pub struct RTDAuthenticationCodeTypeCallBuilder {
    pub inner: AuthenticationCodeTypeCall,
}

impl RTDAuthenticationCodeTypeCallBuilder {
    pub fn build(&self) -> (r: AuthenticationCodeTypeCall)
        ensures
            r == self.inner,
    {
        self.inner.clone()
    }

    pub fn length(&mut self, length: i64)
        ensures
            final(self).inner.length == length,
            final(self).inner.td_name == old(self).inner.td_name,
            final(self).inner.extra == old(self).inner.extra,
    {
        self.inner.length = length;
    }
}

/// An authentication code is delivered by an immediately canceled call to the specified phone number. The phone number that calls is the code that must be entered automatically
#[derive(Debug)]
pub struct AuthenticationCodeTypeFlashCall {
    pub td_name: String,
    pub extra: Option<String>,
    /// Pattern of the phone number from which the call will be made
    pub pattern: String,
}

impl Clone for AuthenticationCodeTypeFlashCall {
    fn clone(&self) -> (r: Self)
        ensures
            r == *self,
    {
        AuthenticationCodeTypeFlashCall {
            td_name: self.td_name.clone(),
            extra: match &self.extra {
                Some(s) => Some(s.clone()),
                None => None,
            },
            pattern: self.pattern.clone(),
        }
    }
}

impl Default for AuthenticationCodeTypeFlashCall {
    fn default() -> (r: Self)
        ensures
            r.td_name@ == Seq::<char>::empty(),
            r.extra is None,
            r.pattern@ == Seq::<char>::empty(),
    {
        AuthenticationCodeTypeFlashCall { td_name: String::new(), extra: None, pattern: String::new() }
    }
}

impl RObject for AuthenticationCodeTypeFlashCall {
    fn td_name(&self) -> &'static str {
        "authenticationCodeTypeFlashCall"
    }

    fn extra(&self) -> Option<String> {
        match &self.extra {
            Some(s) => Some(s.clone()),
            None => None,
        }
    }
}

impl TDAuthenticationCodeType for AuthenticationCodeTypeFlashCall {
}

impl AuthenticationCodeTypeFlashCall {
    pub fn builder() -> (r: RTDAuthenticationCodeTypeFlashCallBuilder)
        ensures
            r.inner.td_name@ == "authenticationCodeTypeFlashCall"@,
            r.inner.extra is Some,
            r.inner.pattern@ == Seq::<char>::empty(),
    {
        let mut inner = AuthenticationCodeTypeFlashCall::default();
        inner.td_name = "authenticationCodeTypeFlashCall".to_owned();
        inner.extra = Some(new_extra());
        RTDAuthenticationCodeTypeFlashCallBuilder { inner }
    }

    /// Pattern of the phone number from which the call will be made
    pub fn pattern(&self) -> (r: &String)
        ensures
            r == self.pattern,
    {
        &self.pattern
    }
}

pub struct RTDAuthenticationCodeTypeFlashCallBuilder {
    pub inner: AuthenticationCodeTypeFlashCall,
}

impl RTDAuthenticationCodeTypeFlashCallBuilder {
    pub fn build(&self) -> (r: AuthenticationCodeTypeFlashCall)
        ensures
            r == self.inner,
    {
        self.inner.clone()
    }

    pub fn pattern(&mut self, pattern: &str)
        ensures
            final(self).inner.pattern@ == pattern@,
            final(self).inner.td_name == old(self).inner.td_name,
            final(self).inner.extra == old(self).inner.extra,
    {
        self.inner.pattern = pattern.to_owned();
    }
}

/// An authentication code is delivered by an immediately canceled call to the specified phone number. The last digits of the phone number that calls are the code that must be entered manually by the user
#[derive(Debug)]
pub struct AuthenticationCodeTypeMissedCall {
    pub td_name: String,
    pub extra: Option<String>,
    /// Prefix of the phone number from which the call will be made
    pub phone_number_prefix: String,
    /// Number of digits in the code, excluding the prefix
    pub length: i64,
}

impl Clone for AuthenticationCodeTypeMissedCall {
    fn clone(&self) -> (r: Self)
        ensures
            r == *self,
    {
        AuthenticationCodeTypeMissedCall {
            td_name: self.td_name.clone(),
            extra: match &self.extra {
                Some(s) => Some(s.clone()),
                None => None,
            },
            phone_number_prefix: self.phone_number_prefix.clone(),
            length: self.length,
        }
    }
}

impl Default for AuthenticationCodeTypeMissedCall {
    fn default() -> (r: Self)
        ensures
            r.td_name@ == Seq::<char>::empty(),
            r.extra is None,
            r.phone_number_prefix@ == Seq::<char>::empty(),
            r.length == 0,
    {
        AuthenticationCodeTypeMissedCall { td_name: String::new(), extra: None, phone_number_prefix: String::new(), length: 0 }
    }
}

impl RObject for AuthenticationCodeTypeMissedCall {
    fn td_name(&self) -> &'static str {
        "authenticationCodeTypeMissedCall"
    }

    fn extra(&self) -> Option<String> {
        match &self.extra {
            Some(s) => Some(s.clone()),
            None => None,
        }
    }
}

impl TDAuthenticationCodeType for AuthenticationCodeTypeMissedCall {
}

impl AuthenticationCodeTypeMissedCall {
    pub fn builder() -> (r: RTDAuthenticationCodeTypeMissedCallBuilder)
        ensures
            r.inner.td_name@ == "authenticationCodeTypeMissedCall"@,
            r.inner.extra is Some,
            r.inner.phone_number_prefix@ == Seq::<char>::empty(),
            r.inner.length == 0,
    {
        let mut inner = AuthenticationCodeTypeMissedCall::default();
        inner.td_name = "authenticationCodeTypeMissedCall".to_owned();
        inner.extra = Some(new_extra());
        RTDAuthenticationCodeTypeMissedCallBuilder { inner }
    }

    /// Prefix of the phone number from which the call will be made
    pub fn phone_number_prefix(&self) -> (r: &String)
        ensures
            r == self.phone_number_prefix,
    {
        &self.phone_number_prefix
    }

    /// Number of digits in the code, excluding the prefix
    pub fn length(&self) -> (r: i64)
        ensures
            r == self.length,
    {
        self.length
    }
}

pub struct RTDAuthenticationCodeTypeMissedCallBuilder {
    pub inner: AuthenticationCodeTypeMissedCall,
}

impl RTDAuthenticationCodeTypeMissedCallBuilder {
    pub fn build(&self) -> (r: AuthenticationCodeTypeMissedCall)
        ensures
            r == self.inner,
    {
        self.inner.clone()
    }

    pub fn phone_number_prefix(&mut self, phone_number_prefix: &str)
        ensures
            final(self).inner.phone_number_prefix@ == phone_number_prefix@,
            final(self).inner.length == old(self).inner.length,
            final(self).inner.td_name == old(self).inner.td_name,
            final(self).inner.extra == old(self).inner.extra,
    {
        self.inner.phone_number_prefix = phone_number_prefix.to_owned();
    }

    pub fn length(&mut self, length: i64)
        ensures
            final(self).inner.length == length,
            final(self).inner.phone_number_prefix == old(self).inner.phone_number_prefix,
            final(self).inner.td_name == old(self).inner.td_name,
            final(self).inner.extra == old(self).inner.extra,
    {
        self.inner.length = length;
    }
}

/// An authentication code is delivered via an SMS message to the specified phone number
#[derive(Debug)]
pub struct AuthenticationCodeTypeSms {
    pub td_name: String,
    pub extra: Option<String>,
    /// Length of the code
    pub length: i64,
}

impl Clone for AuthenticationCodeTypeSms {
    fn clone(&self) -> (r: Self)
        ensures
            r == *self,
    {
        AuthenticationCodeTypeSms {
            td_name: self.td_name.clone(),
            extra: match &self.extra {
                Some(s) => Some(s.clone()),
                None => None,
            },
            length: self.length,
        }
    }
}

impl Default for AuthenticationCodeTypeSms {
    fn default() -> (r: Self)
        ensures
            r.td_name@ == Seq::<char>::empty(),
            r.extra is None,
            r.length == 0,
    {
        AuthenticationCodeTypeSms { td_name: String::new(), extra: None, length: 0 }
    }
}

impl RObject for AuthenticationCodeTypeSms {
    fn td_name(&self) -> &'static str {
        "authenticationCodeTypeSms"
    }

    fn extra(&self) -> Option<String> {
        match &self.extra {
            Some(s) => Some(s.clone()),
            None => None,
        }
    }
}

impl TDAuthenticationCodeType for AuthenticationCodeTypeSms {
}

impl AuthenticationCodeTypeSms {
    pub fn builder() -> (r: RTDAuthenticationCodeTypeSmsBuilder)
        ensures
            r.inner.td_name@ == "authenticationCodeTypeSms"@,
            r.inner.extra is Some,
            r.inner.length == 0,
    {
        let mut inner = AuthenticationCodeTypeSms::default();
        inner.td_name = "authenticationCodeTypeSms".to_owned();
        inner.extra = Some(new_extra());
        RTDAuthenticationCodeTypeSmsBuilder { inner }
    }

    /// Length of the code
    pub fn length(&self) -> (r: i64)
        ensures
            r == self.length,
    {
        self.length
    }
}

pub struct RTDAuthenticationCodeTypeSmsBuilder {
    pub inner: AuthenticationCodeTypeSms,
}

impl RTDAuthenticationCodeTypeSmsBuilder {
    pub fn build(&self) -> (r: AuthenticationCodeTypeSms)
        ensures
            r == self.inner,
    {
        self.inner.clone()
    }

    pub fn length(&mut self, length: i64)
        ensures
            final(self).inner.length == length,
            final(self).inner.td_name == old(self).inner.td_name,
            final(self).inner.extra == old(self).inner.extra,
    {
        self.inner.length = length;
    }
}

/// An authentication code is delivered via a private Telegram message, which can be viewed from another active session
#[derive(Debug)]
pub struct AuthenticationCodeTypeTelegramMessage {
    pub td_name: String,
    pub extra: Option<String>,
    /// Length of the code
    pub length: i64,
}

impl Clone for AuthenticationCodeTypeTelegramMessage {
    fn clone(&self) -> (r: Self)
        ensures
            r == *self,
    {
        AuthenticationCodeTypeTelegramMessage {
            td_name: self.td_name.clone(),
            extra: match &self.extra {
                Some(s) => Some(s.clone()),
                None => None,
            },
            length: self.length,
        }
    }
}

impl Default for AuthenticationCodeTypeTelegramMessage {
    fn default() -> (r: Self)
        ensures
            r.td_name@ == Seq::<char>::empty(),
            r.extra is None,
            r.length == 0,
    {
        AuthenticationCodeTypeTelegramMessage { td_name: String::new(), extra: None, length: 0 }
    }
}

impl RObject for AuthenticationCodeTypeTelegramMessage {
    fn td_name(&self) -> &'static str {
        "authenticationCodeTypeTelegramMessage"
    }

    fn extra(&self) -> Option<String> {
        match &self.extra {
            Some(s) => Some(s.clone()),
            None => None,
        }
    }
}

impl TDAuthenticationCodeType for AuthenticationCodeTypeTelegramMessage {
}

impl AuthenticationCodeTypeTelegramMessage {
    pub fn builder() -> (r: RTDAuthenticationCodeTypeTelegramMessageBuilder)
        ensures
            r.inner.td_name@ == "authenticationCodeTypeTelegramMessage"@,
            r.inner.extra is Some,
            r.inner.length == 0,
    {
        let mut inner = AuthenticationCodeTypeTelegramMessage::default();
        inner.td_name = "authenticationCodeTypeTelegramMessage".to_owned();
        inner.extra = Some(new_extra());
        RTDAuthenticationCodeTypeTelegramMessageBuilder { inner }
    }

    /// Length of the code
    pub fn length(&self) -> (r: i64)
        ensures
            r == self.length,
    {
        self.length
    }
}

pub struct RTDAuthenticationCodeTypeTelegramMessageBuilder {
    pub inner: AuthenticationCodeTypeTelegramMessage,
}

impl RTDAuthenticationCodeTypeTelegramMessageBuilder {
    pub fn build(&self) -> (r: AuthenticationCodeTypeTelegramMessage)
        ensures
            r == self.inner,
    {
        self.inner.clone()
    }

    pub fn length(&mut self, length: i64)
        ensures
            final(self).inner.length == length,
            final(self).inner.td_name == old(self).inner.td_name,
            final(self).inner.extra == old(self).inner.extra,
    {
        self.inner.length = length;
    }
}

} // verus!
