//! Represents the value of an option

use vstd::prelude::*;

use crate::types::{new_extra, RObject};
use crate::types::support::{GetOption};

verus! {

/// Represents the value of an option
pub trait TDOptionValue: RObject {
}

/// Represents the value of an option
#[derive(Debug)]
pub enum OptionValue {
    _Default(()),
    /// Returns the value of an option by its name. (Check the list of available options on https://core.telegram.org/tdlib/options.) Can be called before authorization
    GetOption(GetOption),
    /// Boolean option
    Boolean(OptionValueBoolean),
    /// An unknown option or an option which has a default value
    Empty(OptionValueEmpty),
    /// An integer option
    Integer(OptionValueInteger),
    /// A string option
    String(OptionValueString),
}

impl Clone for OptionValue {
    fn clone(&self) -> (r: Self)
        ensures
            r == *self,
    {
        match self {
            OptionValue::_Default(_) => OptionValue::_Default(()),
            OptionValue::GetOption(t) => OptionValue::GetOption(t.clone()),
            OptionValue::Boolean(t) => OptionValue::Boolean(t.clone()),
            OptionValue::Empty(t) => OptionValue::Empty(t.clone()),
            OptionValue::Integer(t) => OptionValue::Integer(t.clone()),
            OptionValue::String(t) => OptionValue::String(t.clone()),
        }
    }
}

impl Default for OptionValue {
    fn default() -> (r: Self)
        ensures
            r == OptionValue::_Default(()),
    {
        OptionValue::_Default(())
    }
}

impl RObject for OptionValue {
    fn td_name(&self) -> &'static str {
        match self {
            OptionValue::GetOption(t) => t.td_name(),
            OptionValue::Boolean(t) => t.td_name(),
            OptionValue::Empty(t) => t.td_name(),
            OptionValue::Integer(t) => t.td_name(),
            OptionValue::String(t) => t.td_name(),
            _ => "-1",
        }
    }

    fn extra(&self) -> Option<String> {
        match self {
            OptionValue::GetOption(t) => t.extra(),
            OptionValue::Boolean(t) => t.extra(),
            OptionValue::Empty(t) => t.extra(),
            OptionValue::Integer(t) => t.extra(),
            OptionValue::String(t) => t.extra(),
            _ => None,
        }
    }
}

impl OptionValue {
    pub fn _is_default(&self) -> (r: bool)
        ensures
            r == (self is _Default),
    {
        if let OptionValue::_Default(_) = self {
            true
        } else {
            false
        }
    }

    pub fn is_get_option(&self) -> (r: bool)
        ensures
            r == (self is GetOption),
    {
        if let OptionValue::GetOption(_) = self {
            true
        } else {
            false
        }
    }

    pub fn is_boolean(&self) -> (r: bool)
        ensures
            r == (self is Boolean),
    {
        if let OptionValue::Boolean(_) = self {
            true
        } else {
            false
        }
    }

    pub fn is_empty(&self) -> (r: bool)
        ensures
            r == (self is Empty),
    {
        if let OptionValue::Empty(_) = self {
            true
        } else {
            false
        }
    }

    pub fn is_integer(&self) -> (r: bool)
        ensures
            r == (self is Integer),
    {
        if let OptionValue::Integer(_) = self {
            true
        } else {
            false
        }
    }

    pub fn is_string(&self) -> (r: bool)
        ensures
            r == (self is String),
    {
        if let OptionValue::String(_) = self {
            true
        } else {
            false
        }
    }

    pub fn on_get_option<F: FnOnce(&GetOption)>(&self, fnc: F) -> (r: &Self)
        requires
            forall|t: &GetOption| #[trigger] fnc.requires((t,)),
        ensures
            r == self,
            *self matches OptionValue::GetOption(c) ==> fnc.ensures((&c,), ()),
    {
        if let OptionValue::GetOption(t) = self {
            fnc(t)
        };
        self
    }

    pub fn on_boolean<F: FnOnce(&OptionValueBoolean)>(&self, fnc: F) -> (r: &Self)
        requires
            forall|t: &OptionValueBoolean| #[trigger] fnc.requires((t,)),
        ensures
            r == self,
            *self matches OptionValue::Boolean(c) ==> fnc.ensures((&c,), ()),
    {
        if let OptionValue::Boolean(t) = self {
            fnc(t)
        };
        self
    }

    pub fn on_empty<F: FnOnce(&OptionValueEmpty)>(&self, fnc: F) -> (r: &Self)
        requires
            forall|t: &OptionValueEmpty| #[trigger] fnc.requires((t,)),
        ensures
            r == self,
            *self matches OptionValue::Empty(c) ==> fnc.ensures((&c,), ()),
    {
        if let OptionValue::Empty(t) = self {
            fnc(t)
        };
        self
    }

    pub fn on_integer<F: FnOnce(&OptionValueInteger)>(&self, fnc: F) -> (r: &Self)
        requires
            forall|t: &OptionValueInteger| #[trigger] fnc.requires((t,)),
        ensures
            r == self,
            *self matches OptionValue::Integer(c) ==> fnc.ensures((&c,), ()),
    {
        if let OptionValue::Integer(t) = self {
            fnc(t)
        };
        self
    }

    pub fn on_string<F: FnOnce(&OptionValueString)>(&self, fnc: F) -> (r: &Self)
        requires
            forall|t: &OptionValueString| #[trigger] fnc.requires((t,)),
        ensures
            r == self,
            *self matches OptionValue::String(c) ==> fnc.ensures((&c,), ()),
    {
        if let OptionValue::String(t) = self {
            fnc(t)
        };
        self
    }

    pub fn as_get_option(&self) -> (r: Option<&GetOption>)
        ensures
            (r is Some) == (self is GetOption),
            r matches Some(t) ==> *self matches OptionValue::GetOption(c) && *t == c,
    {
        if let OptionValue::GetOption(t) = self {
            return Some(t);
        }
        None
    }

    pub fn as_boolean(&self) -> (r: Option<&OptionValueBoolean>)
        ensures
            (r is Some) == (self is Boolean),
            r matches Some(t) ==> *self matches OptionValue::Boolean(c) && *t == c,
    {
        if let OptionValue::Boolean(t) = self {
            return Some(t);
        }
        None
    }

    pub fn as_empty(&self) -> (r: Option<&OptionValueEmpty>)
        ensures
            (r is Some) == (self is Empty),
            r matches Some(t) ==> *self matches OptionValue::Empty(c) && *t == c,
    {
        if let OptionValue::Empty(t) = self {
            return Some(t);
        }
        None
    }

    pub fn as_integer(&self) -> (r: Option<&OptionValueInteger>)
        ensures
            (r is Some) == (self is Integer),
            r matches Some(t) ==> *self matches OptionValue::Integer(c) && *t == c,
    {
        if let OptionValue::Integer(t) = self {
            return Some(t);
        }
        None
    }

    pub fn as_string(&self) -> (r: Option<&OptionValueString>)
        ensures
            (r is Some) == (self is String),
            r matches Some(t) ==> *self matches OptionValue::String(c) && *t == c,
    {
        if let OptionValue::String(t) = self {
            return Some(t);
        }
        None
    }

    pub fn get_option(t: &GetOption) -> (r: Self)
        ensures
            r == OptionValue::GetOption(*t),
    {
        OptionValue::GetOption(t.clone())
    }

    pub fn boolean(t: &OptionValueBoolean) -> (r: Self)
        ensures
            r == OptionValue::Boolean(*t),
    {
        OptionValue::Boolean(t.clone())
    }

    pub fn empty(t: &OptionValueEmpty) -> (r: Self)
        ensures
            r == OptionValue::Empty(*t),
    {
        OptionValue::Empty(t.clone())
    }

    pub fn integer(t: &OptionValueInteger) -> (r: Self)
        ensures
            r == OptionValue::Integer(*t),
    {
        OptionValue::Integer(t.clone())
    }

    pub fn string(t: &OptionValueString) -> (r: Self)
        ensures
            r == OptionValue::String(*t),
    {
        OptionValue::String(t.clone())
    }
}

/// Boolean option
#[derive(Debug)]
pub struct OptionValueBoolean {
    pub td_name: String,
    pub extra: Option<String>,
    /// The value of the option
    pub value: bool,
}

impl Clone for OptionValueBoolean {
    fn clone(&self) -> (r: Self)
        ensures
            r == *self,
    {
        OptionValueBoolean {
            td_name: self.td_name.clone(),
            extra: match &self.extra {
                Some(s) => Some(s.clone()),
                None => None,
            },
            value: self.value,
        }
    }
}

impl Default for OptionValueBoolean {
    fn default() -> (r: Self)
        ensures
            r.td_name@ == Seq::<char>::empty(),
            r.extra is None,
            r.value == false,
    {
        OptionValueBoolean { td_name: String::new(), extra: None, value: false }
    }
}

impl RObject for OptionValueBoolean {
    fn td_name(&self) -> &'static str {
        "optionValueBoolean"
    }

    fn extra(&self) -> Option<String> {
        match &self.extra {
            Some(s) => Some(s.clone()),
            None => None,
        }
    }
}

impl TDOptionValue for OptionValueBoolean {
}

impl OptionValueBoolean {
    pub fn builder() -> (r: RTDOptionValueBooleanBuilder)
        ensures
            r.inner.td_name@ == "optionValueBoolean"@,
            r.inner.extra is Some,
            r.inner.value == false,
    {
        let mut inner = OptionValueBoolean::default();
        inner.td_name = "optionValueBoolean".to_owned();
        inner.extra = Some(new_extra());
        RTDOptionValueBooleanBuilder { inner }
    }

    /// The value of the option
    pub fn value(&self) -> (r: bool)
        ensures
            r == self.value,
    {
        self.value
    }
}

pub struct RTDOptionValueBooleanBuilder {
    pub inner: OptionValueBoolean,
}

impl RTDOptionValueBooleanBuilder {
    pub fn build(&self) -> (r: OptionValueBoolean)
        ensures
            r == self.inner,
    {
        self.inner.clone()
    }

    pub fn value(&mut self, value: bool)
        ensures
            final(self).inner.value == value,
            final(self).inner.td_name == old(self).inner.td_name,
            final(self).inner.extra == old(self).inner.extra,
    {
        self.inner.value = value;
    }
}

/// An unknown option or an option which has a default value
#[derive(Debug)]
pub struct OptionValueEmpty {
    pub td_name: String,
    pub extra: Option<String>,
}

impl Clone for OptionValueEmpty {
    fn clone(&self) -> (r: Self)
        ensures
            r == *self,
    {
        OptionValueEmpty {
            td_name: self.td_name.clone(),
            extra: match &self.extra {
                Some(s) => Some(s.clone()),
                None => None,
            },
        }
    }
}

impl Default for OptionValueEmpty {
    fn default() -> (r: Self)
        ensures
            r.td_name@ == Seq::<char>::empty(),
            r.extra is None,
    {
        OptionValueEmpty { td_name: String::new(), extra: None }
    }
}

impl RObject for OptionValueEmpty {
    fn td_name(&self) -> &'static str {
        "optionValueEmpty"
    }

    fn extra(&self) -> Option<String> {
        match &self.extra {
            Some(s) => Some(s.clone()),
            None => None,
        }
    }
}

impl TDOptionValue for OptionValueEmpty {
}

impl OptionValueEmpty {
    pub fn builder() -> (r: RTDOptionValueEmptyBuilder)
        ensures
            r.inner.td_name@ == "optionValueEmpty"@,
            r.inner.extra is Some,
    {
        let mut inner = OptionValueEmpty::default();
        inner.td_name = "optionValueEmpty".to_owned();
        inner.extra = Some(new_extra());
        RTDOptionValueEmptyBuilder { inner }
    }
}

pub struct RTDOptionValueEmptyBuilder {
    pub inner: OptionValueEmpty,
}

impl RTDOptionValueEmptyBuilder {
    pub fn build(&self) -> (r: OptionValueEmpty)
        ensures
            r == self.inner,
    {
        self.inner.clone()
    }
}

/// An integer option
#[derive(Debug)]
pub struct OptionValueInteger {
    pub td_name: String,
    pub extra: Option<String>,
    /// The value of the option
    pub value: i64,
}

impl Clone for OptionValueInteger {
    fn clone(&self) -> (r: Self)
        ensures
            r == *self,
    {
        OptionValueInteger {
            td_name: self.td_name.clone(),
            extra: match &self.extra {
                Some(s) => Some(s.clone()),
                None => None,
            },
            value: self.value,
        }
    }
}

impl Default for OptionValueInteger {
    fn default() -> (r: Self)
        ensures
            r.td_name@ == Seq::<char>::empty(),
            r.extra is None,
            r.value == 0,
    {
        OptionValueInteger { td_name: String::new(), extra: None, value: 0 }
    }
}

impl RObject for OptionValueInteger {
    fn td_name(&self) -> &'static str {
        "optionValueInteger"
    }

    fn extra(&self) -> Option<String> {
        match &self.extra {
            Some(s) => Some(s.clone()),
            None => None,
        }
    }
}

impl TDOptionValue for OptionValueInteger {
}

impl OptionValueInteger {
    pub fn builder() -> (r: RTDOptionValueIntegerBuilder)
        ensures
            r.inner.td_name@ == "optionValueInteger"@,
            r.inner.extra is Some,
            r.inner.value == 0,
    {
        let mut inner = OptionValueInteger::default();
        inner.td_name = "optionValueInteger".to_owned();
        inner.extra = Some(new_extra());
        RTDOptionValueIntegerBuilder { inner }
    }

    /// The value of the option
    pub fn value(&self) -> (r: i64)
        ensures
            r == self.value,
    {
        self.value
    }
}

pub struct RTDOptionValueIntegerBuilder {
    pub inner: OptionValueInteger,
}

impl RTDOptionValueIntegerBuilder {
    pub fn build(&self) -> (r: OptionValueInteger)
        ensures
            r == self.inner,
    {
        self.inner.clone()
    }

    pub fn value(&mut self, value: i64)
        ensures
            final(self).inner.value == value,
            final(self).inner.td_name == old(self).inner.td_name,
            final(self).inner.extra == old(self).inner.extra,
    {
        self.inner.value = value;
    }
}

/// A string option
#[derive(Debug)]
pub struct OptionValueString {
    pub td_name: String,
    pub extra: Option<String>,
    /// The value of the option
    pub value: String,
}

impl Clone for OptionValueString {
    fn clone(&self) -> (r: Self)
        ensures
            r == *self,
    {
        OptionValueString {
            td_name: self.td_name.clone(),
            extra: match &self.extra {
                Some(s) => Some(s.clone()),
                None => None,
            },
            value: self.value.clone(),
        }
    }
}

impl Default for OptionValueString {
    fn default() -> (r: Self)
        ensures
            r.td_name@ == Seq::<char>::empty(),
            r.extra is None,
            r.value@ == Seq::<char>::empty(),
    {
        OptionValueString { td_name: String::new(), extra: None, value: String::new() }
    }
}

impl RObject for OptionValueString {
    fn td_name(&self) -> &'static str {
        "optionValueString"
    }

    fn extra(&self) -> Option<String> {
        match &self.extra {
            Some(s) => Some(s.clone()),
            None => None,
        }
    }
}

impl TDOptionValue for OptionValueString {
}

impl OptionValueString {
    pub fn builder() -> (r: RTDOptionValueStringBuilder)
        ensures
            r.inner.td_name@ == "optionValueString"@,
            r.inner.extra is Some,
            r.inner.value@ == Seq::<char>::empty(),
    {
        let mut inner = OptionValueString::default();
        inner.td_name = "optionValueString".to_owned();
        inner.extra = Some(new_extra());
        RTDOptionValueStringBuilder { inner }
    }

    /// The value of the option
    pub fn value(&self) -> (r: &String)
        ensures
            r == self.value,
    {
        &self.value
    }
}

pub struct RTDOptionValueStringBuilder {
    pub inner: OptionValueString,
}

impl RTDOptionValueStringBuilder {
    pub fn build(&self) -> (r: OptionValueString)
        ensures
            r == self.inner,
    {
        self.inner.clone()
    }

    pub fn value(&mut self, value: &str)
        ensures
            final(self).inner.value@ == value@,
            final(self).inner.td_name == old(self).inner.td_name,
            final(self).inner.extra == old(self).inner.extra,
    {
        self.inner.value = value.to_owned();
    }
}

} // verus!
