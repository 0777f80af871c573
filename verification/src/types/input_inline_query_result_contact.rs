//! Represents a user contact.

use vstd::prelude::*;

use crate::types::RObject;
use crate::types::support::{Contact, InputMessageContent, ReplyMarkup};

verus! {

/// Represents a user contact.
#[derive(Debug)]
pub struct InputInlineQueryResultContact {
    pub td_name: String,
    /// Unique identifier of the query result.
    pub id: Option<String>,
    /// User contact.
    pub contact: Option<Contact>,
    /// URL of the result thumbnail, if it exists.
    pub thumbnail_url: Option<String>,
    /// Thumbnail width, if known.
    pub thumbnail_width: Option<i32>,
    /// Thumbnail height, if known.
    pub thumbnail_height: Option<i32>,
    /// The message reply markup. Must be of type replyMarkupInlineKeyboard or null.
    pub reply_markup: Option<Box<ReplyMarkup>>,
    /// The content of the message to be sent. Must be one of the following types: InputMessageText, InputMessageLocation, InputMessageVenue or InputMessageContact.
    pub input_message_content: Option<Box<InputMessageContent>>,
}

impl Clone for InputInlineQueryResultContact {
    fn clone(&self) -> (r: Self)
        ensures
            r == *self,
    {
        InputInlineQueryResultContact {
            td_name: self.td_name.clone(),
            id: match &self.id {
                Some(s) => Some(s.clone()),
                None => None,
            },
            contact: match &self.contact {
                Some(v) => Some(v.clone()),
                None => None,
            },
            thumbnail_url: match &self.thumbnail_url {
                Some(s) => Some(s.clone()),
                None => None,
            },
            thumbnail_width: self.thumbnail_width,
            thumbnail_height: self.thumbnail_height,
            reply_markup: match &self.reply_markup {
                Some(b) => Some(Box::new((**b).clone())),
                None => None,
            },
            input_message_content: match &self.input_message_content {
                Some(b) => Some(Box::new((**b).clone())),
                None => None,
            },
        }
    }
}

impl Default for InputInlineQueryResultContact {
    fn default() -> (r: Self)
        ensures
            r.td_name@ == Seq::<char>::empty(),
            r.id is None,
            r.contact is None,
            r.thumbnail_url is None,
            r.thumbnail_width is None,
            r.thumbnail_height is None,
            r.reply_markup is None,
            r.input_message_content is None,
    {
        InputInlineQueryResultContact { td_name: String::new(), id: None, contact: None, thumbnail_url: None, thumbnail_width: None, thumbnail_height: None, reply_markup: None, input_message_content: None }
    }
}

impl RObject for InputInlineQueryResultContact {
    fn td_name(&self) -> &'static str {
        "inputInlineQueryResultContact"
    }

    fn extra(&self) -> Option<String> {
        None
    }
}

impl InputInlineQueryResultContact {
    pub fn _new() -> (r: Self)
        ensures
            r.td_name@ == "inputInlineQueryResultContact"@,
            r.id is None,
            r.contact is None,
            r.thumbnail_url is None,
            r.thumbnail_width is None,
            r.thumbnail_height is None,
            r.reply_markup is None,
            r.input_message_content is None,
    {
        InputInlineQueryResultContact { td_name: "inputInlineQueryResultContact".to_owned(), id: None, contact: None, thumbnail_url: None, thumbnail_width: None, thumbnail_height: None, reply_markup: None, input_message_content: None }
    }

    /// Unique identifier of the query result.
    pub fn id(&self) -> (r: Option<String>)
        ensures
            r == self.id,
    {
        match &self.id {
                Some(s) => Some(s.clone()),
                None => None,
            }
    }

    /// User contact.
    pub fn contact(&self) -> (r: Option<Contact>)
        ensures
            r == self.contact,
    {
        match &self.contact {
                Some(v) => Some(v.clone()),
                None => None,
            }
    }

    /// URL of the result thumbnail, if it exists.
    pub fn thumbnail_url(&self) -> (r: Option<String>)
        ensures
            r == self.thumbnail_url,
    {
        match &self.thumbnail_url {
                Some(s) => Some(s.clone()),
                None => None,
            }
    }

    /// Thumbnail width, if known.
    pub fn thumbnail_width(&self) -> (r: Option<i32>)
        ensures
            r == self.thumbnail_width,
    {
        self.thumbnail_width
    }

    /// Thumbnail height, if known.
    pub fn thumbnail_height(&self) -> (r: Option<i32>)
        ensures
            r == self.thumbnail_height,
    {
        self.thumbnail_height
    }

    /// The message reply markup. Must be of type replyMarkupInlineKeyboard or null.
    pub fn reply_markup(&self) -> (r: Option<Box<ReplyMarkup>>)
        ensures
            r == self.reply_markup,
    {
        match &self.reply_markup {
                Some(b) => Some(Box::new((**b).clone())),
                None => None,
            }
    }

    /// The content of the message to be sent. Must be one of the following types: InputMessageText, InputMessageLocation, InputMessageVenue or InputMessageContact.
    pub fn input_message_content(&self) -> (r: Option<Box<InputMessageContent>>)
        ensures
            r == self.input_message_content,
    {
        match &self.input_message_content {
                Some(b) => Some(Box::new((**b).clone())),
                None => None,
            }
    }

    pub fn _set_id(&mut self, id: String)
        ensures
            final(self).id == Some(id),
            final(self).contact == old(self).contact,
            final(self).thumbnail_url == old(self).thumbnail_url,
            final(self).thumbnail_width == old(self).thumbnail_width,
            final(self).thumbnail_height == old(self).thumbnail_height,
            final(self).reply_markup == old(self).reply_markup,
            final(self).input_message_content == old(self).input_message_content,
            final(self).td_name == old(self).td_name,
    {
        self.id = Some(id);
    }

    pub fn _set_contact(&mut self, contact: Contact)
        ensures
            final(self).contact == Some(contact),
            final(self).id == old(self).id,
            final(self).thumbnail_url == old(self).thumbnail_url,
            final(self).thumbnail_width == old(self).thumbnail_width,
            final(self).thumbnail_height == old(self).thumbnail_height,
            final(self).reply_markup == old(self).reply_markup,
            final(self).input_message_content == old(self).input_message_content,
            final(self).td_name == old(self).td_name,
    {
        self.contact = Some(contact);
    }

    pub fn _set_thumbnail_url(&mut self, thumbnail_url: String)
        ensures
            final(self).thumbnail_url == Some(thumbnail_url),
            final(self).id == old(self).id,
            final(self).contact == old(self).contact,
            final(self).thumbnail_width == old(self).thumbnail_width,
            final(self).thumbnail_height == old(self).thumbnail_height,
            final(self).reply_markup == old(self).reply_markup,
            final(self).input_message_content == old(self).input_message_content,
            final(self).td_name == old(self).td_name,
    {
        self.thumbnail_url = Some(thumbnail_url);
    }

    pub fn _set_thumbnail_width(&mut self, thumbnail_width: i32)
        ensures
            final(self).thumbnail_width == Some(thumbnail_width),
            final(self).id == old(self).id,
            final(self).contact == old(self).contact,
            final(self).thumbnail_url == old(self).thumbnail_url,
            final(self).thumbnail_height == old(self).thumbnail_height,
            final(self).reply_markup == old(self).reply_markup,
            final(self).input_message_content == old(self).input_message_content,
            final(self).td_name == old(self).td_name,
    {
        self.thumbnail_width = Some(thumbnail_width);
    }

    pub fn _set_thumbnail_height(&mut self, thumbnail_height: i32)
        ensures
            final(self).thumbnail_height == Some(thumbnail_height),
            final(self).id == old(self).id,
            final(self).contact == old(self).contact,
            final(self).thumbnail_url == old(self).thumbnail_url,
            final(self).thumbnail_width == old(self).thumbnail_width,
            final(self).reply_markup == old(self).reply_markup,
            final(self).input_message_content == old(self).input_message_content,
            final(self).td_name == old(self).td_name,
    {
        self.thumbnail_height = Some(thumbnail_height);
    }

    pub fn _set_reply_markup(&mut self, reply_markup: Box<ReplyMarkup>)
        ensures
            final(self).reply_markup == Some(reply_markup),
            final(self).id == old(self).id,
            final(self).contact == old(self).contact,
            final(self).thumbnail_url == old(self).thumbnail_url,
            final(self).thumbnail_width == old(self).thumbnail_width,
            final(self).thumbnail_height == old(self).thumbnail_height,
            final(self).input_message_content == old(self).input_message_content,
            final(self).td_name == old(self).td_name,
    {
        self.reply_markup = Some(reply_markup);
    }

    pub fn _set_input_message_content(&mut self, input_message_content: Box<InputMessageContent>)
        ensures
            final(self).input_message_content == Some(input_message_content),
            final(self).id == old(self).id,
            final(self).contact == old(self).contact,
            final(self).thumbnail_url == old(self).thumbnail_url,
            final(self).thumbnail_width == old(self).thumbnail_width,
            final(self).thumbnail_height == old(self).thumbnail_height,
            final(self).reply_markup == old(self).reply_markup,
            final(self).td_name == old(self).td_name,
    {
        self.input_message_content = Some(input_message_content);
    }
}

} // verus!
