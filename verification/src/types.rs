//! The generated binding types of the API: enums for polymorphic types,
//! one struct per concrete type, and a builder for each struct.

use vstd::prelude::*;

pub mod authentication_code_type;
pub mod basic_group_full_info;
pub mod bot_commands;
pub mod chat_event_action;
pub mod chat_members_filter_members;
pub mod chat_report_reason;
pub mod chat_report_reason_pornography;
pub mod get_chat;
pub mod input_inline_query_result_contact;
pub mod local_file;
pub mod notification_type;
pub mod option_value;
pub mod set_chat_draft_message;
pub mod set_chat_notification_settings;
pub mod support;

verus! {

/// Data every binding object carries: its wire type name and the optional
/// request-correlation tag.
pub trait RObject {
    fn td_name(&self) -> &'static str;

    fn extra(&self) -> Option<String>;
}

/// Relies on uuid's `Uuid::new_v4` and its default hyphenated rendering:
/// a fresh random identifier always renders as 36 characters.
#[verifier::external_body]
pub(crate) fn new_extra() -> (r: String)
    ensures
        r@.len() == 36,
{
    uuid::Uuid::new_v4().to_string()
}

} // verus!
