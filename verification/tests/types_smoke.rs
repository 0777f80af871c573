use rtdlib::types::authentication_code_type::{
    AuthenticationCodeType, AuthenticationCodeTypeCall, AuthenticationCodeTypeFlashCall,
};
use rtdlib::types::basic_group_full_info::BasicGroupFullInfo;
use rtdlib::types::bot_commands::BotCommands;
use rtdlib::types::chat_event_action::{ChatEventAction, ChatEventDescriptionChanged};
use rtdlib::types::chat_members_filter_members::ChatMembersFilterMembers;
use rtdlib::types::chat_report_reason::{ChatReportReason, ChatReportReasonCustom};
use rtdlib::types::chat_report_reason_pornography::ChatReportReasonPornography;
use rtdlib::types::get_chat::GetChat;
use rtdlib::types::input_inline_query_result_contact::InputInlineQueryResultContact;
use rtdlib::types::local_file::LocalFile;
use rtdlib::types::notification_type::{NotificationType, NotificationTypeNewCall};
use rtdlib::types::option_value::{OptionValue, OptionValueBoolean, OptionValueString};
use rtdlib::types::set_chat_draft_message::SetChatDraftMessage;
use rtdlib::types::set_chat_notification_settings::SetChatNotificationSettings;
use rtdlib::types::support::BotCommand;
use rtdlib::types::RObject;

#[test]
fn builder_fills_type_name_and_extra() {
    let mut b = AuthenticationCodeTypeCall::builder();
    b.length(5);
    let c = b.build();
    assert_eq!(c.length(), 5);
    assert_eq!(c.td_name(), "authenticationCodeTypeCall");
    let extra = c.extra().expect("builder sets extra");
    assert_eq!(extra.chars().count(), 36);
}

#[test]
fn enum_helpers_track_the_variant() {
    let mut b = AuthenticationCodeTypeCall::builder();
    b.length(4);
    let call = AuthenticationCodeType::call(&b.build());
    assert!(call.is_call());
    assert!(!call.is_sms());
    assert!(!call._is_default());
    assert_eq!(call.as_call().expect("as_call").length(), 4);
    assert!(call.as_sms().is_none());
    assert_eq!(call.td_name(), "authenticationCodeTypeCall");

    let d = AuthenticationCodeType::default();
    assert!(d._is_default());
    assert_eq!(d.td_name(), "-1");
    assert!(d.extra().is_none());
}

#[test]
fn enum_on_runs_only_for_the_matching_variant() {
    let mut b = AuthenticationCodeTypeFlashCall::builder();
    b.pattern("33-55");
    let v = AuthenticationCodeType::flash_call(&b.build());
    let mut seen = String::new();
    v.on_flash_call(|t| {
        seen = t.pattern().clone();
    });
    assert_eq!(seen, "33-55");
    let mut hit = false;
    v.on_call(|_| {
        hit = true;
    });
    assert!(!hit);
}

#[test]
fn bot_commands_builder_keeps_commands() {
    let mut cmd = BotCommand::default();
    cmd.td_name = "botCommand".to_string();
    let mut b = BotCommands::builder();
    b.bot_user_id(77);
    b.commands(vec![cmd]);
    let v = b.build();
    assert_eq!(v.bot_user_id(), 77);
    assert_eq!(v.commands().len(), 1);
    assert_eq!(v.td_name(), "botCommands");
}

#[test]
fn basic_group_full_info_accessors() {
    let mut b = BasicGroupFullInfo::builder();
    b.description("a group");
    b.creator_user_id(9);
    let v = b.build();
    assert_eq!(v.description(), "a group");
    assert_eq!(v.creator_user_id(), 9);
    assert!(v.photo().is_none());
    assert!(v.invite_link().is_none());
    assert_eq!(v.members().len(), 0);
    assert_eq!(v.bot_commands().len(), 0);
}

#[test]
fn chat_event_action_variants() {
    let mut b = ChatEventDescriptionChanged::builder();
    b.old_description("before");
    b.new_description("after");
    let ev = ChatEventAction::chat_event_description_changed(&b.build());
    assert!(ev.is_chat_event_description_changed());
    let inner = ev.as_chat_event_description_changed().expect("variant");
    assert_eq!(inner.old_description(), "before");
    assert_eq!(inner.new_description(), "after");
    assert_eq!(ev.td_name(), "chatEventDescriptionChanged");
}

#[test]
fn chat_report_reason_variants() {
    let b = ChatReportReasonCustom::builder();
    let r = ChatReportReason::custom(&b.build());
    assert!(r.is_custom());
    assert!(!r.is_spam());
    assert!(r.as_custom().is_some());
    assert!(r.as_spam().is_none());
    assert_eq!(r.td_name(), "chatReportReasonCustom");
}

#[test]
fn notification_type_new_call() {
    let mut b = NotificationTypeNewCall::builder();
    b.call_id(123);
    let n = NotificationType::new_call(&b.build());
    assert!(n.is_new_call());
    assert_eq!(n.as_new_call().expect("variant").call_id(), 123);
}

#[test]
fn option_values() {
    let mut b = OptionValueBoolean::builder();
    b.value(true);
    let v = OptionValue::boolean(&b.build());
    assert!(v.is_boolean());
    assert!(v.as_boolean().expect("boolean").value());

    let mut s = OptionValueString::builder();
    s.value("hello");
    let v2 = OptionValue::string(&s.build());
    assert!(v2.is_string());
    assert_eq!(v2.as_string().expect("string").value(), "hello");
    assert_eq!(v2.td_name(), "optionValueString");
}

#[test]
fn get_chat_set_and_get() {
    let mut g = GetChat::_new();
    assert!(g.chat_id().is_none());
    g._set_chat_id(42);
    assert_eq!(g.chat_id(), Some(42));
    assert_eq!(g.td_name(), "getChat");
}

#[test]
fn local_file_fields() {
    let mut f = LocalFile::_new();
    assert!(f.path().is_none());
    f._set_path("/tmp/part".to_string());
    f._set_can_be_downloaded(true);
    f._set_downloaded_size(100);
    assert_eq!(f.path(), Some("/tmp/part".to_string()));
    assert_eq!(f.can_be_downloaded(), Some(true));
    assert_eq!(f.downloaded_size(), Some(100));
    assert!(f.is_downloading_active().is_none());
    assert_eq!(f.td_name(), "localFile");
}

#[test]
fn simple_function_objects() {
    let m = ChatMembersFilterMembers::_new();
    assert_eq!(m.td_name(), "chatMembersFilterMembers");
    let p = ChatReportReasonPornography::_new();
    assert_eq!(p.td_name(), "chatReportReasonPornography");

    let mut d = SetChatDraftMessage::_new();
    d._set_chat_id(5);
    assert_eq!(d.chat_id(), Some(5));
    assert!(d.draft_message().is_none());

    let mut n = SetChatNotificationSettings::_new();
    n._set_chat_id(6);
    assert_eq!(n.chat_id(), Some(6));
    assert!(n.notification_settings().is_none());

    let c = InputInlineQueryResultContact::_new();
    assert!(c.id().is_none());
    assert!(c.contact().is_none());
    assert!(c.reply_markup().is_none());
    assert_eq!(c.td_name(), "inputInlineQueryResultContact");
}

#[test]
fn clone_preserves_values() {
    let mut b = AuthenticationCodeTypeCall::builder();
    b.length(8);
    let c = b.build();
    let c2 = c.clone();
    assert_eq!(c2.length(), 8);
    assert_eq!(c.extra(), c2.extra());
}
