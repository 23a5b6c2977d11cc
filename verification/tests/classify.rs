//! Every entry of the fixed error-code table, exercised by a dedicated
//! case, plus the preservation of unknown codes.

use slack_client::ErrorKind;
use slack_client::from_api_error_string;

fn kind_of(code: &str) -> ErrorKind {
    from_api_error_string(&code.to_string()).kind
}

#[test]
fn classify_not_authed() {
    assert_eq!(kind_of("not_authed"), ErrorKind::NoAuthToken);
}

#[test]
fn classify_invalid_auth() {
    assert_eq!(kind_of("invalid_auth"), ErrorKind::InvalidAuthToken);
}

#[test]
fn classify_account_inactive() {
    assert_eq!(kind_of("account_inactive"), ErrorKind::InactiveAuthToken);
}

#[test]
fn classify_user_is_bot() {
    assert_eq!(kind_of("user_is_bot"), ErrorKind::MethodForbiddenForBots);
}

#[test]
fn classify_user_is_restricted() {
    assert_eq!(kind_of("user_is_restricted"), ErrorKind::MethodForbiddenForRestrictedUser);
}

#[test]
fn classify_user_is_ultra_restricted() {
    assert_eq!(kind_of("user_is_ultra_restricted"), ErrorKind::MethodForbiddenForSingleChannelGuest);
}

#[test]
fn classify_user_not_found() {
    assert_eq!(kind_of("user_not_found"), ErrorKind::UserNotFound);
}

#[test]
fn classify_invalid_arg_name() {
    assert_eq!(kind_of("invalid_arg_name"), ErrorKind::InvalidMethodArg);
}

#[test]
fn classify_invalid_array_arg() {
    assert_eq!(kind_of("invalid_array_arg"), ErrorKind::InvalidArrayArg);
}

#[test]
fn classify_invalid_charset() {
    assert_eq!(kind_of("invalid_charset"), ErrorKind::InvalidCharset);
}

#[test]
fn classify_invalid_form_data() {
    assert_eq!(kind_of("invalid_form_data"), ErrorKind::InvalidFormData);
}

#[test]
fn classify_invalid_post_type() {
    assert_eq!(kind_of("invalid_post_type"), ErrorKind::InvalidPostType);
}

#[test]
fn classify_missing_post_type() {
    assert_eq!(kind_of("missing_post_type"), ErrorKind::MissingPostType);
}

#[test]
fn classify_request_timeout() {
    assert_eq!(kind_of("request_timeout"), ErrorKind::RequestTimeout);
}

#[test]
fn classify_restricted_action() {
    assert_eq!(kind_of("restricted_action"), ErrorKind::ChannelActionRestricted);
}

#[test]
fn classify_no_channel() {
    assert_eq!(kind_of("no_channel"), ErrorKind::NoChannel);
}

#[test]
fn classify_name_taken() {
    assert_eq!(kind_of("name_taken"), ErrorKind::ChannelNameTaken);
}

#[test]
fn classify_not_in_channel() {
    assert_eq!(kind_of("not_in_channel"), ErrorKind::NotInChannel);
}

#[test]
fn classify_is_archived() {
    assert_eq!(kind_of("is_archived"), ErrorKind::ChannelIsArchived);
}

#[test]
fn classify_already_archived() {
    assert_eq!(kind_of("already_archived"), ErrorKind::ChannelIsArchived);
}

#[test]
fn classify_cant_archive_general() {
    assert_eq!(kind_of("cant_archive_general"), ErrorKind::CannotArchiveGeneralChannel);
}

#[test]
fn classify_cant_invite_self() {
    assert_eq!(kind_of("cant_invite_self"), ErrorKind::CannotInviteSelfToChannel);
}

#[test]
fn classify_already_in_channel() {
    assert_eq!(kind_of("already_in_channel"), ErrorKind::UserAlreadyMemberOfChannel);
}

#[test]
fn classify_cant_invite() {
    assert_eq!(kind_of("cant_invite"), ErrorKind::CannotInviteUserToChannel);
}

#[test]
fn classify_too_many_users() {
    assert_eq!(kind_of("too_many_users"), ErrorKind::TooManyUsersInvitedAtOnce);
}

#[test]
fn classify_last_ra_channel() {
    assert_eq!(kind_of("last_ra_channel"), ErrorKind::CannotArchiveLastRestrictedActionChannel);
}

#[test]
fn classify_channel_not_found() {
    assert_eq!(kind_of("channel_not_found"), ErrorKind::ChannelNotFound);
}

#[test]
fn classify_cant_leave_general() {
    assert_eq!(kind_of("cant_leave_general"), ErrorKind::CannotLeaveGeneralChannel);
}

#[test]
fn classify_invalid_timestamp() {
    assert_eq!(kind_of("invalid_timestamp"), ErrorKind::InvalidTimestamp);
}

#[test]
fn classify_too_long() {
    assert_eq!(kind_of("too_long"), ErrorKind::ChannelPurposeOrTopicTooLong);
}

#[test]
fn classify_not_archived() {
    assert_eq!(kind_of("not_archived"), ErrorKind::ChannelNotArchived);
}

#[test]
fn classify_message_not_found() {
    assert_eq!(kind_of("message_not_found"), ErrorKind::MessageNotFound);
}

#[test]
fn classify_cant_delete_message() {
    assert_eq!(kind_of("cant_delete_message"), ErrorKind::UserCannotDeleteMessage);
}

#[test]
fn classify_compliance_exports_prevent_deletion() {
    assert_eq!(kind_of("compliance_exports_prevent_deletion"), ErrorKind::ComplianceExportsPreventDeletion);
}

#[test]
fn classify_msg_too_long() {
    assert_eq!(kind_of("msg_too_long"), ErrorKind::MessageTooLong);
}

#[test]
fn classify_no_text() {
    assert_eq!(kind_of("no_text"), ErrorKind::MessageHasNoText);
}

#[test]
fn classify_too_many_attachments() {
    assert_eq!(kind_of("too_many_attachments"), ErrorKind::MessageHasTooManyAttachments);
}

#[test]
fn classify_rate_limited() {
    assert_eq!(kind_of("rate_limited"), ErrorKind::RateLimited);
}

#[test]
fn classify_unknown_code_preserves_text() {
    match kind_of("some_future_error") {
        ErrorKind::Unknown(s) => assert_eq!(s, "some_future_error"),
        other => panic!("expected the unknown kind, got {:?}", other),
    }
}

#[test]
fn classify_empty_string_is_unknown() {
    match kind_of("") {
        ErrorKind::Unknown(s) => assert_eq!(s, ""),
        other => panic!("expected the unknown kind, got {:?}", other),
    }
}

#[test]
fn classify_near_miss_is_unknown() {
    match kind_of("not_authed_") {
        ErrorKind::Unknown(s) => assert_eq!(s, "not_authed_"),
        other => panic!("expected the unknown kind, got {:?}", other),
    }
}

#[test]
fn classify_is_case_sensitive() {
    match kind_of("Not_Authed") {
        ErrorKind::Unknown(s) => assert_eq!(s, "Not_Authed"),
        other => panic!("expected the unknown kind, got {:?}", other),
    }
}

#[test]
fn classify_scenario_three_codes() {
    assert_eq!(kind_of("not_authed"), ErrorKind::NoAuthToken);
    assert_eq!(kind_of("cant_invite_self"), ErrorKind::CannotInviteSelfToChannel);
    match kind_of("totally_unknown_code") {
        ErrorKind::Unknown(s) => assert_eq!(s, "totally_unknown_code"),
        other => panic!("expected the unknown kind, got {:?}", other),
    }
}

#[test]
fn error_kind_accessor_matches_field() {
    let e = from_api_error_string(&"rate_limited".to_string());
    assert_eq!(*e.kind(), ErrorKind::RateLimited);
}
