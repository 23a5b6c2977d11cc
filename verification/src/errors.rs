//! The closed taxonomy of client errors, and the classifier that maps a
//! service-reported error code string onto it.
//!
//! Every Slack API response carries a boolean success flag; when it is
//! false the response names its failure with a short error code string.
//! [`from_api_error_string`] translates every such string into exactly one
//! [`ErrorKind`]; strings outside the known table are preserved verbatim
//! in [`ErrorKind::Unknown`].

use vstd::prelude::*;
use crate::strutil::str_eq;

verus! {

/// One member of the closed error taxonomy.
///
/// The first four kinds report failures of the client's own machinery
/// (transport, body reading, JSON decoding, URL construction); the two
/// identifier kinds report client-side pre-flight validation failures;
/// the rest mirror the service's documented error codes one to one.
#[derive(Debug, Clone, PartialEq, Eq)]
pub enum ErrorKind {
    /// The HTTP transport failed to carry the request.
    HttpError,
    /// Reading the response body failed.
    IoError,
    /// The response body was not the expected JSON shape.
    JsonParseError,
    /// The composed endpoint URL did not parse.
    UrlParseError,
    /// No auth token provided.
    NoAuthToken,
    /// Invalid auth token provided.
    InvalidAuthToken,
    /// Auth token provided was for a deleted user or team.
    InactiveAuthToken,
    /// Attempted to call an API method unavailable to bot users.
    MethodForbiddenForBots,
    /// Attempted to call an API method unavailable to restricted users.
    MethodForbiddenForRestrictedUser,
    /// Attempted to call an API method unavailable to single channel guests.
    MethodForbiddenForSingleChannelGuest,
    /// User specified is invalid or cannot be found.
    UserNotFound,
    /// Invalid Slack channel id.
    InvalidChannelId,
    /// Invalid Slack user id.
    InvalidUserId,
    /// Argument name is too long or contains invalid characters.
    InvalidMethodArg,
    /// Method was passed an array where a scalar was expected.
    InvalidArrayArg,
    /// Charset passed in the API call was neither `utf-8` nor `iso-8859-1`.
    InvalidCharset,
    /// API call was made via POST, but form data was missing or invalid.
    InvalidFormData,
    /// Content-type of the POST was not one the service supports.
    InvalidPostType,
    /// Content-type of the POST was not set.
    MissingPostType,
    /// API POST call content was missing or truncated.
    RequestTimeout,
    /// A team setting prevents the requesting user from creating channels.
    ChannelActionRestricted,
    /// No channel specified in a channel request.
    NoChannel,
    /// Channel cannot be created with the requested name.
    ChannelNameTaken,
    /// The user does not belong to the destination channel.
    NotInChannel,
    /// Destination channel is archived and inactive.
    ChannelIsArchived,
    /// Cannot archive the general channel.
    CannotArchiveGeneralChannel,
    /// Cannot invite self to a channel.
    CannotInviteSelfToChannel,
    /// Invited user is already a member of the channel.
    UserAlreadyMemberOfChannel,
    /// Cannot invite the user to the channel.
    CannotInviteUserToChannel,
    /// Too many users invited at once in a single API call.
    TooManyUsersInvitedAtOnce,
    /// Cannot archive the last channel for a restricted user.
    CannotArchiveLastRestrictedActionChannel,
    /// Invalid channel specified.
    ChannelNotFound,
    /// The authenticated user cannot leave the general channel.
    CannotLeaveGeneralChannel,
    /// Invalid timestamp passed to an API method.
    InvalidTimestamp,
    /// Channel purpose or topic exceeded the length limit.
    ChannelPurposeOrTopicTooLong,
    /// Channel is not archived and so cannot be unarchived.
    ChannelNotArchived,
    /// Message to be deleted or modified cannot be found.
    MessageNotFound,
    /// User does not have permission to delete the message.
    UserCannotDeleteMessage,
    /// Compliance exports are enabled, preventing message deletion.
    ComplianceExportsPreventDeletion,
    /// Attempted to post a message with no attachments and no text.
    NoMessageContent,
    /// Message text exceeds the service's length limit.
    MessageTooLong,
    /// A message post carried no text field.
    MessageHasNoText,
    /// Too many attachments for this message.
    MessageHasTooManyAttachments,
    /// Message posting has been rate-limited.
    RateLimited,
    /// Unknown error code returned by the service; the original code
    /// string is preserved for diagnostics.
    Unknown(String),
}

/// A typed error returned by the library.
#[derive(Debug, Clone, PartialEq, Eq)]
pub struct Error {
    pub kind: ErrorKind,
}

impl Error {
    /// Wraps an [`ErrorKind`] into an [`Error`].
    pub fn from_kind(kind: ErrorKind) -> (r: Error)
        ensures
            r.kind == kind,
    {
        Error { kind }
    }

    /// The kind of this error.
    pub fn kind(&self) -> (r: &ErrorKind)
        ensures
            r == &self.kind,
    {
        &self.kind
    }
}

/// The fixed classification table: the kind named by each known service
/// error code, or `None` for a code outside the table.
pub open spec fn spec_classify_known(code: Seq<char>) -> Option<ErrorKind> {
    if code == "not_authed"@ {
        Some(ErrorKind::NoAuthToken)
    } else if code == "invalid_auth"@ {
        Some(ErrorKind::InvalidAuthToken)
    } else if code == "account_inactive"@ {
        Some(ErrorKind::InactiveAuthToken)
    } else if code == "user_is_bot"@ {
        Some(ErrorKind::MethodForbiddenForBots)
    } else if code == "user_is_restricted"@ {
        Some(ErrorKind::MethodForbiddenForRestrictedUser)
    } else if code == "user_is_ultra_restricted"@ {
        Some(ErrorKind::MethodForbiddenForSingleChannelGuest)
    } else if code == "user_not_found"@ {
        Some(ErrorKind::UserNotFound)
    } else if code == "invalid_arg_name"@ {
        Some(ErrorKind::InvalidMethodArg)
    } else if code == "invalid_array_arg"@ {
        Some(ErrorKind::InvalidArrayArg)
    } else if code == "invalid_charset"@ {
        Some(ErrorKind::InvalidCharset)
    } else if code == "invalid_form_data"@ {
        Some(ErrorKind::InvalidFormData)
    } else if code == "invalid_post_type"@ {
        Some(ErrorKind::InvalidPostType)
    } else if code == "missing_post_type"@ {
        Some(ErrorKind::MissingPostType)
    } else if code == "request_timeout"@ {
        Some(ErrorKind::RequestTimeout)
    } else if code == "restricted_action"@ {
        Some(ErrorKind::ChannelActionRestricted)
    } else if code == "no_channel"@ {
        Some(ErrorKind::NoChannel)
    } else if code == "name_taken"@ {
        Some(ErrorKind::ChannelNameTaken)
    } else if code == "not_in_channel"@ {
        Some(ErrorKind::NotInChannel)
    } else if code == "is_archived"@ {
        Some(ErrorKind::ChannelIsArchived)
    } else if code == "already_archived"@ {
        Some(ErrorKind::ChannelIsArchived)
    } else if code == "cant_archive_general"@ {
        Some(ErrorKind::CannotArchiveGeneralChannel)
    } else if code == "cant_invite_self"@ {
        Some(ErrorKind::CannotInviteSelfToChannel)
    } else if code == "already_in_channel"@ {
        Some(ErrorKind::UserAlreadyMemberOfChannel)
    } else if code == "cant_invite"@ {
        Some(ErrorKind::CannotInviteUserToChannel)
    } else if code == "too_many_users"@ {
        Some(ErrorKind::TooManyUsersInvitedAtOnce)
    } else if code == "last_ra_channel"@ {
        Some(ErrorKind::CannotArchiveLastRestrictedActionChannel)
    } else if code == "channel_not_found"@ {
        Some(ErrorKind::ChannelNotFound)
    } else if code == "cant_leave_general"@ {
        Some(ErrorKind::CannotLeaveGeneralChannel)
    } else if code == "invalid_timestamp"@ {
        Some(ErrorKind::InvalidTimestamp)
    } else if code == "too_long"@ {
        Some(ErrorKind::ChannelPurposeOrTopicTooLong)
    } else if code == "not_archived"@ {
        Some(ErrorKind::ChannelNotArchived)
    } else if code == "message_not_found"@ {
        Some(ErrorKind::MessageNotFound)
    } else if code == "cant_delete_message"@ {
        Some(ErrorKind::UserCannotDeleteMessage)
    } else if code == "compliance_exports_prevent_deletion"@ {
        Some(ErrorKind::ComplianceExportsPreventDeletion)
    } else if code == "msg_too_long"@ {
        Some(ErrorKind::MessageTooLong)
    } else if code == "no_text"@ {
        Some(ErrorKind::MessageHasNoText)
    } else if code == "too_many_attachments"@ {
        Some(ErrorKind::MessageHasTooManyAttachments)
    } else if code == "rate_limited"@ {
        Some(ErrorKind::RateLimited)
    } else {
        None
    }
}

/// Maps a service-reported error code string to its typed error: the
/// documented kind for every code in the fixed table, and
/// [`ErrorKind::Unknown`] carrying the original string for every other
/// code.
pub fn from_api_error_string(error_string: &String) -> (r: Error)
    ensures
        spec_classify_known(error_string@) is Some ==> r.kind
            == spec_classify_known(error_string@)->0,
        spec_classify_known(error_string@) is None ==> (r.kind matches ErrorKind::Unknown(s)
            && s@ == error_string@),
{
    let code = error_string.as_str();
    let kind = if str_eq(code, "not_authed") {
        ErrorKind::NoAuthToken
    } else if str_eq(code, "invalid_auth") {
        ErrorKind::InvalidAuthToken
    } else if str_eq(code, "account_inactive") {
        ErrorKind::InactiveAuthToken
    } else if str_eq(code, "user_is_bot") {
        ErrorKind::MethodForbiddenForBots
    } else if str_eq(code, "user_is_restricted") {
        ErrorKind::MethodForbiddenForRestrictedUser
    } else if str_eq(code, "user_is_ultra_restricted") {
        ErrorKind::MethodForbiddenForSingleChannelGuest
    } else if str_eq(code, "user_not_found") {
        ErrorKind::UserNotFound
    } else if str_eq(code, "invalid_arg_name") {
        ErrorKind::InvalidMethodArg
    } else if str_eq(code, "invalid_array_arg") {
        ErrorKind::InvalidArrayArg
    } else if str_eq(code, "invalid_charset") {
        ErrorKind::InvalidCharset
    } else if str_eq(code, "invalid_form_data") {
        ErrorKind::InvalidFormData
    } else if str_eq(code, "invalid_post_type") {
        ErrorKind::InvalidPostType
    } else if str_eq(code, "missing_post_type") {
        ErrorKind::MissingPostType
    } else if str_eq(code, "request_timeout") {
        ErrorKind::RequestTimeout
    } else if str_eq(code, "restricted_action") {
        ErrorKind::ChannelActionRestricted
    } else if str_eq(code, "no_channel") {
        ErrorKind::NoChannel
    } else if str_eq(code, "name_taken") {
        ErrorKind::ChannelNameTaken
    } else if str_eq(code, "not_in_channel") {
        ErrorKind::NotInChannel
    } else if str_eq(code, "is_archived") {
        ErrorKind::ChannelIsArchived
    } else if str_eq(code, "already_archived") {
        ErrorKind::ChannelIsArchived
    } else if str_eq(code, "cant_archive_general") {
        ErrorKind::CannotArchiveGeneralChannel
    } else if str_eq(code, "cant_invite_self") {
        ErrorKind::CannotInviteSelfToChannel
    } else if str_eq(code, "already_in_channel") {
        ErrorKind::UserAlreadyMemberOfChannel
    } else if str_eq(code, "cant_invite") {
        ErrorKind::CannotInviteUserToChannel
    } else if str_eq(code, "too_many_users") {
        ErrorKind::TooManyUsersInvitedAtOnce
    } else if str_eq(code, "last_ra_channel") {
        ErrorKind::CannotArchiveLastRestrictedActionChannel
    } else if str_eq(code, "channel_not_found") {
        ErrorKind::ChannelNotFound
    } else if str_eq(code, "cant_leave_general") {
        ErrorKind::CannotLeaveGeneralChannel
    } else if str_eq(code, "invalid_timestamp") {
        ErrorKind::InvalidTimestamp
    } else if str_eq(code, "too_long") {
        ErrorKind::ChannelPurposeOrTopicTooLong
    } else if str_eq(code, "not_archived") {
        ErrorKind::ChannelNotArchived
    } else if str_eq(code, "message_not_found") {
        ErrorKind::MessageNotFound
    } else if str_eq(code, "cant_delete_message") {
        ErrorKind::UserCannotDeleteMessage
    } else if str_eq(code, "compliance_exports_prevent_deletion") {
        ErrorKind::ComplianceExportsPreventDeletion
    } else if str_eq(code, "msg_too_long") {
        ErrorKind::MessageTooLong
    } else if str_eq(code, "no_text") {
        ErrorKind::MessageHasNoText
    } else if str_eq(code, "too_many_attachments") {
        ErrorKind::MessageHasTooManyAttachments
    } else if str_eq(code, "rate_limited") {
        ErrorKind::RateLimited
    } else {
        ErrorKind::Unknown(error_string.clone())
    };
    Error { kind }
}

} // verus!

