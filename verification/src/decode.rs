//! Decoding of JSON response bodies into the typed response shapes.
//!
//! A body is parsed once, through the trusted envelope reader of
//! [`crate::json`], which ties the parse outcome, the mandatory success
//! flag and the error and warning strings to named functions of the
//! body text — so every decoder below states exactly when it succeeds
//! and which error it returns for every body.  The method-specific
//! payload is walked by verified code over the opaque parsed value.
//! Only the mandatory flag and error code decide the outcome: an
//! optional envelope or scalar field of another shape counts as absent,
//! while a present but malformed structured payload (a channel object
//! or list) is reported as a JSON parse error.  Callers observe either
//! a fully-typed success value or a typed error, never a mixture.

use vstd::prelude::*;
use crate::errors::Error;
use crate::errors::ErrorKind;
use crate::errors::from_api_error_string;
use crate::errors::spec_classify_known;
use crate::json::json_as_array;
use crate::json::json_as_bool;
use crate::json::json_as_string;
use crate::json::json_as_u64;
use crate::json::json_clone;
use crate::json::json_get;
use crate::json::json_is_number;
use crate::json::json_to_text;
use crate::json::read_envelope;
use crate::json::spec_body_parses;
use crate::json::spec_error_code;
use crate::json::spec_ok_flag;
use crate::json::spec_opt_string_view;
use crate::json::spec_warning;
use crate::types::ApiTestResponse;
use crate::types::Channel;
use crate::types::ChannelsArchiveResponse;
use crate::types::ChannelsCreateResponse;
use crate::types::ChannelsInfoResponse;
use crate::types::ChannelsInviteResponse;
use crate::types::ChannelsJoinResponse;
use crate::types::ChannelsLeaveResponse;
use crate::types::ChannelsListResponse;
use crate::types::ChannelsMarkResponse;
use crate::types::ChannelsRenameResponse;
use crate::types::ChannelsSetPurposeResponse;
use crate::types::ChannelsSetTopicResponse;
use crate::types::ChannelsUnarchiveResponse;
use crate::types::ChatDeleteResponse;
use crate::types::ChatMeMessageResponse;
use crate::types::ChatPostMessageResponse;
use crate::types::Purpose;
use crate::types::RenamedChannel;
use crate::types::Topic;

verus! {

/// What every decoder promises of a failure, over the body text: a body
/// the JSON decoder rejects yields the parse error; so does a parsed
/// body without the mandatory boolean flag, or one reporting failure
/// without the mandatory code string; and a reported failure with a
/// code yields exactly the classified kind, the unknown kind keeping
/// the code verbatim.
pub open spec fn spec_failure_contract(body: Seq<char>, e: Error) -> bool {
    &&& (!spec_body_parses(body) ==> e.kind == ErrorKind::JsonParseError)
    &&& ((spec_body_parses(body) && spec_ok_flag(body) is None) ==> e.kind
        == ErrorKind::JsonParseError)
    &&& ((spec_body_parses(body) && spec_ok_flag(body) == Some(false)) ==> (match spec_error_code(
        body,
    ) {
        Some(code) => match spec_classify_known(code) {
            Some(k) => e.kind == k,
            None => e.kind matches ErrorKind::Unknown(s) && s@ == code,
        },
        None => e.kind == ErrorKind::JsonParseError,
    }))
}

/// The outcome the service reported, over the two mandatory response
/// fields: success exactly when the flag is true; a false flag
/// classifies the mandatory error code; a response missing the flag, or
/// reporting failure without a code, is structurally invalid.
pub fn response_outcome(ok: Option<bool>, error: Option<String>) -> (r: Result<(), Error>)
    ensures
        r is Ok <==> ok == Some(true),
        ok is None ==> (r is Err && r->Err_0.kind == ErrorKind::JsonParseError),
        ok == Some(false) && error is None ==> (r is Err && r->Err_0.kind
            == ErrorKind::JsonParseError),
        ok == Some(false) && error is Some ==> (r is Err && (match spec_classify_known(
            error->0@,
        ) {
            Some(k) => r->Err_0.kind == k,
            None => r->Err_0.kind matches ErrorKind::Unknown(s) && s@ == error->0@,
        })),
{
    match ok {
        Some(true) => Ok(()),
        Some(false) => match error {
            Some(code) => Err(from_api_error_string(&code)),
            None => Err(Error::from_kind(ErrorKind::JsonParseError)),
        },
        None => Err(Error::from_kind(ErrorKind::JsonParseError)),
    }
}

/// Projects the payload a successful response owes its caller: present
/// exactly when the service sent it; a successful response without it
/// is structurally invalid.
pub fn required_channel(channel: Option<Channel>) -> (r: Result<Channel, Error>)
    ensures
        r is Ok <==> channel is Some,
        channel is Some ==> r == Ok::<Channel, Error>(channel->0),
        r is Err ==> r->Err_0.kind == ErrorKind::JsonParseError,
{
    match channel {
        Some(c) => Ok(c),
        None => Err(Error::from_kind(ErrorKind::JsonParseError)),
    }
}

/// An optional scalar string field of the payload; a field of another
/// shape counts as absent, so that it never decides the outcome.
fn lenient_string_field(v: &serde_json::Value, name: &str) -> (r: Option<String>) {
    match json_get(v, name) {
        None => None,
        Some(f) => json_as_string(f),
    }
}

/// An optional scalar boolean field, lenient in the same way.
fn lenient_bool_field(v: &serde_json::Value, name: &str) -> (r: Option<bool>) {
    match json_get(v, name) {
        None => None,
        Some(f) => json_as_bool(f),
    }
}

/// An optional numeric field kept as its literal text, so that no
/// precision is lost to a machine float; lenient in the same way.
fn lenient_number_text_field(v: &serde_json::Value, name: &str) -> (r: Option<String>) {
    match json_get(v, name) {
        None => None,
        Some(f) => if json_is_number(f) {
            Some(json_to_text(f))
        } else {
            None
        },
    }
}

/// An optional string field inside a structured payload: absent is
/// fine, present with another shape is structurally invalid.
fn opt_string_field(v: &serde_json::Value, name: &str) -> (r: Result<Option<String>, Error>)
    ensures
        r is Err ==> r->Err_0.kind == ErrorKind::JsonParseError,
{
    match json_get(v, name) {
        None => Ok(None),
        Some(f) => match json_as_string(f) {
            Some(s) => Ok(Some(s)),
            None => Err(Error::from_kind(ErrorKind::JsonParseError)),
        },
    }
}

/// An optional boolean field inside a structured payload, strict in the
/// same way.
fn opt_bool_field(v: &serde_json::Value, name: &str) -> (r: Result<Option<bool>, Error>)
    ensures
        r is Err ==> r->Err_0.kind == ErrorKind::JsonParseError,
{
    match json_get(v, name) {
        None => Ok(None),
        Some(f) => match json_as_bool(f) {
            Some(b) => Ok(Some(b)),
            None => Err(Error::from_kind(ErrorKind::JsonParseError)),
        },
    }
}

/// An optional unsigned 32-bit field inside a structured payload,
/// strict in the same way.
fn opt_u32_field(v: &serde_json::Value, name: &str) -> (r: Result<Option<u32>, Error>)
    ensures
        r is Err ==> r->Err_0.kind == ErrorKind::JsonParseError,
{
    match json_get(v, name) {
        None => Ok(None),
        Some(f) => match json_as_u64(f) {
            Some(n) => if n <= u32::MAX as u64 {
                Ok(Some(n as u32))
            } else {
                Err(Error::from_kind(ErrorKind::JsonParseError))
            },
            None => Err(Error::from_kind(ErrorKind::JsonParseError)),
        },
    }
}

/// An optional numeric field inside a structured payload, kept as its
/// literal text, strict in the same way.
fn opt_number_text_field(v: &serde_json::Value, name: &str) -> (r: Result<
    Option<String>,
    Error,
>)
    ensures
        r is Err ==> r->Err_0.kind == ErrorKind::JsonParseError,
{
    match json_get(v, name) {
        None => Ok(None),
        Some(f) => if json_is_number(f) {
            Ok(Some(json_to_text(f)))
        } else {
            Err(Error::from_kind(ErrorKind::JsonParseError))
        },
    }
}

/// A mandatory string field: absence is structurally invalid.
fn req_string_field(v: &serde_json::Value, name: &str) -> (r: Result<String, Error>)
    ensures
        r is Err ==> r->Err_0.kind == ErrorKind::JsonParseError,
{
    match opt_string_field(v, name) {
        Ok(Some(s)) => Ok(s),
        Ok(None) => Err(Error::from_kind(ErrorKind::JsonParseError)),
        Err(e) => Err(e),
    }
}

/// A mandatory boolean field.
fn req_bool_field(v: &serde_json::Value, name: &str) -> (r: Result<bool, Error>)
    ensures
        r is Err ==> r->Err_0.kind == ErrorKind::JsonParseError,
{
    match opt_bool_field(v, name) {
        Ok(Some(b)) => Ok(b),
        Ok(None) => Err(Error::from_kind(ErrorKind::JsonParseError)),
        Err(e) => Err(e),
    }
}

/// A mandatory unsigned 32-bit field.
fn req_u32_field(v: &serde_json::Value, name: &str) -> (r: Result<u32, Error>)
    ensures
        r is Err ==> r->Err_0.kind == ErrorKind::JsonParseError,
{
    match opt_u32_field(v, name) {
        Ok(Some(n)) => Ok(n),
        Ok(None) => Err(Error::from_kind(ErrorKind::JsonParseError)),
        Err(e) => Err(e),
    }
}

/// Decodes a channel topic sub-object.
fn decode_topic(v: &serde_json::Value) -> (r: Result<Topic, Error>)
    ensures
        r is Err ==> r->Err_0.kind == ErrorKind::JsonParseError,
{
    let value = match req_string_field(v, "value") {
        Ok(s) => s,
        Err(e) => { return Err(e) },
    };
    let creator = match req_string_field(v, "creator") {
        Ok(s) => s,
        Err(e) => { return Err(e) },
    };
    let last_set = match req_u32_field(v, "last_set") {
        Ok(n) => n,
        Err(e) => { return Err(e) },
    };
    Ok(Topic { value, creator, last_set })
}

/// Decodes a channel purpose sub-object.
fn decode_purpose(v: &serde_json::Value) -> (r: Result<Purpose, Error>)
    ensures
        r is Err ==> r->Err_0.kind == ErrorKind::JsonParseError,
{
    let value = match req_string_field(v, "value") {
        Ok(s) => s,
        Err(e) => { return Err(e) },
    };
    let creator = match req_string_field(v, "creator") {
        Ok(s) => s,
        Err(e) => { return Err(e) },
    };
    let last_set = match req_u32_field(v, "last_set") {
        Ok(n) => n,
        Err(e) => { return Err(e) },
    };
    Ok(Purpose { value, creator, last_set })
}

/// Decodes the optional member-id list of a channel.
fn decode_members(v: &serde_json::Value) -> (r: Result<Option<Vec<String>>, Error>)
    ensures
        r is Err ==> r->Err_0.kind == ErrorKind::JsonParseError,
{
    let field = match json_get(v, "members") {
        None => { return Ok(None) },
        Some(f) => f,
    };
    let items = match json_as_array(field) {
        Some(a) => a,
        None => { return Err(Error::from_kind(ErrorKind::JsonParseError)) },
    };
    let mut members: Vec<String> = Vec::new();
    let mut i: usize = 0;
    while i < items.len()
        decreases items@.len() - i,
    {
        match json_as_string(&items[i]) {
            Some(s) => members.push(s),
            None => { return Err(Error::from_kind(ErrorKind::JsonParseError)) },
        }
        i += 1;
    }
    Ok(Some(members))
}

/// Decodes a full channel object: the six mandatory fields must be
/// present with their documented shapes, the rest are optional.
pub fn decode_channel(v: &serde_json::Value) -> (r: Result<Channel, Error>)
    ensures
        r is Err ==> r->Err_0.kind == ErrorKind::JsonParseError,
{
    let id = match req_string_field(v, "id") {
        Ok(s) => s,
        Err(e) => { return Err(e) },
    };
    let name = match req_string_field(v, "name") {
        Ok(s) => s,
        Err(e) => { return Err(e) },
    };
    let created = match req_u32_field(v, "created") {
        Ok(n) => n,
        Err(e) => { return Err(e) },
    };
    let creator = match req_string_field(v, "creator") {
        Ok(s) => s,
        Err(e) => { return Err(e) },
    };
    let is_archived = match req_bool_field(v, "is_archived") {
        Ok(b) => b,
        Err(e) => { return Err(e) },
    };
    let is_general = match req_bool_field(v, "is_general") {
        Ok(b) => b,
        Err(e) => { return Err(e) },
    };
    let members = match decode_members(v) {
        Ok(m) => m,
        Err(e) => { return Err(e) },
    };
    let topic = match json_get(v, "topic") {
        None => None,
        Some(t) => match decode_topic(t) {
            Ok(t) => Some(t),
            Err(e) => { return Err(e) },
        },
    };
    let purpose = match json_get(v, "purpose") {
        None => None,
        Some(p) => match decode_purpose(p) {
            Ok(p) => Some(p),
            Err(e) => { return Err(e) },
        },
    };
    let is_member = match opt_bool_field(v, "is_member") {
        Ok(b) => b,
        Err(e) => { return Err(e) },
    };
    let last_read = match opt_number_text_field(v, "last_read") {
        Ok(t) => t,
        Err(e) => { return Err(e) },
    };
    let unread_count = match opt_u32_field(v, "unread_count") {
        Ok(n) => n,
        Err(e) => { return Err(e) },
    };
    let unread_count_display = match opt_u32_field(v, "unread_count_display") {
        Ok(n) => n,
        Err(e) => { return Err(e) },
    };
    Ok(
        Channel {
            id,
            name,
            created,
            creator,
            is_archived,
            is_general,
            members,
            topic,
            purpose,
            is_member,
            last_read,
            unread_count,
            unread_count_display,
        },
    )
}

/// Decodes the limited channel object of a rename response.
fn decode_renamed_channel(v: &serde_json::Value) -> (r: Result<RenamedChannel, Error>)
    ensures
        r is Err ==> r->Err_0.kind == ErrorKind::JsonParseError,
{
    let id = match req_string_field(v, "id") {
        Ok(s) => s,
        Err(e) => { return Err(e) },
    };
    let is_channel = match req_bool_field(v, "is_channel") {
        Ok(b) => b,
        Err(e) => { return Err(e) },
    };
    let name = match req_string_field(v, "name") {
        Ok(s) => s,
        Err(e) => { return Err(e) },
    };
    let created = match req_u32_field(v, "created") {
        Ok(n) => n,
        Err(e) => { return Err(e) },
    };
    Ok(RenamedChannel { id, is_channel, name, created })
}

/// Decodes an optional channel payload field.
fn opt_channel_field(v: &serde_json::Value, name: &str) -> (r: Result<Option<Channel>, Error>)
    ensures
        r is Err ==> r->Err_0.kind == ErrorKind::JsonParseError,
{
    match json_get(v, name) {
        None => Ok(None),
        Some(c) => match decode_channel(c) {
            Ok(c) => Ok(Some(c)),
            Err(e) => Err(e),
        },
    }
}

/// Parses a response body and applies the mandatory envelope: success
/// exactly when the body parses and its flag is true, in which case the
/// parsed value and the envelope strings are handed back; every failure
/// is classified as [`spec_failure_contract`] states.
fn parsed_success_response(body: &str) -> (r: Result<
    (serde_json::Value, Option<String>, Option<String>),
    Error,
>)
    ensures
        r is Ok <==> (spec_body_parses(body@) && spec_ok_flag(body@) == Some(true)),
        r is Err ==> spec_failure_contract(body@, r->Err_0),
        r is Ok ==> spec_opt_string_view(r->Ok_0.1) == spec_error_code(body@)
            && spec_opt_string_view(r->Ok_0.2) == spec_warning(body@),
{
    let (v, ok, error, warning) = match read_envelope(body) {
        Some(t) => t,
        None => { return Err(Error::from_kind(ErrorKind::JsonParseError)) },
    };
    match response_outcome(ok, error.clone()) {
        Ok(()) => Ok((v, error, warning)),
        Err(e) => Err(e),
    }
}

/// Decodes a connectivity-test response body: success exactly when the
/// body parses with a true flag; the echoed arguments stay an opaque
/// JSON payload.
pub fn api_test_response(body: &str) -> (r: Result<ApiTestResponse, Error>)
    ensures
        r is Ok <==> (spec_body_parses(body@) && spec_ok_flag(body@) == Some(true)),
        r is Err ==> spec_failure_contract(body@, r->Err_0),
        r is Ok ==> r->Ok_0.ok && spec_opt_string_view(r->Ok_0.error) == spec_error_code(body@)
            && spec_opt_string_view(r->Ok_0.warning) == spec_warning(body@),
{
    let (v, error, warning) = match parsed_success_response(body) {
        Ok(t) => t,
        Err(e) => { return Err(e) },
    };
    let args = match json_get(&v, "args") {
        None => None,
        Some(a) => Some(json_clone(a)),
    };
    Ok(ApiTestResponse { ok: true, error, warning, args })
}

/// Decodes a channel-archive response body: success exactly when the
/// body parses with a true flag.
pub fn channels_archive_response(body: &str) -> (r: Result<ChannelsArchiveResponse, Error>)
    ensures
        r is Ok <==> (spec_body_parses(body@) && spec_ok_flag(body@) == Some(true)),
        r is Err ==> spec_failure_contract(body@, r->Err_0),
        r is Ok ==> r->Ok_0.ok && spec_opt_string_view(r->Ok_0.error) == spec_error_code(body@)
            && spec_opt_string_view(r->Ok_0.warning) == spec_warning(body@),
{
    let (_v, error, warning) = match parsed_success_response(body) {
        Ok(t) => t,
        Err(e) => { return Err(e) },
    };
    Ok(ChannelsArchiveResponse { ok: true, error, warning })
}

/// Decodes a channel-creation response body: on a parsed body with a true
/// flag, the only possible failure is a malformed channel payload,
/// reported as a JSON parse error.
pub fn channels_create_response(body: &str) -> (r: Result<ChannelsCreateResponse, Error>)
    ensures
        r is Ok ==> spec_body_parses(body@) && spec_ok_flag(body@) == Some(true),
        spec_body_parses(body@) && spec_ok_flag(body@) == Some(true) ==> (r is Ok || (r is Err
            && r->Err_0.kind == ErrorKind::JsonParseError)),
        r is Err ==> spec_failure_contract(body@, r->Err_0),
        r is Ok ==> r->Ok_0.ok && spec_opt_string_view(r->Ok_0.error) == spec_error_code(body@)
            && spec_opt_string_view(r->Ok_0.warning) == spec_warning(body@),
{
    let (v, error, warning) = match parsed_success_response(body) {
        Ok(t) => t,
        Err(e) => { return Err(e) },
    };
    let channel = match opt_channel_field(&v, "channel") {
        Ok(c) => c,
        Err(e) => { return Err(e) },
    };
    Ok(ChannelsCreateResponse { ok: true, error, warning, channel })
}

/// Decodes a channel-info response body: on a parsed body with a true
/// flag, the only possible failure is a malformed channel payload,
/// reported as a JSON parse error.
pub fn channels_info_response(body: &str) -> (r: Result<ChannelsInfoResponse, Error>)
    ensures
        r is Ok ==> spec_body_parses(body@) && spec_ok_flag(body@) == Some(true),
        spec_body_parses(body@) && spec_ok_flag(body@) == Some(true) ==> (r is Ok || (r is Err
            && r->Err_0.kind == ErrorKind::JsonParseError)),
        r is Err ==> spec_failure_contract(body@, r->Err_0),
        r is Ok ==> r->Ok_0.ok && spec_opt_string_view(r->Ok_0.error) == spec_error_code(body@)
            && spec_opt_string_view(r->Ok_0.warning) == spec_warning(body@),
{
    let (v, error, warning) = match parsed_success_response(body) {
        Ok(t) => t,
        Err(e) => { return Err(e) },
    };
    let channel = match opt_channel_field(&v, "channel") {
        Ok(c) => c,
        Err(e) => { return Err(e) },
    };
    Ok(ChannelsInfoResponse { ok: true, error, warning, channel })
}

/// Decodes a channel-invite response body: on a parsed body with a true
/// flag, the only possible failure is a malformed channel payload,
/// reported as a JSON parse error.
pub fn channels_invite_response(body: &str) -> (r: Result<ChannelsInviteResponse, Error>)
    ensures
        r is Ok ==> spec_body_parses(body@) && spec_ok_flag(body@) == Some(true),
        spec_body_parses(body@) && spec_ok_flag(body@) == Some(true) ==> (r is Ok || (r is Err
            && r->Err_0.kind == ErrorKind::JsonParseError)),
        r is Err ==> spec_failure_contract(body@, r->Err_0),
        r is Ok ==> r->Ok_0.ok && spec_opt_string_view(r->Ok_0.error) == spec_error_code(body@)
            && spec_opt_string_view(r->Ok_0.warning) == spec_warning(body@),
{
    let (v, error, warning) = match parsed_success_response(body) {
        Ok(t) => t,
        Err(e) => { return Err(e) },
    };
    let channel = match opt_channel_field(&v, "channel") {
        Ok(c) => c,
        Err(e) => { return Err(e) },
    };
    Ok(ChannelsInviteResponse { ok: true, error, warning, channel })
}

/// Decodes a channel-join response body: on a parsed body with a true
/// flag, the only possible failure is a malformed channel payload,
/// reported as a JSON parse error.
pub fn channels_join_response(body: &str) -> (r: Result<ChannelsJoinResponse, Error>)
    ensures
        r is Ok ==> spec_body_parses(body@) && spec_ok_flag(body@) == Some(true),
        spec_body_parses(body@) && spec_ok_flag(body@) == Some(true) ==> (r is Ok || (r is Err
            && r->Err_0.kind == ErrorKind::JsonParseError)),
        r is Err ==> spec_failure_contract(body@, r->Err_0),
        r is Ok ==> r->Ok_0.ok && spec_opt_string_view(r->Ok_0.error) == spec_error_code(body@)
            && spec_opt_string_view(r->Ok_0.warning) == spec_warning(body@),
{
    let (v, error, warning) = match parsed_success_response(body) {
        Ok(t) => t,
        Err(e) => { return Err(e) },
    };
    let already_in_channel = lenient_bool_field(&v, "already_in_channel");
    let channel = match opt_channel_field(&v, "channel") {
        Ok(c) => c,
        Err(e) => { return Err(e) },
    };
    Ok(ChannelsJoinResponse { ok: true, error, warning, already_in_channel, channel })
}

/// Decodes a channel-leave response body: success exactly when the
/// body parses with a true flag.
pub fn channels_leave_response(body: &str) -> (r: Result<ChannelsLeaveResponse, Error>)
    ensures
        r is Ok <==> (spec_body_parses(body@) && spec_ok_flag(body@) == Some(true)),
        r is Err ==> spec_failure_contract(body@, r->Err_0),
        r is Ok ==> r->Ok_0.ok && spec_opt_string_view(r->Ok_0.error) == spec_error_code(body@)
            && spec_opt_string_view(r->Ok_0.warning) == spec_warning(body@),
{
    let (v, error, warning) = match parsed_success_response(body) {
        Ok(t) => t,
        Err(e) => { return Err(e) },
    };
    let not_in_channel = lenient_bool_field(&v, "not_in_channel");
    Ok(ChannelsLeaveResponse { ok: true, error, warning, not_in_channel })
}

/// Decodes a channel-list response body: the channel list is mandatory
/// on success, so on a parsed body with a true flag the only possible
/// failure is a missing or malformed list, reported as a JSON parse
/// error.
pub fn channels_list_response(body: &str) -> (r: Result<ChannelsListResponse, Error>)
    ensures
        r is Ok ==> spec_body_parses(body@) && spec_ok_flag(body@) == Some(true),
        spec_body_parses(body@) && spec_ok_flag(body@) == Some(true) ==> (r is Ok || (r is Err
            && r->Err_0.kind == ErrorKind::JsonParseError)),
        r is Err ==> spec_failure_contract(body@, r->Err_0),
        r is Ok ==> r->Ok_0.ok && spec_opt_string_view(r->Ok_0.error) == spec_error_code(body@)
            && spec_opt_string_view(r->Ok_0.warning) == spec_warning(body@),
{
    let (v, error, warning) = match parsed_success_response(body) {
        Ok(t) => t,
        Err(e) => { return Err(e) },
    };
    let field = match json_get(&v, "channels") {
        Some(f) => f,
        None => { return Err(Error::from_kind(ErrorKind::JsonParseError)) },
    };
    let items = match json_as_array(field) {
        Some(a) => a,
        None => { return Err(Error::from_kind(ErrorKind::JsonParseError)) },
    };
    let mut channels: Vec<Channel> = Vec::new();
    let mut i: usize = 0;
    while i < items.len()
        invariant
            spec_body_parses(body@),
            spec_ok_flag(body@) == Some(true),
        decreases items@.len() - i,
    {
        match decode_channel(&items[i]) {
            Ok(c) => channels.push(c),
            Err(e) => { return Err(e) },
        }
        i += 1;
    }
    Ok(ChannelsListResponse { ok: true, error, warning, channels })
}

/// Decodes a channel-mark response body: success exactly when the body
/// parses with a true flag.
pub fn channels_mark_response(body: &str) -> (r: Result<ChannelsMarkResponse, Error>)
    ensures
        r is Ok <==> (spec_body_parses(body@) && spec_ok_flag(body@) == Some(true)),
        r is Err ==> spec_failure_contract(body@, r->Err_0),
        r is Ok ==> r->Ok_0.ok && spec_opt_string_view(r->Ok_0.error) == spec_error_code(body@)
            && spec_opt_string_view(r->Ok_0.warning) == spec_warning(body@),
{
    let (_v, error, warning) = match parsed_success_response(body) {
        Ok(t) => t,
        Err(e) => { return Err(e) },
    };
    Ok(ChannelsMarkResponse { ok: true, error, warning })
}

/// Decodes a channel-rename response body: on a parsed body with a
/// true flag, the only possible failure is a malformed renamed-channel
/// payload, reported as a JSON parse error.
pub fn channels_rename_response(body: &str) -> (r: Result<ChannelsRenameResponse, Error>)
    ensures
        r is Ok ==> spec_body_parses(body@) && spec_ok_flag(body@) == Some(true),
        spec_body_parses(body@) && spec_ok_flag(body@) == Some(true) ==> (r is Ok || (r is Err
            && r->Err_0.kind == ErrorKind::JsonParseError)),
        r is Err ==> spec_failure_contract(body@, r->Err_0),
        r is Ok ==> r->Ok_0.ok && spec_opt_string_view(r->Ok_0.error) == spec_error_code(body@)
            && spec_opt_string_view(r->Ok_0.warning) == spec_warning(body@),
{
    let (v, error, warning) = match parsed_success_response(body) {
        Ok(t) => t,
        Err(e) => { return Err(e) },
    };
    let channel = match json_get(&v, "channel") {
        None => None,
        Some(c) => match decode_renamed_channel(c) {
            Ok(c) => Some(c),
            Err(e) => { return Err(e) },
        },
    };
    Ok(ChannelsRenameResponse { ok: true, error, warning, channel })
}

/// Decodes a set-purpose response body: success exactly when the body
/// parses with a true flag.
pub fn channels_set_purpose_response(body: &str) -> (r: Result<ChannelsSetPurposeResponse, Error>)
    ensures
        r is Ok <==> (spec_body_parses(body@) && spec_ok_flag(body@) == Some(true)),
        r is Err ==> spec_failure_contract(body@, r->Err_0),
        r is Ok ==> r->Ok_0.ok && spec_opt_string_view(r->Ok_0.error) == spec_error_code(body@)
            && spec_opt_string_view(r->Ok_0.warning) == spec_warning(body@),
{
    let (v, error, warning) = match parsed_success_response(body) {
        Ok(t) => t,
        Err(e) => { return Err(e) },
    };
    let purpose = lenient_string_field(&v, "purpose");
    Ok(ChannelsSetPurposeResponse { ok: true, error, warning, purpose })
}

/// Decodes a set-topic response body: success exactly when the body
/// parses with a true flag.
pub fn channels_set_topic_response(body: &str) -> (r: Result<ChannelsSetTopicResponse, Error>)
    ensures
        r is Ok <==> (spec_body_parses(body@) && spec_ok_flag(body@) == Some(true)),
        r is Err ==> spec_failure_contract(body@, r->Err_0),
        r is Ok ==> r->Ok_0.ok && spec_opt_string_view(r->Ok_0.error) == spec_error_code(body@)
            && spec_opt_string_view(r->Ok_0.warning) == spec_warning(body@),
{
    let (v, error, warning) = match parsed_success_response(body) {
        Ok(t) => t,
        Err(e) => { return Err(e) },
    };
    let topic = lenient_string_field(&v, "topic");
    Ok(ChannelsSetTopicResponse { ok: true, error, warning, topic })
}

/// Decodes a channel-unarchive response body: success exactly when the
/// body parses with a true flag.
pub fn channels_unarchive_response(body: &str) -> (r: Result<ChannelsUnarchiveResponse, Error>)
    ensures
        r is Ok <==> (spec_body_parses(body@) && spec_ok_flag(body@) == Some(true)),
        r is Err ==> spec_failure_contract(body@, r->Err_0),
        r is Ok ==> r->Ok_0.ok && spec_opt_string_view(r->Ok_0.error) == spec_error_code(body@)
            && spec_opt_string_view(r->Ok_0.warning) == spec_warning(body@),
{
    let (_v, error, warning) = match parsed_success_response(body) {
        Ok(t) => t,
        Err(e) => { return Err(e) },
    };
    Ok(ChannelsUnarchiveResponse { ok: true, error, warning })
}

/// Decodes a message-delete response body: success exactly when the
/// body parses with a true flag.  The timestamp is kept as its decimal
/// text.
pub fn chat_delete_response(body: &str) -> (r: Result<ChatDeleteResponse, Error>)
    ensures
        r is Ok <==> (spec_body_parses(body@) && spec_ok_flag(body@) == Some(true)),
        r is Err ==> spec_failure_contract(body@, r->Err_0),
        r is Ok ==> r->Ok_0.ok && spec_opt_string_view(r->Ok_0.error) == spec_error_code(body@)
            && spec_opt_string_view(r->Ok_0.warning) == spec_warning(body@),
{
    let (v, error, warning) = match parsed_success_response(body) {
        Ok(t) => t,
        Err(e) => { return Err(e) },
    };
    let channel = lenient_string_field(&v, "channel");
    let ts = lenient_number_text_field(&v, "ts");
    Ok(ChatDeleteResponse { ok: true, error, warning, channel, ts })
}

/// Decodes a me-message response body: success exactly when the body
/// parses with a true flag.
pub fn chat_me_message_response(body: &str) -> (r: Result<ChatMeMessageResponse, Error>)
    ensures
        r is Ok <==> (spec_body_parses(body@) && spec_ok_flag(body@) == Some(true)),
        r is Err ==> spec_failure_contract(body@, r->Err_0),
        r is Ok ==> r->Ok_0.ok && spec_opt_string_view(r->Ok_0.error) == spec_error_code(body@)
            && spec_opt_string_view(r->Ok_0.warning) == spec_warning(body@),
{
    let (v, error, warning) = match parsed_success_response(body) {
        Ok(t) => t,
        Err(e) => { return Err(e) },
    };
    let channel = lenient_string_field(&v, "channel");
    let ts = lenient_number_text_field(&v, "ts");
    Ok(ChatMeMessageResponse { ok: true, error, warning, channel, ts })
}

/// Decodes a message-post response body: success exactly when the body
/// parses with a true flag; the posted message stays an opaque JSON
/// payload.
pub fn chat_post_message_response(body: &str) -> (r: Result<ChatPostMessageResponse, Error>)
    ensures
        r is Ok <==> (spec_body_parses(body@) && spec_ok_flag(body@) == Some(true)),
        r is Err ==> spec_failure_contract(body@, r->Err_0),
        r is Ok ==> r->Ok_0.ok && spec_opt_string_view(r->Ok_0.error) == spec_error_code(body@)
            && spec_opt_string_view(r->Ok_0.warning) == spec_warning(body@),
{
    let (v, error, warning) = match parsed_success_response(body) {
        Ok(t) => t,
        Err(e) => { return Err(e) },
    };
    let ts = lenient_number_text_field(&v, "ts");
    let channel = lenient_string_field(&v, "channel");
    let message = match json_get(&v, "message") {
        None => None,
        Some(m) => Some(json_clone(m)),
    };
    Ok(ChatPostMessageResponse { ok: true, error, warning, ts, channel, message })
}

} // verus!
