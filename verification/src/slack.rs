//! The request side of the pipeline: identifier validation, composition
//! of the authenticated endpoint URL, and one request builder per
//! supported API method.  Every builder validates its identifiers
//! first — a fast client-side fail before any network round trip — then
//! composes the URL character-exactly as the contracts state, and runs
//! it through the URL parser once.  Transmitting the request and
//! reading the response body are the caller's concern.

use vstd::prelude::*;
use vstd::string::StrSliceExecFns;
use crate::base_types::ChannelId;
use crate::base_types::SlackUrl;
use crate::base_types::UserId;
use crate::base_types::spec_url_normalized;
use crate::base_types::spec_url_ok;
use crate::chat::encode_message;
use crate::chat::spec_encode_message;
use crate::errors::Error;
use crate::errors::ErrorKind;
use crate::strutil::chars_to_string;
use crate::strutil::push_chars;
use crate::types::Message;
use crate::wire::push_form_escaped;
use crate::wire::spec_bool_chars;
use crate::wire::spec_form_escape;

verus! {

/// Holds exactly of texts whose first character marks a channel id:
/// `C`, `D` or `G`.
pub open spec fn spec_valid_channel_id(id: Seq<char>) -> bool {
    id.len() > 0 && (id[0] == 'C' || id[0] == 'D' || id[0] == 'G')
}

/// Holds exactly of texts whose first character marks a user id: `U`.
pub open spec fn spec_valid_user_id(id: Seq<char>) -> bool {
    id.len() > 0 && id[0] == 'U'
}

/// Accepts exactly the identifiers whose first character is `C`, `D` or
/// `G`; the empty string and every other first character are rejected
/// with `InvalidChannelId`.  Advisory client-side validation only: the
/// service enforces the authoritative rule regardless.
pub fn validate_channel_id(channel: &ChannelId) -> (r: Result<(), Error>)
    ensures
        r is Ok <==> spec_valid_channel_id(channel@),
        r is Err ==> r->Err_0.kind == ErrorKind::InvalidChannelId,
{
    let s = channel.as_str();
    if s.unicode_len() > 0 {
        let c = s.get_char(0);
        if c == 'C' || c == 'D' || c == 'G' {
            return Ok(());
        }
    }
    Err(Error::from_kind(ErrorKind::InvalidChannelId))
}

/// Accepts exactly the identifiers whose first character is `U`; the
/// empty string and every other first character are rejected with
/// `InvalidUserId`.
pub fn validate_user_id(user: &UserId) -> (r: Result<(), Error>)
    ensures
        r is Ok <==> spec_valid_user_id(user@),
        r is Err ==> r->Err_0.kind == ErrorKind::InvalidUserId,
{
    let s = user.as_str();
    if s.unicode_len() > 0 {
        if s.get_char(0) == 'U' {
            return Ok(());
        }
    }
    Err(Error::from_kind(ErrorKind::InvalidUserId))
}

/// A fully composed request, ready for a transport to carry: the
/// validated URL, and the form-encoded body of a POST (`None` means a
/// plain GET).
#[derive(Debug, Clone, PartialEq, Eq)]
pub struct ApiRequest {
    /// The full request URL, token and query parameters included.
    pub url: SlackUrl,
    /// The `application/x-www-form-urlencoded` body of a POST.
    pub body: Option<String>,
}

/// The authenticated base URL of a method: the fixed service address,
/// the method name path segment, and the token query parameter.
pub open spec fn spec_api_url(token: Seq<char>, method: Seq<char>) -> Seq<char> {
    "https://slack.com/api/"@ + method + "?token="@ + spec_form_escape(token)
}

/// One appended query parameter, both sides form-urlencoded.
pub open spec fn spec_query_pair(name: Seq<char>, value: Seq<char>) -> Seq<char> {
    "&"@ + spec_form_escape(name) + "="@ + spec_form_escape(value)
}

/// The appended query parameters of a request, in order.
pub open spec fn spec_query_pairs(pairs: Seq<(Seq<char>, Seq<char>)>) -> Seq<char>
    decreases pairs.len(),
{
    if pairs.len() == 0 {
        Seq::empty()
    } else {
        spec_query_pairs(pairs.drop_last()) + spec_query_pair(pairs.last().0, pairs.last().1)
    }
}

/// The full URL of a method call with its query parameters.
pub open spec fn spec_method_url(
    token: Seq<char>,
    method: Seq<char>,
    pairs: Seq<(Seq<char>, Seq<char>)>,
) -> Seq<char> {
    spec_api_url(token, method) + spec_query_pairs(pairs)
}

proof fn lemma_query_pairs_one(p: (Seq<char>, Seq<char>))
    ensures
        spec_query_pairs(seq![p]) == spec_query_pair(p.0, p.1),
{
    assert(spec_query_pairs(Seq::<(Seq<char>, Seq<char>)>::empty()) == Seq::<char>::empty());
    assert(seq![p].drop_last() =~= Seq::<(Seq<char>, Seq<char>)>::empty());
    assert(spec_query_pairs(seq![p]) =~= spec_query_pair(p.0, p.1));
}

proof fn lemma_query_pairs_push(ps: Seq<(Seq<char>, Seq<char>)>, p: (Seq<char>, Seq<char>))
    ensures
        spec_query_pairs(ps.push(p)) == spec_query_pairs(ps) + spec_query_pair(p.0, p.1),
{
    assert(ps.push(p).drop_last() =~= ps);
    assert(ps.push(p).last() == p);
}

/// Appends one query parameter to a URL under construction.
fn add_query_pair(out: &mut Vec<char>, name: &str, value: &str)
    ensures
        final(out)@ == old(out)@ + spec_query_pair(name@, value@),
{
    push_chars(out, "&");
    push_form_escaped(out, name);
    push_chars(out, "=");
    push_form_escaped(out, value);
    proof {
        assert(out@ =~= old(out)@ + spec_query_pair(name@, value@));
    }
}

/// Runs a composed URL through the parser and wraps it into a request.
fn finish_request(url_text: Vec<char>, body: Option<String>) -> (r: Result<ApiRequest, Error>)
    ensures
        r is Ok <==> spec_url_ok(url_text@),
        r is Ok ==> r->Ok_0.url.wf() && r->Ok_0.url.spec_text() == spec_url_normalized(url_text@) && r->Ok_0.body
            == body,
        r is Err ==> r->Err_0.kind == ErrorKind::UrlParseError,
{
    match SlackUrl::new(chars_to_string(&url_text)) {
        Ok(url) => Ok(ApiRequest { url, body }),
        Err(e) => Err(e),
    }
}

/// The client core: it holds the read-only authentication token and
/// composes every request.  It holds no transport and no mutable state,
/// so independent calls need no synchronization.
pub struct Slack {
    access_token: String,
}

impl Slack {
    /// The authentication token this client composes requests with.
    pub closed spec fn spec_token(&self) -> Seq<char> {
        self.access_token@
    }

    /// A client for the given authentication token.
    pub fn new(access_token: &str) -> (s: Slack)
        ensures
            s.spec_token() == access_token@,
    {
        Slack { access_token: access_token.to_owned() }
    }

    /// Composes the authenticated URL of a method, with no parameters
    /// beyond the token, and runs it through the parser.
    pub fn api_url(&self, slack_method: &str) -> (r: Result<SlackUrl, Error>)
        ensures
            r is Ok <==> spec_url_ok(spec_api_url(self.spec_token(), slack_method@)),
            r is Ok ==> r->Ok_0.wf() && r->Ok_0.spec_text() == spec_url_normalized(spec_api_url(
                self.spec_token(),
                slack_method@,
            )),
            r is Err ==> r->Err_0.kind == ErrorKind::UrlParseError,
    {
        let url = self.begin_url(slack_method);
        SlackUrl::new(chars_to_string(&url))
    }

    /// The authenticated URL of a method, as text under construction.
    fn begin_url(&self, slack_method: &str) -> (r: Vec<char>)
        ensures
            r@ == spec_api_url(self.spec_token(), slack_method@),
    {
        let mut out: Vec<char> = Vec::new();
        push_chars(&mut out, "https://slack.com/api/");
        push_chars(&mut out, slack_method);
        push_chars(&mut out, "?token=");
        push_form_escaped(&mut out, self.access_token.as_str());
        proof {
            assert(out@ =~= spec_api_url(self.spec_token(), slack_method@));
        }
        out
    }
}

/// The URL of a `channels.create` call.
pub open spec fn spec_channels_create_url(token: Seq<char>, channel_name: Seq<char>) -> Seq<char> {
    spec_method_url(token, "channels.create"@, seq![("name"@, channel_name)])
}

/// The URL of a `channels.join` call.
pub open spec fn spec_channels_join_url(token: Seq<char>, channel_name: Seq<char>) -> Seq<char> {
    spec_method_url(token, "channels.join"@, seq![("name"@, channel_name)])
}

/// The URL of a `channels.archive` call.
pub open spec fn spec_channels_archive_url(token: Seq<char>, channel: Seq<char>) -> Seq<char> {
    spec_method_url(token, "channels.archive"@, seq![("channel"@, channel)])
}

/// The URL of a `channels.info` call.
pub open spec fn spec_channels_info_url(token: Seq<char>, channel: Seq<char>) -> Seq<char> {
    spec_method_url(token, "channels.info"@, seq![("channel"@, channel)])
}

/// The URL of a `channels.leave` call.
pub open spec fn spec_channels_leave_url(token: Seq<char>, channel: Seq<char>) -> Seq<char> {
    spec_method_url(token, "channels.leave"@, seq![("channel"@, channel)])
}

/// The URL of a `channels.unarchive` call.
pub open spec fn spec_channels_unarchive_url(token: Seq<char>, channel: Seq<char>) -> Seq<char> {
    spec_method_url(token, "channels.unarchive"@, seq![("channel"@, channel)])
}

/// The URL of a `channels.mark` call.
pub open spec fn spec_channels_mark_url(token: Seq<char>, channel: Seq<char>, timestamp: Seq<char>) -> Seq<char> {
    spec_method_url(token, "channels.mark"@, seq![("channel"@, channel), ("ts"@, timestamp)])
}

/// The URL of a `channels.rename` call.
pub open spec fn spec_channels_rename_url(token: Seq<char>, channel: Seq<char>, new_name: Seq<char>) -> Seq<char> {
    spec_method_url(token, "channels.rename"@, seq![("channel"@, channel), ("name"@, new_name)])
}

/// The URL of a `channels.setPurpose` call.
pub open spec fn spec_channels_set_purpose_url(token: Seq<char>, channel: Seq<char>, new_purpose: Seq<char>) -> Seq<char> {
    spec_method_url(token, "channels.setPurpose"@, seq![("channel"@, channel), ("purpose"@, new_purpose)])
}

/// The URL of a `channels.setTopic` call.
pub open spec fn spec_channels_set_topic_url(token: Seq<char>, channel: Seq<char>, topic: Seq<char>) -> Seq<char> {
    spec_method_url(token, "channels.setTopic"@, seq![("channel"@, channel), ("topic"@, topic)])
}

/// The URL of a `chat.meMessage` call.
pub open spec fn spec_chat_me_message_url(token: Seq<char>, channel: Seq<char>, message_text: Seq<char>) -> Seq<char> {
    spec_method_url(token, "chat.meMessage"@, seq![("channel"@, channel), ("text"@, message_text)])
}

/// The URL of a `channels.invite` call.
pub open spec fn spec_channels_invite_url(
    token: Seq<char>,
    channel: Seq<char>,
    user: Seq<char>,
) -> Seq<char> {
    spec_method_url(token, "channels.invite"@, seq![("channel"@, channel), ("user"@, user)])
}

/// The URL of a `channels.list` call.
pub open spec fn spec_channels_list_url(token: Seq<char>, exclude_archived: bool) -> Seq<char> {
    spec_method_url(
        token,
        "channels.list"@,
        seq![("exclude_archived"@, spec_bool_chars(exclude_archived))],
    )
}

/// The URL of a `chat.delete` call.
pub open spec fn spec_chat_delete_url(
    token: Seq<char>,
    channel: Seq<char>,
    timestamp: Seq<char>,
    as_user: Option<bool>,
) -> Seq<char> {
    spec_method_url(
        token,
        "chat.delete"@,
        seq![("channel"@, channel), ("ts"@, timestamp)] + (if as_user is Some {
            seq![("as_user"@, spec_bool_chars(as_user->0))]
        } else {
            Seq::empty()
        }),
    )
}

/// The URL of a `chat.postMessage` call.
pub open spec fn spec_chat_post_message_url(token: Seq<char>, channel: Seq<char>) -> Seq<char> {
    spec_method_url(token, "chat.postMessage"@, seq![("channel"@, channel)])
}

/// The view of a list of owned query-parameter pairs.
pub open spec fn spec_pairs_view(pairs: Seq<(String, String)>) -> Seq<(Seq<char>, Seq<char>)> {
    pairs.map(|i: int, p: (String, String)| (p.0@, p.1@))
}

/// The view of an optional borrowed text.
pub open spec fn spec_opt_text(o: Option<&str>) -> Option<Seq<char>> {
    match o {
        Some(s) => Some(s@),
        None => None,
    }
}

/// The URL of an `api.test` call: the caller-supplied arguments in
/// order, then the optional requested error code.
pub open spec fn spec_api_test_url(
    token: Seq<char>,
    arguments: Seq<(Seq<char>, Seq<char>)>,
    error: Option<Seq<char>>,
) -> Seq<char> {
    spec_method_url(token, "api.test"@, arguments + (if error is Some {
        seq![("error"@, error->0)]
    } else {
        Seq::empty()
    }))
}

impl Slack {

    /// Builds a `channels.create` request.
    pub fn channels_create_request(&self, channel_name: &str) -> (r: Result<ApiRequest, Error>)
        ensures
            r is Ok <==> spec_url_ok(spec_channels_create_url(self.spec_token(), channel_name@)),
            r is Ok ==> r->Ok_0.url.wf() && r->Ok_0.url.spec_text() == spec_url_normalized(spec_channels_create_url(
                self.spec_token(),
                channel_name@,
            )) && r->Ok_0.body is None,
            r is Err ==> r->Err_0.kind == ErrorKind::UrlParseError,
    {
        let mut url = self.begin_url("channels.create");
        add_query_pair(&mut url, "name", channel_name);
        proof {
            lemma_query_pairs_one(("name"@, channel_name@));
            assert(url@ =~= spec_channels_create_url(self.spec_token(), channel_name@));
        }
        finish_request(url, None)
    }

    /// Builds a `channels.join` request.
    pub fn channels_join_request(&self, channel_name: &str) -> (r: Result<ApiRequest, Error>)
        ensures
            r is Ok <==> spec_url_ok(spec_channels_join_url(self.spec_token(), channel_name@)),
            r is Ok ==> r->Ok_0.url.wf() && r->Ok_0.url.spec_text() == spec_url_normalized(spec_channels_join_url(
                self.spec_token(),
                channel_name@,
            )) && r->Ok_0.body is None,
            r is Err ==> r->Err_0.kind == ErrorKind::UrlParseError,
    {
        let mut url = self.begin_url("channels.join");
        add_query_pair(&mut url, "name", channel_name);
        proof {
            lemma_query_pairs_one(("name"@, channel_name@));
            assert(url@ =~= spec_channels_join_url(self.spec_token(), channel_name@));
        }
        finish_request(url, None)
    }

    /// Builds a `channels.archive` request: validates the channel id, then
    /// composes the URL with the channel as its query parameter.
    pub fn channels_archive_request(&self, channel: &ChannelId) -> (r: Result<ApiRequest, Error>)
        ensures
            !spec_valid_channel_id(channel@) ==> (r is Err && r->Err_0.kind
                == ErrorKind::InvalidChannelId),
            spec_valid_channel_id(channel@) ==> (r is Ok <==> spec_url_ok(spec_channels_archive_url(
                self.spec_token(),
                channel@,
            ))),
            spec_valid_channel_id(channel@) && r is Ok ==> r->Ok_0.url.wf()
                && r->Ok_0.url.spec_text() == spec_url_normalized(spec_channels_archive_url(self.spec_token(), channel@))
                && r->Ok_0.body is None,
            spec_valid_channel_id(channel@) && r is Err ==> r->Err_0.kind
                == ErrorKind::UrlParseError,
    {
        match validate_channel_id(channel) {
            Ok(()) => {},
            Err(e) => { return Err(e) },
        }
        let mut url = self.begin_url("channels.archive");
        add_query_pair(&mut url, "channel", channel.as_str());
        proof {
            lemma_query_pairs_one(("channel"@, channel@));
            assert(url@ =~= spec_channels_archive_url(self.spec_token(), channel@));
        }
        finish_request(url, None)
    }

    /// Builds a `channels.info` request: validates the channel id, then
    /// composes the URL with the channel as its query parameter.
    pub fn channels_info_request(&self, channel: &ChannelId) -> (r: Result<ApiRequest, Error>)
        ensures
            !spec_valid_channel_id(channel@) ==> (r is Err && r->Err_0.kind
                == ErrorKind::InvalidChannelId),
            spec_valid_channel_id(channel@) ==> (r is Ok <==> spec_url_ok(spec_channels_info_url(
                self.spec_token(),
                channel@,
            ))),
            spec_valid_channel_id(channel@) && r is Ok ==> r->Ok_0.url.wf()
                && r->Ok_0.url.spec_text() == spec_url_normalized(spec_channels_info_url(self.spec_token(), channel@))
                && r->Ok_0.body is None,
            spec_valid_channel_id(channel@) && r is Err ==> r->Err_0.kind
                == ErrorKind::UrlParseError,
    {
        match validate_channel_id(channel) {
            Ok(()) => {},
            Err(e) => { return Err(e) },
        }
        let mut url = self.begin_url("channels.info");
        add_query_pair(&mut url, "channel", channel.as_str());
        proof {
            lemma_query_pairs_one(("channel"@, channel@));
            assert(url@ =~= spec_channels_info_url(self.spec_token(), channel@));
        }
        finish_request(url, None)
    }

    /// Builds a `channels.leave` request: validates the channel id, then
    /// composes the URL with the channel as its query parameter.
    pub fn channels_leave_request(&self, channel: &ChannelId) -> (r: Result<ApiRequest, Error>)
        ensures
            !spec_valid_channel_id(channel@) ==> (r is Err && r->Err_0.kind
                == ErrorKind::InvalidChannelId),
            spec_valid_channel_id(channel@) ==> (r is Ok <==> spec_url_ok(spec_channels_leave_url(
                self.spec_token(),
                channel@,
            ))),
            spec_valid_channel_id(channel@) && r is Ok ==> r->Ok_0.url.wf()
                && r->Ok_0.url.spec_text() == spec_url_normalized(spec_channels_leave_url(self.spec_token(), channel@))
                && r->Ok_0.body is None,
            spec_valid_channel_id(channel@) && r is Err ==> r->Err_0.kind
                == ErrorKind::UrlParseError,
    {
        match validate_channel_id(channel) {
            Ok(()) => {},
            Err(e) => { return Err(e) },
        }
        let mut url = self.begin_url("channels.leave");
        add_query_pair(&mut url, "channel", channel.as_str());
        proof {
            lemma_query_pairs_one(("channel"@, channel@));
            assert(url@ =~= spec_channels_leave_url(self.spec_token(), channel@));
        }
        finish_request(url, None)
    }

    /// Builds a `channels.unarchive` request: validates the channel id, then
    /// composes the URL with the channel as its query parameter.
    pub fn channels_unarchive_request(&self, channel: &ChannelId) -> (r: Result<ApiRequest, Error>)
        ensures
            !spec_valid_channel_id(channel@) ==> (r is Err && r->Err_0.kind
                == ErrorKind::InvalidChannelId),
            spec_valid_channel_id(channel@) ==> (r is Ok <==> spec_url_ok(spec_channels_unarchive_url(
                self.spec_token(),
                channel@,
            ))),
            spec_valid_channel_id(channel@) && r is Ok ==> r->Ok_0.url.wf()
                && r->Ok_0.url.spec_text() == spec_url_normalized(spec_channels_unarchive_url(self.spec_token(), channel@))
                && r->Ok_0.body is None,
            spec_valid_channel_id(channel@) && r is Err ==> r->Err_0.kind
                == ErrorKind::UrlParseError,
    {
        match validate_channel_id(channel) {
            Ok(()) => {},
            Err(e) => { return Err(e) },
        }
        let mut url = self.begin_url("channels.unarchive");
        add_query_pair(&mut url, "channel", channel.as_str());
        proof {
            lemma_query_pairs_one(("channel"@, channel@));
            assert(url@ =~= spec_channels_unarchive_url(self.spec_token(), channel@));
        }
        finish_request(url, None)
    }

    /// Builds a `channels.mark` request: validates the channel id, then
    /// composes the URL with the channel and the `ts` parameter.
    pub fn channels_mark_request(&self, channel: &ChannelId, timestamp: &str) -> (r: Result<ApiRequest, Error>)
        ensures
            !spec_valid_channel_id(channel@) ==> (r is Err && r->Err_0.kind
                == ErrorKind::InvalidChannelId),
            spec_valid_channel_id(channel@) ==> (r is Ok <==> spec_url_ok(spec_channels_mark_url(
                self.spec_token(),
                channel@,
                timestamp@,
            ))),
            spec_valid_channel_id(channel@) && r is Ok ==> r->Ok_0.url.wf()
                && r->Ok_0.url.spec_text() == spec_url_normalized(spec_channels_mark_url(self.spec_token(), channel@, timestamp@))
                && r->Ok_0.body is None,
            spec_valid_channel_id(channel@) && r is Err ==> r->Err_0.kind
                == ErrorKind::UrlParseError,
    {
        match validate_channel_id(channel) {
            Ok(()) => {},
            Err(e) => { return Err(e) },
        }
        let mut url = self.begin_url("channels.mark");
        add_query_pair(&mut url, "channel", channel.as_str());
        add_query_pair(&mut url, "ts", timestamp);
        proof {
            let ps = seq![("channel"@, channel@), ("ts"@, timestamp@)];
            lemma_query_pairs_push(seq![("channel"@, channel@)], ("ts"@, timestamp@));
            assert(seq![("channel"@, channel@)].push(("ts"@, timestamp@)) =~= ps);
            lemma_query_pairs_one(("channel"@, channel@));
            assert(url@ =~= spec_channels_mark_url(self.spec_token(), channel@, timestamp@));
        }
        finish_request(url, None)
    }

    /// Builds a `channels.rename` request: validates the channel id, then
    /// composes the URL with the channel and the `name` parameter.
    pub fn channels_rename_request(&self, channel: &ChannelId, new_name: &str) -> (r: Result<ApiRequest, Error>)
        ensures
            !spec_valid_channel_id(channel@) ==> (r is Err && r->Err_0.kind
                == ErrorKind::InvalidChannelId),
            spec_valid_channel_id(channel@) ==> (r is Ok <==> spec_url_ok(spec_channels_rename_url(
                self.spec_token(),
                channel@,
                new_name@,
            ))),
            spec_valid_channel_id(channel@) && r is Ok ==> r->Ok_0.url.wf()
                && r->Ok_0.url.spec_text() == spec_url_normalized(spec_channels_rename_url(self.spec_token(), channel@, new_name@))
                && r->Ok_0.body is None,
            spec_valid_channel_id(channel@) && r is Err ==> r->Err_0.kind
                == ErrorKind::UrlParseError,
    {
        match validate_channel_id(channel) {
            Ok(()) => {},
            Err(e) => { return Err(e) },
        }
        let mut url = self.begin_url("channels.rename");
        add_query_pair(&mut url, "channel", channel.as_str());
        add_query_pair(&mut url, "name", new_name);
        proof {
            let ps = seq![("channel"@, channel@), ("name"@, new_name@)];
            lemma_query_pairs_push(seq![("channel"@, channel@)], ("name"@, new_name@));
            assert(seq![("channel"@, channel@)].push(("name"@, new_name@)) =~= ps);
            lemma_query_pairs_one(("channel"@, channel@));
            assert(url@ =~= spec_channels_rename_url(self.spec_token(), channel@, new_name@));
        }
        finish_request(url, None)
    }

    /// Builds a `channels.setPurpose` request: validates the channel id, then
    /// composes the URL with the channel and the `purpose` parameter.
    pub fn channels_set_purpose_request(&self, channel: &ChannelId, new_purpose: &str) -> (r: Result<ApiRequest, Error>)
        ensures
            !spec_valid_channel_id(channel@) ==> (r is Err && r->Err_0.kind
                == ErrorKind::InvalidChannelId),
            spec_valid_channel_id(channel@) ==> (r is Ok <==> spec_url_ok(spec_channels_set_purpose_url(
                self.spec_token(),
                channel@,
                new_purpose@,
            ))),
            spec_valid_channel_id(channel@) && r is Ok ==> r->Ok_0.url.wf()
                && r->Ok_0.url.spec_text() == spec_url_normalized(spec_channels_set_purpose_url(self.spec_token(), channel@, new_purpose@))
                && r->Ok_0.body is None,
            spec_valid_channel_id(channel@) && r is Err ==> r->Err_0.kind
                == ErrorKind::UrlParseError,
    {
        match validate_channel_id(channel) {
            Ok(()) => {},
            Err(e) => { return Err(e) },
        }
        let mut url = self.begin_url("channels.setPurpose");
        add_query_pair(&mut url, "channel", channel.as_str());
        add_query_pair(&mut url, "purpose", new_purpose);
        proof {
            let ps = seq![("channel"@, channel@), ("purpose"@, new_purpose@)];
            lemma_query_pairs_push(seq![("channel"@, channel@)], ("purpose"@, new_purpose@));
            assert(seq![("channel"@, channel@)].push(("purpose"@, new_purpose@)) =~= ps);
            lemma_query_pairs_one(("channel"@, channel@));
            assert(url@ =~= spec_channels_set_purpose_url(self.spec_token(), channel@, new_purpose@));
        }
        finish_request(url, None)
    }

    /// Builds a `channels.setTopic` request: validates the channel id, then
    /// composes the URL with the channel and the `topic` parameter.
    pub fn channels_set_topic_request(&self, channel: &ChannelId, topic: &str) -> (r: Result<ApiRequest, Error>)
        ensures
            !spec_valid_channel_id(channel@) ==> (r is Err && r->Err_0.kind
                == ErrorKind::InvalidChannelId),
            spec_valid_channel_id(channel@) ==> (r is Ok <==> spec_url_ok(spec_channels_set_topic_url(
                self.spec_token(),
                channel@,
                topic@,
            ))),
            spec_valid_channel_id(channel@) && r is Ok ==> r->Ok_0.url.wf()
                && r->Ok_0.url.spec_text() == spec_url_normalized(spec_channels_set_topic_url(self.spec_token(), channel@, topic@))
                && r->Ok_0.body is None,
            spec_valid_channel_id(channel@) && r is Err ==> r->Err_0.kind
                == ErrorKind::UrlParseError,
    {
        match validate_channel_id(channel) {
            Ok(()) => {},
            Err(e) => { return Err(e) },
        }
        let mut url = self.begin_url("channels.setTopic");
        add_query_pair(&mut url, "channel", channel.as_str());
        add_query_pair(&mut url, "topic", topic);
        proof {
            let ps = seq![("channel"@, channel@), ("topic"@, topic@)];
            lemma_query_pairs_push(seq![("channel"@, channel@)], ("topic"@, topic@));
            assert(seq![("channel"@, channel@)].push(("topic"@, topic@)) =~= ps);
            lemma_query_pairs_one(("channel"@, channel@));
            assert(url@ =~= spec_channels_set_topic_url(self.spec_token(), channel@, topic@));
        }
        finish_request(url, None)
    }

    /// Builds a `chat.meMessage` request: validates the channel id, then
    /// composes the URL with the channel and the `text` parameter.
    pub fn chat_me_message_request(&self, channel: &ChannelId, message_text: &str) -> (r: Result<ApiRequest, Error>)
        ensures
            !spec_valid_channel_id(channel@) ==> (r is Err && r->Err_0.kind
                == ErrorKind::InvalidChannelId),
            spec_valid_channel_id(channel@) ==> (r is Ok <==> spec_url_ok(spec_chat_me_message_url(
                self.spec_token(),
                channel@,
                message_text@,
            ))),
            spec_valid_channel_id(channel@) && r is Ok ==> r->Ok_0.url.wf()
                && r->Ok_0.url.spec_text() == spec_url_normalized(spec_chat_me_message_url(self.spec_token(), channel@, message_text@))
                && r->Ok_0.body is None,
            spec_valid_channel_id(channel@) && r is Err ==> r->Err_0.kind
                == ErrorKind::UrlParseError,
    {
        match validate_channel_id(channel) {
            Ok(()) => {},
            Err(e) => { return Err(e) },
        }
        let mut url = self.begin_url("chat.meMessage");
        add_query_pair(&mut url, "channel", channel.as_str());
        add_query_pair(&mut url, "text", message_text);
        proof {
            let ps = seq![("channel"@, channel@), ("text"@, message_text@)];
            lemma_query_pairs_push(seq![("channel"@, channel@)], ("text"@, message_text@));
            assert(seq![("channel"@, channel@)].push(("text"@, message_text@)) =~= ps);
            lemma_query_pairs_one(("channel"@, channel@));
            assert(url@ =~= spec_chat_me_message_url(self.spec_token(), channel@, message_text@));
        }
        finish_request(url, None)
    }

    /// Builds a `channels.invite` request: validates the user id, then
    /// the channel id, then composes the URL with both.
    pub fn channels_invite_request(&self, channel: &ChannelId, user: &UserId) -> (r: Result<
        ApiRequest,
        Error,
    >)
        ensures
            !spec_valid_user_id(user@) ==> (r is Err && r->Err_0.kind
                == ErrorKind::InvalidUserId),
            spec_valid_user_id(user@) && !spec_valid_channel_id(channel@) ==> (r is Err
                && r->Err_0.kind == ErrorKind::InvalidChannelId),
            spec_valid_user_id(user@) && spec_valid_channel_id(channel@) ==> (r is Ok
                <==> spec_url_ok(spec_channels_invite_url(self.spec_token(), channel@, user@))),
            spec_valid_user_id(user@) && spec_valid_channel_id(channel@) && r is Ok
                ==> r->Ok_0.url.wf() && r->Ok_0.url.spec_text() == spec_url_normalized(spec_channels_invite_url(
                self.spec_token(),
                channel@,
                user@,
            )) && r->Ok_0.body is None,
            spec_valid_user_id(user@) && spec_valid_channel_id(channel@) && r is Err
                ==> r->Err_0.kind == ErrorKind::UrlParseError,
    {
        match validate_user_id(user) {
            Ok(()) => {},
            Err(e) => { return Err(e) },
        }
        match validate_channel_id(channel) {
            Ok(()) => {},
            Err(e) => { return Err(e) },
        }
        let mut url = self.begin_url("channels.invite");
        add_query_pair(&mut url, "channel", channel.as_str());
        add_query_pair(&mut url, "user", user.as_str());
        proof {
            let ps = seq![("channel"@, channel@), ("user"@, user@)];
            lemma_query_pairs_push(seq![("channel"@, channel@)], ("user"@, user@));
            assert(seq![("channel"@, channel@)].push(("user"@, user@)) =~= ps);
            lemma_query_pairs_one(("channel"@, channel@));
            assert(url@ =~= spec_channels_invite_url(self.spec_token(), channel@, user@));
        }
        finish_request(url, None)
    }

    /// Builds a `channels.list` request.
    pub fn channels_list_request(&self, exclude_archived: bool) -> (r: Result<ApiRequest, Error>)
        ensures
            r is Ok <==> spec_url_ok(spec_channels_list_url(self.spec_token(), exclude_archived)),
            r is Ok ==> r->Ok_0.url.wf() && r->Ok_0.url.spec_text() == spec_url_normalized(spec_channels_list_url(
                self.spec_token(),
                exclude_archived,
            )) && r->Ok_0.body is None,
            r is Err ==> r->Err_0.kind == ErrorKind::UrlParseError,
    {
        let mut url = self.begin_url("channels.list");
        let rendered = if exclude_archived { "true" } else { "false" };
        add_query_pair(&mut url, "exclude_archived", rendered);
        proof {
            lemma_query_pairs_one(("exclude_archived"@, spec_bool_chars(exclude_archived)));
            assert(url@ =~= spec_channels_list_url(self.spec_token(), exclude_archived));
        }
        finish_request(url, None)
    }

    /// Builds a `chat.delete` request: validates the channel id, then
    /// composes the URL with the channel, the message timestamp, and
    /// the optional as-user directive.
    pub fn chat_delete_request(
        &self,
        channel: &ChannelId,
        message_timestamp: &str,
        as_user: Option<bool>,
    ) -> (r: Result<ApiRequest, Error>)
        ensures
            !spec_valid_channel_id(channel@) ==> (r is Err && r->Err_0.kind
                == ErrorKind::InvalidChannelId),
            spec_valid_channel_id(channel@) ==> (r is Ok <==> spec_url_ok(spec_chat_delete_url(
                self.spec_token(),
                channel@,
                message_timestamp@,
                as_user,
            ))),
            spec_valid_channel_id(channel@) && r is Ok ==> r->Ok_0.url.wf()
                && r->Ok_0.url.spec_text() == spec_url_normalized(spec_chat_delete_url(
                self.spec_token(),
                channel@,
                message_timestamp@,
                as_user,
            )) && r->Ok_0.body is None,
            spec_valid_channel_id(channel@) && r is Err ==> r->Err_0.kind
                == ErrorKind::UrlParseError,
    {
        match validate_channel_id(channel) {
            Ok(()) => {},
            Err(e) => { return Err(e) },
        }
        let mut url = self.begin_url("chat.delete");
        add_query_pair(&mut url, "channel", channel.as_str());
        add_query_pair(&mut url, "ts", message_timestamp);
        proof {
            let ps = seq![("channel"@, channel@), ("ts"@, message_timestamp@)];
            lemma_query_pairs_push(seq![("channel"@, channel@)], ("ts"@, message_timestamp@));
            assert(seq![("channel"@, channel@)].push(("ts"@, message_timestamp@)) =~= ps);
            lemma_query_pairs_one(("channel"@, channel@));
            assert(url@ =~= spec_api_url(self.spec_token(), "chat.delete"@)
                + spec_query_pairs(ps));
        }
        if let Some(b) = as_user {
            let rendered = if b { "true" } else { "false" };
            add_query_pair(&mut url, "as_user", rendered);
            proof {
                let ps = seq![("channel"@, channel@), ("ts"@, message_timestamp@)];
                let ext = ps + seq![("as_user"@, spec_bool_chars(b))];
                lemma_query_pairs_push(ps, ("as_user"@, spec_bool_chars(b)));
                assert(ps.push(("as_user"@, spec_bool_chars(b))) =~= ext);
                assert(url@ =~= spec_chat_delete_url(
                    self.spec_token(),
                    channel@,
                    message_timestamp@,
                    as_user,
                ));
            }
        } else {
            proof {
                let ps = seq![("channel"@, channel@), ("ts"@, message_timestamp@)];
                assert(ps + Seq::<(Seq<char>, Seq<char>)>::empty() =~= ps);
                assert(url@ =~= spec_chat_delete_url(
                    self.spec_token(),
                    channel@,
                    message_timestamp@,
                    as_user,
                ));
            }
        }
        finish_request(url, None)
    }

    /// Builds a `chat.postMessage` request: validates the channel id,
    /// composes and parses the URL, then encodes the message into the
    /// POST body.
    pub fn chat_post_message_request(&self, channel: &ChannelId, message: &Message) -> (r:
        Result<ApiRequest, Error>)
        ensures
            !spec_valid_channel_id(channel@) ==> (r is Err && r->Err_0.kind
                == ErrorKind::InvalidChannelId),
            spec_valid_channel_id(channel@) && !spec_url_ok(spec_chat_post_message_url(
                self.spec_token(),
                channel@,
            )) ==> (r is Err && r->Err_0.kind == ErrorKind::UrlParseError),
            spec_valid_channel_id(channel@) && spec_url_ok(spec_chat_post_message_url(
                self.spec_token(),
                channel@,
            )) && message.text is None && message.attachments is None ==> (r is Err
                && r->Err_0.kind == ErrorKind::NoMessageContent),
            spec_valid_channel_id(channel@) && spec_url_ok(spec_chat_post_message_url(
                self.spec_token(),
                channel@,
            )) && !(message.text is None && message.attachments is None) ==> (r is Ok
                && r->Ok_0.url.wf() && r->Ok_0.url.spec_text() == spec_url_normalized(spec_chat_post_message_url(
                self.spec_token(),
                channel@,
            )) && r->Ok_0.body is Some && r->Ok_0.body->0@ == spec_encode_message(*message)),
    {
        match validate_channel_id(channel) {
            Ok(()) => {},
            Err(e) => { return Err(e) },
        }
        let mut url = self.begin_url("chat.postMessage");
        add_query_pair(&mut url, "channel", channel.as_str());
        proof {
            lemma_query_pairs_one(("channel"@, channel@));
            assert(url@ =~= spec_chat_post_message_url(self.spec_token(), channel@));
        }
        let parsed = match SlackUrl::new(chars_to_string(&url)) {
            Ok(u) => u,
            Err(e) => { return Err(e) },
        };
        let message_string = match encode_message(message) {
            Ok(s) => s,
            Err(e) => { return Err(e) },
        };
        Ok(ApiRequest { url: parsed, body: Some(message_string) })
    }

    /// Builds an `api.test` request: the caller-supplied arguments are
    /// appended in order, then the optional requested error code.
    pub fn api_test_request(&self, arguments: &Vec<(String, String)>, error: Option<&str>) -> (r:
        Result<ApiRequest, Error>)
        ensures
            r is Ok <==> spec_url_ok(spec_api_test_url(
                self.spec_token(),
                spec_pairs_view(arguments@),
                spec_opt_text(error),
            )),
            r is Ok ==> r->Ok_0.url.wf() && r->Ok_0.url.spec_text() == spec_url_normalized(spec_api_test_url(
                self.spec_token(),
                spec_pairs_view(arguments@),
                spec_opt_text(error),
            )) && r->Ok_0.body is None,
            r is Err ==> r->Err_0.kind == ErrorKind::UrlParseError,
    {
        let ghost gargs: Seq<(Seq<char>, Seq<char>)> = spec_pairs_view(arguments@);
        let mut url = self.begin_url("api.test");
        let ghost base: Seq<char> = url@;
        proof {
            assert(gargs.take(0) =~= Seq::<(Seq<char>, Seq<char>)>::empty());
            assert(url@ =~= base + spec_query_pairs(gargs.take(0)));
        }
        let mut i: usize = 0;
        while i < arguments.len()
            invariant
                i <= arguments@.len(),
                gargs == spec_pairs_view(arguments@),
                url@ == base + spec_query_pairs(gargs.take(i as int)),
            decreases arguments@.len() - i,
        {
            let pair = &arguments[i];
            add_query_pair(&mut url, pair.0.as_str(), pair.1.as_str());
            proof {
                assert(gargs.take(i as int + 1).drop_last() =~= gargs.take(i as int));
                assert(gargs.take(i as int + 1).last() == (
                    arguments@[i as int].0@,
                    arguments@[i as int].1@,
                ));
                assert(url@ =~= base + spec_query_pairs(gargs.take(i as int + 1)));
            }
            i += 1;
        }
        proof {
            assert(gargs.take(arguments@.len() as int) =~= gargs);
        }
        if let Some(e) = error {
            add_query_pair(&mut url, "error", e);
            proof {
                let ext = gargs + seq![("error"@, e@)];
                lemma_query_pairs_push(gargs, ("error"@, e@));
                assert(gargs.push(("error"@, e@)) =~= ext);
                assert(url@ =~= spec_api_test_url(
                    self.spec_token(),
                    gargs,
                    spec_opt_text(error),
                ));
            }
        } else {
            proof {
                assert(gargs + Seq::<(Seq<char>, Seq<char>)>::empty() =~= gargs);
                assert(url@ =~= spec_api_test_url(
                    self.spec_token(),
                    gargs,
                    spec_opt_text(error),
                ));
            }
        }
        finish_request(url, None)
    }
}

} // verus!
