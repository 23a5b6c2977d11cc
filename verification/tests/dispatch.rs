//! The request/response pipeline: identifier validation, request
//! building with exact URLs, and response decoding with the success
//! flag and the error classifier applied.

use slack_client::ErrorKind;
use slack_client::Message;
use slack_client::SlackUrl;
use slack_client::decode::api_test_response;
use slack_client::decode::channels_archive_response;
use slack_client::decode::channels_info_response;
use slack_client::decode::channels_list_response;
use slack_client::decode::channels_rename_response;
use slack_client::decode::chat_post_message_response;
use slack_client::decode::required_channel;
use slack_client::decode::response_outcome;
use slack_client::slack::Slack;
use slack_client::validate_channel_id;
use slack_client::validate_user_id;

#[test]
fn channel_id_accepts_exactly_c_d_g_prefixes() {
    for c in ' '..='~' {
        let id = c.to_string();
        let accepted = validate_channel_id(&id).is_ok();
        assert_eq!(accepted, c == 'C' || c == 'D' || c == 'G', "prefix {:?}", c);
    }
}

#[test]
fn channel_id_rejects_the_empty_string() {
    let e = validate_channel_id(&String::new()).unwrap_err();
    assert_eq!(e.kind, ErrorKind::InvalidChannelId);
}

#[test]
fn channel_id_checks_only_the_first_character() {
    assert!(validate_channel_id(&"C272LM3HT".to_string()).is_ok());
    assert!(validate_channel_id(&"D024BE91L".to_string()).is_ok());
    assert!(validate_channel_id(&"G1234567".to_string()).is_ok());
    assert!(validate_channel_id(&"#general".to_string()).is_err());
    assert!(validate_channel_id(&"cC123".to_string()).is_err());
}

#[test]
fn user_id_accepts_exactly_u_prefixes() {
    for c in ' '..='~' {
        let id = c.to_string();
        let accepted = validate_user_id(&id).is_ok();
        assert_eq!(accepted, c == 'U', "prefix {:?}", c);
    }
}

#[test]
fn user_id_rejects_the_empty_string() {
    let e = validate_user_id(&String::new()).unwrap_err();
    assert_eq!(e.kind, ErrorKind::InvalidUserId);
}

#[test]
fn slack_url_rejects_text_the_parser_rejects() {
    let e = SlackUrl::new("not a url".to_string()).unwrap_err();
    assert_eq!(e.kind, ErrorKind::UrlParseError);
}

#[test]
fn slack_url_keeps_accepted_text() {
    let u = SlackUrl::new("https://slack.com/api/api.test?token=x".to_string()).unwrap();
    assert_eq!(u.as_str(), "https://slack.com/api/api.test?token=x");
}

#[test]
fn api_url_composes_base_method_and_token() {
    let slack = Slack::new("xoxb-token");
    let u = slack.api_url("api.test").unwrap();
    assert_eq!(u.as_str(), "https://slack.com/api/api.test?token=xoxb-token");
}

#[test]
fn api_url_escapes_the_token() {
    let slack = Slack::new("a b&c");
    let u = slack.api_url("api.test").unwrap();
    assert_eq!(u.as_str(), "https://slack.com/api/api.test?token=a+b%26c");
}

#[test]
fn archive_request_has_exact_url() {
    let slack = Slack::new("tok");
    let req = slack.channels_archive_request(&"C272LM3HT".to_string()).unwrap();
    assert_eq!(
        req.url.as_str(),
        "https://slack.com/api/channels.archive?token=tok&channel=C272LM3HT"
    );
    assert!(req.body.is_none());
}

#[test]
fn archive_request_rejects_a_bad_channel() {
    let slack = Slack::new("tok");
    let e = slack.channels_archive_request(&"xyz".to_string()).unwrap_err();
    assert_eq!(e.kind, ErrorKind::InvalidChannelId);
}

#[test]
fn rename_request_carries_both_parameters() {
    let slack = Slack::new("tok");
    let req = slack.channels_rename_request(&"C1".to_string(), "new name").unwrap();
    assert_eq!(
        req.url.as_str(),
        "https://slack.com/api/channels.rename?token=tok&channel=C1&name=new+name"
    );
}

#[test]
fn invite_request_validates_the_user_first() {
    let slack = Slack::new("tok");
    let e = slack.channels_invite_request(&"xyz".to_string(), &"abc".to_string()).unwrap_err();
    assert_eq!(e.kind, ErrorKind::InvalidUserId);
    let e = slack.channels_invite_request(&"xyz".to_string(), &"U1".to_string()).unwrap_err();
    assert_eq!(e.kind, ErrorKind::InvalidChannelId);
    let req = slack.channels_invite_request(&"C1".to_string(), &"U1".to_string()).unwrap();
    assert_eq!(
        req.url.as_str(),
        "https://slack.com/api/channels.invite?token=tok&channel=C1&user=U1"
    );
}

#[test]
fn list_request_renders_the_flag() {
    let slack = Slack::new("tok");
    let req = slack.channels_list_request(true).unwrap();
    assert_eq!(
        req.url.as_str(),
        "https://slack.com/api/channels.list?token=tok&exclude_archived=true"
    );
    let req = slack.channels_list_request(false).unwrap();
    assert_eq!(
        req.url.as_str(),
        "https://slack.com/api/channels.list?token=tok&exclude_archived=false"
    );
}

#[test]
fn delete_request_appends_the_optional_flag() {
    let slack = Slack::new("tok");
    let req = slack.chat_delete_request(&"C1".to_string(), "123.456", None).unwrap();
    assert_eq!(
        req.url.as_str(),
        "https://slack.com/api/chat.delete?token=tok&channel=C1&ts=123.456"
    );
    let req = slack.chat_delete_request(&"C1".to_string(), "123.456", Some(true)).unwrap();
    assert_eq!(
        req.url.as_str(),
        "https://slack.com/api/chat.delete?token=tok&channel=C1&ts=123.456&as_user=true"
    );
}

#[test]
fn api_test_request_keeps_argument_order() {
    let slack = Slack::new("tok");
    let arguments = vec![
        ("arg1".to_string(), "foo".to_string()),
        ("arg2".to_string(), "bar".to_string()),
    ];
    let req = slack.api_test_request(&arguments, Some("foo_error")).unwrap();
    assert_eq!(
        req.url.as_str(),
        "https://slack.com/api/api.test?token=tok&arg1=foo&arg2=bar&error=foo_error"
    );
    let req = slack.api_test_request(&arguments, None).unwrap();
    assert_eq!(
        req.url.as_str(),
        "https://slack.com/api/api.test?token=tok&arg1=foo&arg2=bar"
    );
}

#[test]
fn post_message_request_carries_the_encoded_body() {
    let slack = Slack::new("tok");
    let m = Message { text: Some("hello".to_string()), ..Default::default() };
    let req = slack.chat_post_message_request(&"C1".to_string(), &m).unwrap();
    assert_eq!(
        req.url.as_str(),
        "https://slack.com/api/chat.postMessage?token=tok&channel=C1"
    );
    assert_eq!(req.body.as_deref(), Some("text=hello"));
}

#[test]
fn post_message_request_rejects_an_empty_message() {
    let slack = Slack::new("tok");
    let m = Message::default();
    let e = slack.chat_post_message_request(&"C1".to_string(), &m).unwrap_err();
    assert_eq!(e.kind, ErrorKind::NoMessageContent);
}

#[test]
fn post_message_request_rejects_a_bad_channel_first() {
    let slack = Slack::new("tok");
    let m = Message::default();
    let e = slack.chat_post_message_request(&"#general".to_string(), &m).unwrap_err();
    assert_eq!(e.kind, ErrorKind::InvalidChannelId);
}

#[test]
fn outcome_is_success_exactly_on_a_true_flag() {
    assert!(response_outcome(Some(true), None).is_ok());
    assert!(response_outcome(Some(true), Some("ignored".to_string())).is_ok());
    assert!(response_outcome(Some(false), Some("rate_limited".to_string())).is_err());
    assert!(response_outcome(None, None).is_err());
}

#[test]
fn outcome_classifies_the_error_code() {
    let e = response_outcome(Some(false), Some("rate_limited".to_string())).unwrap_err();
    assert_eq!(e.kind, ErrorKind::RateLimited);
    let e = response_outcome(Some(false), Some("whatever_else".to_string())).unwrap_err();
    match e.kind {
        ErrorKind::Unknown(s) => assert_eq!(s, "whatever_else"),
        other => panic!("expected the unknown kind, got {:?}", other),
    }
}

#[test]
fn outcome_without_mandatory_fields_is_a_parse_error() {
    let e = response_outcome(None, None).unwrap_err();
    assert_eq!(e.kind, ErrorKind::JsonParseError);
    let e = response_outcome(Some(false), None).unwrap_err();
    assert_eq!(e.kind, ErrorKind::JsonParseError);
}

#[test]
fn dispatch_classifies_a_reported_failure() {
    let r = channels_info_response("{\"ok\": false, \"error\": \"channel_not_found\"}");
    assert_eq!(r.unwrap_err().kind, ErrorKind::ChannelNotFound);
}

#[test]
fn dispatch_decodes_a_reported_channel() {
    let body = "{\"ok\": true, \"channel\": {\
        \"id\": \"C024BE91L\", \"name\": \"fun\", \"created\": 1360782804,\
        \"creator\": \"U024BE7LH\", \"is_archived\": false, \"is_general\": false,\
        \"members\": [\"U024BE7LH\", \"U024BE7LA\"],\
        \"topic\": {\"value\": \"Fun times\", \"creator\": \"U024BE7LV\", \"last_set\": 1369677212},\
        \"is_member\": true, \"last_read\": 123.5, \"unread_count\": 3}}";
    let resp = channels_info_response(body).unwrap();
    assert!(resp.ok);
    let channel = required_channel(resp.channel).unwrap();
    assert_eq!(channel.id, "C024BE91L");
    assert_eq!(channel.name, "fun");
    assert_eq!(channel.created, 1360782804);
    assert_eq!(channel.creator, "U024BE7LH");
    assert!(!channel.is_archived);
    assert!(!channel.is_general);
    assert_eq!(channel.members.as_deref(), Some(&["U024BE7LH".to_string(), "U024BE7LA".to_string()][..]));
    let topic = channel.topic.unwrap();
    assert_eq!(topic.value, "Fun times");
    assert_eq!(topic.creator, "U024BE7LV");
    assert_eq!(topic.last_set, 1369677212);
    assert!(channel.purpose.is_none());
    assert_eq!(channel.is_member, Some(true));
    assert_eq!(channel.last_read.as_deref(), Some("123.5"));
    assert_eq!(channel.unread_count, Some(3));
    assert!(channel.unread_count_display.is_none());
}

#[test]
fn dispatch_success_without_the_owed_channel_is_a_parse_error() {
    let resp = channels_info_response("{\"ok\": true}").unwrap();
    let e = required_channel(resp.channel).unwrap_err();
    assert_eq!(e.kind, ErrorKind::JsonParseError);
}

#[test]
fn dispatch_rejects_a_body_that_is_not_json() {
    let e = channels_archive_response("not json at all").unwrap_err();
    assert_eq!(e.kind, ErrorKind::JsonParseError);
}

#[test]
fn dispatch_rejects_a_missing_flag() {
    let e = channels_archive_response("{}").unwrap_err();
    assert_eq!(e.kind, ErrorKind::JsonParseError);
}

#[test]
fn dispatch_rejects_a_mistyped_flag() {
    let e = channels_archive_response("{\"ok\": \"yes\"}").unwrap_err();
    assert_eq!(e.kind, ErrorKind::JsonParseError);
}

#[test]
fn dispatch_rejects_a_failure_without_a_code() {
    let e = channels_archive_response("{\"ok\": false}").unwrap_err();
    assert_eq!(e.kind, ErrorKind::JsonParseError);
}

#[test]
fn dispatch_keeps_the_warning() {
    let resp = channels_archive_response("{\"ok\": true, \"warning\": \"w\"}").unwrap();
    assert!(resp.ok);
    assert_eq!(resp.warning.as_deref(), Some("w"));
}

#[test]
fn dispatch_rejects_a_malformed_member_list() {
    let body = "{\"ok\": true, \"channel\": {\
        \"id\": \"C1\", \"name\": \"n\", \"created\": 1, \"creator\": \"U1\",\
        \"is_archived\": false, \"is_general\": true, \"members\": [17]}}";
    let e = channels_info_response(body).unwrap_err();
    assert_eq!(e.kind, ErrorKind::JsonParseError);
}

#[test]
fn list_response_decodes_every_channel() {
    let body = "{\"ok\": true, \"channels\": [\
        {\"id\": \"C1\", \"name\": \"general\", \"created\": 1, \"creator\": \"U1\",\
         \"is_archived\": false, \"is_general\": true},\
        {\"id\": \"C2\", \"name\": \"random\", \"created\": 2, \"creator\": \"U2\",\
         \"is_archived\": true, \"is_general\": false}]}";
    let resp = channels_list_response(body).unwrap();
    assert_eq!(resp.channels.len(), 2);
    assert_eq!(resp.channels[0].name, "general");
    assert!(resp.channels[0].is_general);
    assert_eq!(resp.channels[1].name, "random");
    assert!(resp.channels[1].is_archived);
}

#[test]
fn list_response_requires_the_channel_list() {
    let e = channels_list_response("{\"ok\": true}").unwrap_err();
    assert_eq!(e.kind, ErrorKind::JsonParseError);
}

#[test]
fn rename_response_decodes_the_limited_channel() {
    let body = "{\"ok\": true, \"channel\": {\
        \"id\": \"C1\", \"is_channel\": true, \"name\": \"renamed\", \"created\": 7}}";
    let resp = channels_rename_response(body).unwrap();
    let c = resp.channel.unwrap();
    assert_eq!(c.id, "C1");
    assert!(c.is_channel);
    assert_eq!(c.name, "renamed");
    assert_eq!(c.created, 7);
}

#[test]
fn api_test_response_echoes_the_arguments() {
    let resp = api_test_response("{\"ok\": true, \"args\": {\"arg1\": \"foo\"}}").unwrap();
    assert!(resp.ok);
    let args = resp.args.unwrap();
    assert_eq!(args["arg1"].as_str(), Some("foo"));
}

#[test]
fn api_test_response_reports_the_requested_error() {
    let e = api_test_response("{\"ok\": false, \"error\": \"foo_error\"}").unwrap_err();
    match e.kind {
        ErrorKind::Unknown(s) => assert_eq!(s, "foo_error"),
        other => panic!("expected the unknown kind, got {:?}", other),
    }
}

#[test]
fn post_message_response_keeps_the_timestamp_text() {
    let body = "{\"ok\": true, \"ts\": 123.5, \"channel\": \"C1\"}";
    let resp = chat_post_message_response(body).unwrap();
    assert_eq!(resp.ts.as_deref(), Some("123.5"));
    assert_eq!(resp.channel.as_deref(), Some("C1"));
    assert!(resp.message.is_none());
}

#[test]
fn transport_kinds_can_be_carried() {
    let http = slack_client::Error::from_kind(ErrorKind::HttpError);
    assert_eq!(http.kind, ErrorKind::HttpError);
    let io = slack_client::Error::from_kind(ErrorKind::IoError);
    assert_eq!(io.kind, ErrorKind::IoError);
}

#[test]
fn dispatch_treats_a_mistyped_warning_as_absent() {
    let resp = channels_archive_response("{\"ok\": true, \"warning\": 5}").unwrap();
    assert!(resp.ok);
    assert!(resp.warning.is_none());
}

#[test]
fn dispatch_rejects_a_failure_with_a_mistyped_code() {
    let e = channels_archive_response("{\"ok\": false, \"error\": 5}").unwrap_err();
    assert_eq!(e.kind, ErrorKind::JsonParseError);
}

#[test]
fn dispatch_treats_a_mistyped_scalar_as_absent() {
    let resp = chat_post_message_response("{\"ok\": true, \"ts\": \"not a number\"}").unwrap();
    assert!(resp.ts.is_none());
}

#[test]
fn slack_url_stores_the_normalized_serialization() {
    let u = SlackUrl::new("HTTP://Example.COM:80".to_string()).unwrap();
    assert_eq!(u.as_str(), "http://example.com/");
}
