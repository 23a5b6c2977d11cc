//! The message encoder: content rule, determinism, field order, the
//! form-urlencoded escaping, and the embedded attachments JSON checked
//! back through independent parsers.

use slack_client::Attachment;
use slack_client::AttachmentFields;
use slack_client::Color;
use slack_client::ErrorKind;
use slack_client::LinkNames;
use slack_client::Message;
use slack_client::MessageParseBehavior;
use slack_client::SlackUrl;
use slack_client::encode_message;
use slack_client::encode_message_text;

fn attachment_with_fallback(fallback: &str, ts: u32) -> Attachment {
    Attachment {
        fallback: fallback.to_string(),
        color: None,
        pretext: None,
        author_name: None,
        author_link: None,
        author_icon: None,
        title: None,
        title_link: None,
        text: None,
        fields: None,
        image_url: None,
        thumb_url: None,
        footer: None,
        footer_icon: None,
        ts,
        mrkdwn_in: None,
    }
}

#[test]
fn encode_text_only_yields_exactly_one_field() {
    let m = Message { text: Some("hello".to_string()), ..Default::default() };
    assert_eq!(encode_message(&m).unwrap(), "text=hello");
}

#[test]
fn encode_empty_message_fails_with_no_message_content() {
    let m = Message { text: None, attachments: None, ..Default::default() };
    let e = encode_message(&m).unwrap_err();
    assert_eq!(e.kind, ErrorKind::NoMessageContent);
}

#[test]
fn encode_succeeds_the_instant_text_is_populated() {
    let m = Message { text: Some(String::new()), ..Default::default() };
    assert_eq!(encode_message(&m).unwrap(), "text=");
}

#[test]
fn encode_succeeds_the_instant_attachments_are_populated() {
    let m = Message { attachments: Some(vec![]), ..Default::default() };
    assert_eq!(encode_message(&m).unwrap(), "attachments=%5B%5D");
}

#[test]
fn encode_is_deterministic() {
    let m = Message {
        text: Some("same text & more".to_string()),
        attachments: Some(vec![attachment_with_fallback("fb", 7)]),
        parse: Some(MessageParseBehavior::Full),
        link_names: Some(LinkNames::Enable),
        unfurl_links: Some(true),
        mrkdwn: Some(false),
        ..Default::default()
    };
    let first = encode_message(&m).unwrap();
    let second = encode_message(&m).unwrap();
    assert_eq!(first.as_bytes(), second.as_bytes());
}

#[test]
fn encode_fields_come_in_declaration_order() {
    let m = Message {
        text: Some("hi".to_string()),
        parse: Some(MessageParseBehavior::Full),
        link_names: Some(LinkNames::Enable),
        unfurl_links: Some(true),
        unfurl_media: Some(false),
        username: Some("bot".to_string()),
        as_user: Some(false),
        icon_emoji: Some(":tada:".to_string()),
        mrkdwn: Some(true),
        ..Default::default()
    };
    assert_eq!(
        encode_message(&m).unwrap(),
        "text=hi&parse=full&link_names=1&unfurl_links=true&unfurl_media=false\
         &username=bot&as_user=false&icon_emoji=%3Atada%3A&mrkdwn=true"
    );
}

#[test]
fn encode_escapes_ampersands_and_angles() {
    let m = Message { text: Some("this & < & >".to_string()), ..Default::default() };
    assert_eq!(encode_message(&m).unwrap(), "text=this+%26+%3C+%26+%3E");
}

#[test]
fn encode_escapes_a_link() {
    let m = Message { text: Some("<http://www.google.com>".to_string()), ..Default::default() };
    assert_eq!(
        encode_message(&m).unwrap(),
        "text=%3Chttp%3A%2F%2Fwww.google.com%3E"
    );
}

#[test]
fn encode_percent_encodes_unicode_bytewise() {
    let m = Message { text: Some("h\u{e9}llo".to_string()), ..Default::default() };
    assert_eq!(encode_message(&m).unwrap(), "text=h%C3%A9llo");
}

#[test]
fn encode_percent_encodes_emoji() {
    let m = Message { text: Some("\u{1F601}".to_string()), ..Default::default() };
    assert_eq!(encode_message(&m).unwrap(), "text=%F0%9F%98%81");
}

#[test]
fn encode_matches_the_form_urlencoded_reference() {
    let m = Message { text: Some("a b*c.d-e_f&g=h+i%j".to_string()), ..Default::default() };
    let mut reference = url::form_urlencoded::Serializer::new(String::new());
    reference.append_pair("text", "a b*c.d-e_f&g=h+i%j");
    assert_eq!(encode_message(&m).unwrap(), reference.finish());
}

#[test]
fn encode_icon_url_is_escaped() {
    let m = Message {
        text: Some("x".to_string()),
        icon_url: Some(SlackUrl::new("http://example.com/a.png".to_string()).unwrap()),
        ..Default::default()
    };
    assert_eq!(
        encode_message(&m).unwrap(),
        "text=x&icon_url=http%3A%2F%2Fexample.com%2Fa.png"
    );
}

#[test]
fn encode_minimal_attachment_has_exact_bytes() {
    let m = Message {
        attachments: Some(vec![attachment_with_fallback("x", 5)]),
        ..Default::default()
    };
    assert_eq!(
        encode_message(&m).unwrap(),
        "attachments=%5B%7B%22fallback%22%3A%22x%22%2C%22color%22%3Anull%2C%22pretext%22%3Anull%2C%22author_name%22%3Anull%2C%22author_link%22%3Anull%2C%22author_icon%22%3Anull%2C%22title%22%3Anull%2C%22title_link%22%3Anull%2C%22text%22%3Anull%2C%22fields%22%3Anull%2C%22image_url%22%3Anull%2C%22thumb_url%22%3Anull%2C%22footer%22%3Anull%2C%22footer_icon%22%3Anull%2C%22ts%22%3A5%2C%22mrkdwn_in%22%3Anull%7D%5D"
    );
}

#[test]
fn encode_attachments_json_parses_back() {
    let mut a = attachment_with_fallback("plain \"summary\"\n", 123456789);
    a.color = Some(Color::Hex("#36a64f".to_string()));
    a.author_name = Some("bot".to_string());
    a.title = Some("Title".to_string());
    a.title_link = Some(SlackUrl::new("http://example.com/t".to_string()).unwrap());
    a.text = Some("line1\nline2".to_string());
    a.fields = Some(vec![
        AttachmentFields { title: "T1".to_string(), value: "V1".to_string(), short: true },
        AttachmentFields { title: "T2".to_string(), value: "V2".to_string(), short: false },
    ]);
    a.mrkdwn_in = Some(vec!["text".to_string(), "pretext".to_string()]);
    let b = attachment_with_fallback("second", 42);
    let m = Message { attachments: Some(vec![a, b]), ..Default::default() };
    let body = encode_message(&m).unwrap();

    let pairs: Vec<(String, String)> = url::form_urlencoded::parse(body.as_bytes())
        .into_owned()
        .collect();
    assert_eq!(pairs.len(), 1);
    assert_eq!(pairs[0].0, "attachments");

    let v: serde_json::Value = serde_json::from_str(&pairs[0].1).unwrap();
    let arr = v.as_array().unwrap();
    assert_eq!(arr.len(), 2);
    assert_eq!(arr[0]["fallback"].as_str(), Some("plain \"summary\"\n"));
    assert_eq!(arr[0]["color"].as_str(), Some("#36a64f"));
    assert_eq!(arr[0]["author_name"].as_str(), Some("bot"));
    assert_eq!(arr[0]["title"].as_str(), Some("Title"));
    assert_eq!(arr[0]["title_link"].as_str(), Some("http://example.com/t"));
    assert_eq!(arr[0]["text"].as_str(), Some("line1\nline2"));
    assert_eq!(arr[0]["ts"].as_u64(), Some(123456789));
    let fields = arr[0]["fields"].as_array().unwrap();
    assert_eq!(fields.len(), 2);
    assert_eq!(fields[0]["title"].as_str(), Some("T1"));
    assert_eq!(fields[0]["value"].as_str(), Some("V1"));
    assert_eq!(fields[0]["short"].as_bool(), Some(true));
    assert_eq!(fields[1]["short"].as_bool(), Some(false));
    let mrkdwn_in = arr[0]["mrkdwn_in"].as_array().unwrap();
    assert_eq!(mrkdwn_in[0].as_str(), Some("text"));
    assert_eq!(mrkdwn_in[1].as_str(), Some("pretext"));
    assert!(arr[0]["pretext"].is_null());
    assert_eq!(arr[1]["fallback"].as_str(), Some("second"));
    assert_eq!(arr[1]["ts"].as_u64(), Some(42));
    assert!(arr[1]["color"].is_null());
    assert!(arr[1]["fields"].is_null());
}

#[test]
fn encode_text_and_attachments_together() {
    let m = Message {
        text: Some("hi".to_string()),
        attachments: Some(vec![attachment_with_fallback("fb", 1)]),
        ..Default::default()
    };
    assert_eq!(
        encode_message(&m).unwrap(),
        "text=hi&attachments=%5B%7B%22fallback%22%3A%22fb%22%2C%22color%22%3Anull%2C%22pretext%22%3Anull%2C%22author_name%22%3Anull%2C%22author_link%22%3Anull%2C%22author_icon%22%3Anull%2C%22title%22%3Anull%2C%22title_link%22%3Anull%2C%22text%22%3Anull%2C%22fields%22%3Anull%2C%22image_url%22%3Anull%2C%22thumb_url%22%3Anull%2C%22footer%22%3Anull%2C%22footer_icon%22%3Anull%2C%22ts%22%3A1%2C%22mrkdwn_in%22%3Anull%7D%5D"
    );
}

#[test]
fn parse_behavior_tokens() {
    assert_eq!(MessageParseBehavior::Full.simple_name(), "full");
    assert_eq!(MessageParseBehavior::NoParse.simple_name(), "none");
}

#[test]
fn link_names_tokens() {
    assert_eq!(LinkNames::Enable.simple_name(), "1");
    assert_eq!(LinkNames::Disable.simple_name(), "0");
}

#[test]
fn color_tokens() {
    assert_eq!(Color::Good.color_to_string(), "good");
    assert_eq!(Color::Warning.color_to_string(), "warning");
    assert_eq!(Color::Danger.color_to_string(), "danger");
    assert_eq!(Color::Hex("#123abc".to_string()).color_to_string(), "#123abc");
}

#[test]
fn message_text_hook_is_a_passthrough() {
    assert_eq!(encode_message_text("this & < & >").unwrap(), "this & < & >");
}
