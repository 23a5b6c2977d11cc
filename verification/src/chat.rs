//! The message encoder: serializes a [`Message`] into the
//! `application/x-www-form-urlencoded` body that the message-posting
//! method expects.  The attachment sequence is embedded as a single
//! JSON-encoded `attachments` field — the service accepts nested
//! structure only inside that one field.  Field order is fixed: text,
//! attachments, then the scalar fields in declaration order, so that the
//! produced body is reproducible.

use vstd::prelude::*;
use crate::base_types::SlackUrl;
use crate::errors::Error;
use crate::errors::ErrorKind;
use crate::strutil::chars_to_string;
use crate::strutil::push_chars;
use crate::types::Attachment;
use crate::types::AttachmentFields;
use crate::types::Color;
use crate::types::LinkNames;
use crate::types::Message;
use crate::types::MessageParseBehavior;
use crate::wire::push_bool;
use crate::wire::push_dec_u32;
use crate::wire::push_form_escaped;
use crate::wire::push_json_string;
use crate::wire::spec_bool_chars;
use crate::wire::spec_dec;
use crate::wire::spec_form_escape;
use crate::wire::spec_json_string;

verus! {

impl LinkNames {
    /// The wire token of this directive.
    pub open spec fn spec_simple_name(&self) -> Seq<char> {
        match *self {
            LinkNames::Enable => "1"@,
            LinkNames::Disable => "0"@,
        }
    }

    /// Renders the directive to its fixed wire token.
    pub fn simple_name(&self) -> (r: &str)
        ensures
            r@ == self.spec_simple_name(),
    {
        match *self {
            LinkNames::Enable => "1",
            LinkNames::Disable => "0",
        }
    }
}

impl MessageParseBehavior {
    /// The wire token of this behavior.
    pub open spec fn spec_simple_name(&self) -> Seq<char> {
        match *self {
            MessageParseBehavior::Full => "full"@,
            MessageParseBehavior::NoParse => "none"@,
        }
    }

    /// Renders the behavior to its fixed lowercase wire token.
    pub fn simple_name(&self) -> (r: &str)
        ensures
            r@ == self.spec_simple_name(),
    {
        match *self {
            MessageParseBehavior::Full => "full",
            MessageParseBehavior::NoParse => "none",
        }
    }
}

impl Color {
    /// The wire text of this color: the fixed token of a named color,
    /// or the literal hex code.
    pub open spec fn spec_color_chars(&self) -> Seq<char> {
        match *self {
            Color::Good => "good"@,
            Color::Warning => "warning"@,
            Color::Danger => "danger"@,
            Color::Hex(s) => s@,
        }
    }

    /// Renders the color to its wire text.
    pub fn color_to_string(&self) -> (r: &str)
        ensures
            r@ == self.spec_color_chars(),
    {
        match self {
            Color::Good => "good",
            Color::Warning => "warning",
            Color::Danger => "danger",
            Color::Hex(s) => s.as_str(),
        }
    }
}

/// Text-escaping policy for message text.  Entity-encoding of literal
/// `&`, `<` and `>` is deliberately left to the caller; this hook
/// applies no transformation, so the result is always the input
/// unchanged.
pub fn encode_message_text(text: &str) -> (r: Result<String, Error>)
    ensures
        r is Ok,
        r->Ok_0@ == text@,
{
    Ok(text.to_owned())
}

/// Comma-joined concatenation of already-rendered items.
pub open spec fn spec_comma_join(items: Seq<Seq<char>>) -> Seq<char>
    decreases items.len(),
{
    if items.len() == 0 {
        Seq::empty()
    } else if items.len() == 1 {
        items[0]
    } else {
        spec_comma_join(items.drop_last()) + ","@ + items.last()
    }
}

/// The JSON object of one row of an attachment's field table.
pub open spec fn spec_attachment_fields_json(f: AttachmentFields) -> Seq<char> {
    "{\"title\":"@ + spec_json_string(f.title@) + ",\"value\":"@ + spec_json_string(f.value@)
        + ",\"short\":"@ + spec_bool_chars(f.short) + "}"@
}

/// An optional string field of the attachment object: the label (a
/// leading comma, the quoted name and a colon) followed by the JSON
/// string of the value, or by `null` when the field is absent — every
/// attachment field is written out.
pub open spec fn spec_opt_str_part(label: Seq<char>, v: Option<String>) -> Seq<char> {
    label + (if v is Some {
        spec_json_string(v->0@)
    } else {
        "null"@
    })
}

/// As [`spec_opt_str_part`], for a URL-valued field.
pub open spec fn spec_opt_url_part(label: Seq<char>, v: Option<SlackUrl>) -> Seq<char> {
    label + (if v is Some {
        spec_json_string(v->0.spec_text())
    } else {
        "null"@
    })
}

/// The color field of the attachment object: the wire token of a
/// present color, `null` otherwise.
pub open spec fn spec_color_part(v: Option<Color>) -> Seq<char> {
    ",\"color\":"@ + (if v is Some {
        spec_json_string(v->0.spec_color_chars())
    } else {
        "null"@
    })
}

/// The field-table array of the attachment object: the rendered rows
/// of a present table, `null` otherwise.
pub open spec fn spec_fields_part(v: Option<Vec<AttachmentFields>>) -> Seq<char> {
    ",\"fields\":"@ + (if v is Some {
        "["@ + spec_comma_join(
            v->0@.map(|i: int, f: AttachmentFields| spec_attachment_fields_json(f)),
        ) + "]"@
    } else {
        "null"@
    })
}

/// The markdown-fields array of the attachment object: the quoted
/// names of a present list, `null` otherwise.
pub open spec fn spec_mrkdwn_in_part(v: Option<Vec<String>>) -> Seq<char> {
    ",\"mrkdwn_in\":"@ + (if v is Some {
        "["@ + spec_comma_join(
            v->0@.map(|i: int, s: String| spec_json_string(s@)),
        ) + "]"@
    } else {
        "null"@
    })
}

/// The JSON object of one attachment: every field written out in
/// declaration order, an absent optional field as `null` — as the
/// source system's serializer wrote it.
#[verifier::opaque]
pub open spec fn spec_attachment_json(a: Attachment) -> Seq<char> {
    "{\"fallback\":"@ + spec_json_string(a.fallback@) + spec_color_part(a.color)
        + spec_opt_str_part(",\"pretext\":"@, a.pretext) + spec_opt_str_part(
        ",\"author_name\":"@,
        a.author_name,
    ) + spec_opt_url_part(",\"author_link\":"@, a.author_link) + spec_opt_url_part(
        ",\"author_icon\":"@,
        a.author_icon,
    ) + spec_opt_str_part(",\"title\":"@, a.title) + spec_opt_url_part(
        ",\"title_link\":"@,
        a.title_link,
    ) + spec_opt_str_part(",\"text\":"@, a.text) + spec_fields_part(a.fields)
        + spec_opt_url_part(",\"image_url\":"@, a.image_url) + spec_opt_url_part(
        ",\"thumb_url\":"@,
        a.thumb_url,
    ) + spec_opt_str_part(",\"footer\":"@, a.footer) + spec_opt_url_part(
        ",\"footer_icon\":"@,
        a.footer_icon,
    ) + ",\"ts\":"@ + spec_dec(a.ts as int) + spec_mrkdwn_in_part(a.mrkdwn_in) + "}"@
}

/// The JSON array holding the attachment sequence.
#[verifier::opaque]
pub open spec fn spec_attachments_json(atts: Seq<Attachment>) -> Seq<char> {
    "["@ + spec_comma_join(atts.map(|i: int, a: Attachment| spec_attachment_json(a))) + "]"@
}

fn push_attachment_fields_json(out: &mut Vec<char>, f: &AttachmentFields)
    ensures
        final(out)@ == old(out)@ + spec_attachment_fields_json(*f),
{
    push_chars(out, "{\"title\":");
    push_json_string(out, f.title.as_str());
    push_chars(out, ",\"value\":");
    push_json_string(out, f.value.as_str());
    push_chars(out, ",\"short\":");
    push_bool(out, f.short);
    push_chars(out, "}");
    proof {
        assert(out@ =~= old(out)@ + spec_attachment_fields_json(*f));
    }
}

fn push_opt_str_part(out: &mut Vec<char>, label: &str, v: &Option<String>)
    ensures
        final(out)@ == old(out)@ + spec_opt_str_part(label@, *v),
{
    push_chars(out, label);
    match v {
        Some(s) => {
            push_json_string(out, s.as_str());
        },
        None => {
            push_chars(out, "null");
        },
    }
    proof {
        assert(out@ =~= old(out)@ + spec_opt_str_part(label@, *v));
    }
}

fn push_opt_url_part(out: &mut Vec<char>, label: &str, v: &Option<SlackUrl>)
    ensures
        final(out)@ == old(out)@ + spec_opt_url_part(label@, *v),
{
    push_chars(out, label);
    match v {
        Some(u) => {
            push_json_string(out, u.as_str());
        },
        None => {
            push_chars(out, "null");
        },
    }
    proof {
        assert(out@ =~= old(out)@ + spec_opt_url_part(label@, *v));
    }
}

fn push_color_part(out: &mut Vec<char>, v: &Option<Color>)
    ensures
        final(out)@ == old(out)@ + spec_color_part(*v),
{
    push_chars(out, ",\"color\":");
    match v {
        Some(c) => {
            push_json_string(out, c.color_to_string());
        },
        None => {
            push_chars(out, "null");
        },
    }
    proof {
        assert(out@ =~= old(out)@ + spec_color_part(*v));
    }
}

fn push_fields_part(out: &mut Vec<char>, v: &Option<Vec<AttachmentFields>>)
    ensures
        final(out)@ == old(out)@ + spec_fields_part(*v),
{
    push_chars(out, ",\"fields\":");
    match v {
        Some(fs) => {
            push_chars(out, "[");
            let ghost mid: Seq<char> = out@;
            let ghost items: Seq<Seq<char>> = fs@.map(
                |i: int, f: AttachmentFields| spec_attachment_fields_json(f),
            );
            let mut i: usize = 0;
            while i < fs.len()
                invariant
                    i <= fs@.len(),
                    items == fs@.map(
                        |j: int, f: AttachmentFields| spec_attachment_fields_json(f),
                    ),
                    out@ == mid + spec_comma_join(items.take(i as int)),
                decreases fs@.len() - i,
            {
                if i > 0 {
                    push_chars(out, ",");
                }
                push_attachment_fields_json(out, &fs[i]);
                proof {
                    assert(items.take(i as int + 1).drop_last() =~= items.take(i as int));
                    assert(items.take(i as int + 1).last() == spec_attachment_fields_json(
                        fs@[i as int],
                    ));
                    assert(out@ =~= mid + spec_comma_join(items.take(i as int + 1)));
                }
                i += 1;
            }
            push_chars(out, "]");
            proof {
                assert(items.take(fs@.len() as int) =~= items);
                assert(out@ =~= old(out)@ + spec_fields_part(*v));
            }
        },
        None => {
            push_chars(out, "null");
            proof {
                assert(out@ =~= old(out)@ + spec_fields_part(*v));
            }
        },
    }
}

fn push_mrkdwn_in_part(out: &mut Vec<char>, v: &Option<Vec<String>>)
    ensures
        final(out)@ == old(out)@ + spec_mrkdwn_in_part(*v),
{
    push_chars(out, ",\"mrkdwn_in\":");
    match v {
        Some(names) => {
            push_chars(out, "[");
            let ghost mid: Seq<char> = out@;
            let ghost items: Seq<Seq<char>> = names@.map(
                |i: int, s: String| spec_json_string(s@),
            );
            let mut i: usize = 0;
            while i < names.len()
                invariant
                    i <= names@.len(),
                    items == names@.map(|j: int, s: String| spec_json_string(s@)),
                    out@ == mid + spec_comma_join(items.take(i as int)),
                decreases names@.len() - i,
            {
                if i > 0 {
                    push_chars(out, ",");
                }
                push_json_string(out, names[i].as_str());
                proof {
                    assert(items.take(i as int + 1).drop_last() =~= items.take(i as int));
                    assert(items.take(i as int + 1).last() == spec_json_string(
                        names@[i as int]@,
                    ));
                    assert(out@ =~= mid + spec_comma_join(items.take(i as int + 1)));
                }
                i += 1;
            }
            push_chars(out, "]");
            proof {
                assert(items.take(names@.len() as int) =~= items);
                assert(out@ =~= old(out)@ + spec_mrkdwn_in_part(*v));
            }
        },
        None => {
            push_chars(out, "null");
            proof {
                assert(out@ =~= old(out)@ + spec_mrkdwn_in_part(*v));
            }
        },
    }
}

fn push_attachment_json(out: &mut Vec<char>, a: &Attachment)
    ensures
        final(out)@ == old(out)@ + spec_attachment_json(*a),
{
    let ghost out0: Seq<char> = out@;
    let ghost mut body: Seq<char> = Seq::empty();
    push_chars(out, "{\"fallback\":");
    proof {
        body = "{\"fallback\":"@;
    }
    push_json_string(out, a.fallback.as_str());
    proof {
        vstd::seq_lib::lemma_concat_associative(out0, body, spec_json_string(a.fallback@));
        body = body + spec_json_string(a.fallback@);
        assert(out@ == out0 + body);
    }
    push_color_part(out, &a.color);
    proof {
        vstd::seq_lib::lemma_concat_associative(out0, body, spec_color_part(a.color));
        body = body + spec_color_part(a.color);
        assert(out@ == out0 + body);
    }
    push_opt_str_part(out, ",\"pretext\":", &a.pretext);
    proof {
        vstd::seq_lib::lemma_concat_associative(out0, body, spec_opt_str_part(",\"pretext\":"@, a.pretext));
        body = body + spec_opt_str_part(",\"pretext\":"@, a.pretext);
        assert(out@ == out0 + body);
    }
    push_opt_str_part(out, ",\"author_name\":", &a.author_name);
    proof {
        vstd::seq_lib::lemma_concat_associative(out0, body, spec_opt_str_part(",\"author_name\":"@, a.author_name));
        body = body + spec_opt_str_part(",\"author_name\":"@, a.author_name);
        assert(out@ == out0 + body);
    }
    push_opt_url_part(out, ",\"author_link\":", &a.author_link);
    proof {
        vstd::seq_lib::lemma_concat_associative(out0, body, spec_opt_url_part(",\"author_link\":"@, a.author_link));
        body = body + spec_opt_url_part(",\"author_link\":"@, a.author_link);
        assert(out@ == out0 + body);
    }
    push_opt_url_part(out, ",\"author_icon\":", &a.author_icon);
    proof {
        vstd::seq_lib::lemma_concat_associative(out0, body, spec_opt_url_part(",\"author_icon\":"@, a.author_icon));
        body = body + spec_opt_url_part(",\"author_icon\":"@, a.author_icon);
        assert(out@ == out0 + body);
    }
    push_opt_str_part(out, ",\"title\":", &a.title);
    proof {
        vstd::seq_lib::lemma_concat_associative(out0, body, spec_opt_str_part(",\"title\":"@, a.title));
        body = body + spec_opt_str_part(",\"title\":"@, a.title);
        assert(out@ == out0 + body);
    }
    push_opt_url_part(out, ",\"title_link\":", &a.title_link);
    proof {
        vstd::seq_lib::lemma_concat_associative(out0, body, spec_opt_url_part(",\"title_link\":"@, a.title_link));
        body = body + spec_opt_url_part(",\"title_link\":"@, a.title_link);
        assert(out@ == out0 + body);
    }
    push_opt_str_part(out, ",\"text\":", &a.text);
    proof {
        vstd::seq_lib::lemma_concat_associative(out0, body, spec_opt_str_part(",\"text\":"@, a.text));
        body = body + spec_opt_str_part(",\"text\":"@, a.text);
        assert(out@ == out0 + body);
    }
    push_fields_part(out, &a.fields);
    proof {
        vstd::seq_lib::lemma_concat_associative(out0, body, spec_fields_part(a.fields));
        body = body + spec_fields_part(a.fields);
        assert(out@ == out0 + body);
    }
    push_opt_url_part(out, ",\"image_url\":", &a.image_url);
    proof {
        vstd::seq_lib::lemma_concat_associative(out0, body, spec_opt_url_part(",\"image_url\":"@, a.image_url));
        body = body + spec_opt_url_part(",\"image_url\":"@, a.image_url);
        assert(out@ == out0 + body);
    }
    push_opt_url_part(out, ",\"thumb_url\":", &a.thumb_url);
    proof {
        vstd::seq_lib::lemma_concat_associative(out0, body, spec_opt_url_part(",\"thumb_url\":"@, a.thumb_url));
        body = body + spec_opt_url_part(",\"thumb_url\":"@, a.thumb_url);
        assert(out@ == out0 + body);
    }
    push_opt_str_part(out, ",\"footer\":", &a.footer);
    proof {
        vstd::seq_lib::lemma_concat_associative(out0, body, spec_opt_str_part(",\"footer\":"@, a.footer));
        body = body + spec_opt_str_part(",\"footer\":"@, a.footer);
        assert(out@ == out0 + body);
    }
    push_opt_url_part(out, ",\"footer_icon\":", &a.footer_icon);
    proof {
        vstd::seq_lib::lemma_concat_associative(out0, body, spec_opt_url_part(",\"footer_icon\":"@, a.footer_icon));
        body = body + spec_opt_url_part(",\"footer_icon\":"@, a.footer_icon);
        assert(out@ == out0 + body);
    }
    push_chars(out, ",\"ts\":");
    proof {
        vstd::seq_lib::lemma_concat_associative(out0, body, ",\"ts\":"@);
        body = body + ",\"ts\":"@;
        assert(out@ == out0 + body);
    }
    push_dec_u32(out, a.ts);
    proof {
        vstd::seq_lib::lemma_concat_associative(out0, body, spec_dec(a.ts as int));
        body = body + spec_dec(a.ts as int);
        assert(out@ == out0 + body);
    }
    push_mrkdwn_in_part(out, &a.mrkdwn_in);
    proof {
        vstd::seq_lib::lemma_concat_associative(out0, body, spec_mrkdwn_in_part(a.mrkdwn_in));
        body = body + spec_mrkdwn_in_part(a.mrkdwn_in);
        assert(out@ == out0 + body);
    }
    push_chars(out, "}");
    proof {
        vstd::seq_lib::lemma_concat_associative(out0, body, "}"@);
        body = body + "}"@;
        assert(out@ == out0 + body);
        reveal(spec_attachment_json);
        assert(body == spec_attachment_json(*a));
    }
}

#[verifier::rlimit(60)]
fn push_attachments_json(out: &mut Vec<char>, atts: &Vec<Attachment>)
    ensures
        final(out)@ == old(out)@ + spec_attachments_json(atts@),
{
    push_chars(out, "[");
    let ghost mid: Seq<char> = out@;
    let ghost items: Seq<Seq<char>> = atts@.map(
        |i: int, a: Attachment| spec_attachment_json(a),
    );
    let mut i: usize = 0;
    while i < atts.len()
        invariant
            i <= atts@.len(),
            items == atts@.map(|j: int, a: Attachment| spec_attachment_json(a)),
            out@ == mid + spec_comma_join(items.take(i as int)),
        decreases atts@.len() - i,
    {
        if i > 0 {
            push_chars(out, ",");
        }
        push_attachment_json(out, &atts[i]);
        proof {
            assert(items.take(i as int + 1).drop_last() =~= items.take(i as int));
            assert(items.take(i as int + 1).last() == spec_attachment_json(atts@[i as int]));
            assert(out@ =~= mid + spec_comma_join(items.take(i as int + 1)));
        }
        i += 1;
    }
    push_chars(out, "]");
    proof {
        reveal(spec_attachments_json);
        assert(items.take(atts@.len() as int) =~= items);
        assert(out@ =~= old(out)@ + spec_attachments_json(atts@));
    }
}

/// One `name=value` form pair: both sides form-urlencoded.
#[verifier::opaque]
pub open spec fn spec_pair_chars(name: Seq<char>, value: Seq<char>) -> Seq<char> {
    spec_form_escape(name) + "="@ + spec_form_escape(value)
}

/// The form-urlencoded body holding the given pairs in order, joined
/// with `&`.
#[verifier::opaque]
pub open spec fn spec_form_body(pairs: Seq<(Seq<char>, Seq<char>)>) -> Seq<char>
    decreases pairs.len(),
{
    if pairs.len() == 0 {
        Seq::empty()
    } else if pairs.len() == 1 {
        spec_pair_chars(pairs[0].0, pairs[0].1)
    } else {
        spec_form_body(pairs.drop_last()) + "&"@ + spec_pair_chars(
            pairs.last().0,
            pairs.last().1,
        )
    }
}

proof fn lemma_form_body_push(pairs: Seq<(Seq<char>, Seq<char>)>, p: (Seq<char>, Seq<char>))
    ensures
        spec_form_body(pairs.push(p)) == spec_form_body(pairs) + (if pairs.len() == 0 {
            Seq::<char>::empty()
        } else {
            "&"@
        }) + spec_pair_chars(p.0, p.1),
{
    reveal(spec_form_body);
    let q = pairs.push(p);
    assert(q.drop_last() =~= pairs);
    assert(q.last() == p);
    if pairs.len() == 0 {
        assert(spec_form_body(q) =~= spec_form_body(pairs) + Seq::<char>::empty()
            + spec_pair_chars(p.0, p.1));
    }
}

fn append_form_pair(out: &mut Vec<char>, started: &mut bool, name: &str, value: &str)
    ensures
        final(out)@ == old(out)@ + (if *old(started) {
            "&"@
        } else {
            Seq::<char>::empty()
        }) + spec_pair_chars(name@, value@),
        *final(started),
{
    if *started {
        push_chars(out, "&");
    }
    push_form_escaped(out, name);
    push_chars(out, "=");
    push_form_escaped(out, value);
    *started = true;
    proof {
        reveal(spec_pair_chars);
        assert(out@ =~= old(out)@ + (if *old(started) {
            "&"@
        } else {
            Seq::<char>::empty()
        }) + spec_pair_chars(name@, value@));
    }
}

/// The text pair of the encoded message, when text is present.
#[verifier::opaque]
pub open spec fn spec_text_pair(m: Message) -> Seq<(Seq<char>, Seq<char>)> {
    if m.text is Some {
        seq![("text"@, m.text->0@)]
    } else {
        Seq::empty()
    }
}

/// The attachments pair, carrying the JSON array, when present.
#[verifier::opaque]
pub open spec fn spec_attachments_pair(m: Message) -> Seq<(Seq<char>, Seq<char>)> {
    if m.attachments is Some {
        seq![("attachments"@, spec_attachments_json(m.attachments->0@))]
    } else {
        Seq::empty()
    }
}

/// The parse-behavior pair, when present.
#[verifier::opaque]
pub open spec fn spec_parse_pair(m: Message) -> Seq<(Seq<char>, Seq<char>)> {
    if m.parse is Some {
        seq![("parse"@, m.parse->0.spec_simple_name())]
    } else {
        Seq::empty()
    }
}

/// The link-names pair, when present.
#[verifier::opaque]
pub open spec fn spec_link_names_pair(m: Message) -> Seq<(Seq<char>, Seq<char>)> {
    if m.link_names is Some {
        seq![("link_names"@, m.link_names->0.spec_simple_name())]
    } else {
        Seq::empty()
    }
}

/// The unfurl-links pair, when present.
#[verifier::opaque]
pub open spec fn spec_unfurl_links_pair(m: Message) -> Seq<(Seq<char>, Seq<char>)> {
    if m.unfurl_links is Some {
        seq![("unfurl_links"@, spec_bool_chars(m.unfurl_links->0))]
    } else {
        Seq::empty()
    }
}

/// The unfurl-media pair, when present.
#[verifier::opaque]
pub open spec fn spec_unfurl_media_pair(m: Message) -> Seq<(Seq<char>, Seq<char>)> {
    if m.unfurl_media is Some {
        seq![("unfurl_media"@, spec_bool_chars(m.unfurl_media->0))]
    } else {
        Seq::empty()
    }
}

/// The username pair, when present.
#[verifier::opaque]
pub open spec fn spec_username_pair(m: Message) -> Seq<(Seq<char>, Seq<char>)> {
    if m.username is Some {
        seq![("username"@, m.username->0@)]
    } else {
        Seq::empty()
    }
}

/// The as-user pair, when present.
#[verifier::opaque]
pub open spec fn spec_as_user_pair(m: Message) -> Seq<(Seq<char>, Seq<char>)> {
    if m.as_user is Some {
        seq![("as_user"@, spec_bool_chars(m.as_user->0))]
    } else {
        Seq::empty()
    }
}

/// The icon-URL pair, when present.
#[verifier::opaque]
pub open spec fn spec_icon_url_pair(m: Message) -> Seq<(Seq<char>, Seq<char>)> {
    if m.icon_url is Some {
        seq![("icon_url"@, m.icon_url->0.spec_text())]
    } else {
        Seq::empty()
    }
}

/// The icon-emoji pair, when present.
#[verifier::opaque]
pub open spec fn spec_icon_emoji_pair(m: Message) -> Seq<(Seq<char>, Seq<char>)> {
    if m.icon_emoji is Some {
        seq![("icon_emoji"@, m.icon_emoji->0@)]
    } else {
        Seq::empty()
    }
}

/// The markdown pair, when present.
#[verifier::opaque]
pub open spec fn spec_mrkdwn_pair(m: Message) -> Seq<(Seq<char>, Seq<char>)> {
    if m.mrkdwn is Some {
        seq![("mrkdwn"@, spec_bool_chars(m.mrkdwn->0))]
    } else {
        Seq::empty()
    }
}

/// The form pairs of a message, in the fixed emission order.
pub open spec fn spec_message_pairs(m: Message) -> Seq<(Seq<char>, Seq<char>)> {
    spec_text_pair(m) + spec_attachments_pair(m) + spec_parse_pair(m) + spec_link_names_pair(m)
        + spec_unfurl_links_pair(m) + spec_unfurl_media_pair(m) + spec_username_pair(m)
        + spec_as_user_pair(m) + spec_icon_url_pair(m) + spec_icon_emoji_pair(m)
        + spec_mrkdwn_pair(m)
}

/// The full encoded body of a message that carries content.
pub open spec fn spec_encode_message(m: Message) -> Seq<char> {
    spec_form_body(spec_message_pairs(m))
}

/// The message pairs up to and including the unfurl directives.
pub open spec fn spec_front_pairs(m: Message) -> Seq<(Seq<char>, Seq<char>)> {
    spec_text_pair(m) + spec_attachments_pair(m) + spec_parse_pair(m) + spec_link_names_pair(m)
        + spec_unfurl_links_pair(m) + spec_unfurl_media_pair(m)
}

/// Appends the parse, link-names and unfurl pairs of the message to a
/// body that already holds the text and attachments pairs.
#[verifier::rlimit(100)]
fn append_front_scalar_pairs(
    out: &mut Vec<char>,
    started: &mut bool,
    message: &Message,
    Ghost(gp0): Ghost<Seq<(Seq<char>, Seq<char>)>>,
)
    requires
        old(out)@ == spec_form_body(gp0),
        *old(started) == (gp0.len() != 0),
        gp0 == spec_text_pair(*message) + spec_attachments_pair(*message),
    ensures
        final(out)@ == spec_form_body(spec_front_pairs(*message)),
        *final(started) == (spec_front_pairs(*message).len() != 0),
{
    let ghost m: Message = *message;
    let ghost mut gp: Seq<(Seq<char>, Seq<char>)> = gp0;
    if let Some(parse) = &message.parse {
        append_form_pair(out, started, "parse", parse.simple_name());
        proof {
            lemma_form_body_push(gp, ("parse"@, m.parse->0.spec_simple_name()));
            gp = gp.push(("parse"@, m.parse->0.spec_simple_name()));
        }
    }
    proof {
        reveal(spec_parse_pair);
        assert(gp =~= gp0 + spec_parse_pair(m));
        assert(out@ == spec_form_body(gp));
        assert(*started == (gp.len() != 0));
    }

    if let Some(link_names) = &message.link_names {
        append_form_pair(out, started, "link_names", link_names.simple_name());
        proof {
            lemma_form_body_push(gp, ("link_names"@, m.link_names->0.spec_simple_name()));
            gp = gp.push(("link_names"@, m.link_names->0.spec_simple_name()));
        }
    }
    proof {
        reveal(spec_link_names_pair);
        assert(gp =~= gp0 + spec_parse_pair(m)
            + spec_link_names_pair(m));
        assert(out@ == spec_form_body(gp));
        assert(*started == (gp.len() != 0));
    }

    if let Some(unfurl_links) = &message.unfurl_links {
        let rendered = if *unfurl_links { "true" } else { "false" };
        append_form_pair(out, started, "unfurl_links", rendered);
        proof {
            lemma_form_body_push(gp, ("unfurl_links"@, spec_bool_chars(m.unfurl_links->0)));
            gp = gp.push(("unfurl_links"@, spec_bool_chars(m.unfurl_links->0)));
        }
    }
    proof {
        reveal(spec_unfurl_links_pair);
        assert(gp =~= gp0 + spec_parse_pair(m)
            + spec_link_names_pair(m) + spec_unfurl_links_pair(m));
        assert(out@ == spec_form_body(gp));
        assert(*started == (gp.len() != 0));
    }

    if let Some(unfurl_media) = &message.unfurl_media {
        let rendered = if *unfurl_media { "true" } else { "false" };
        append_form_pair(out, started, "unfurl_media", rendered);
        proof {
            lemma_form_body_push(gp, ("unfurl_media"@, spec_bool_chars(m.unfurl_media->0)));
            gp = gp.push(("unfurl_media"@, spec_bool_chars(m.unfurl_media->0)));
        }
    }
    proof {
        reveal(spec_unfurl_media_pair);
        assert(gp =~= gp0 + spec_parse_pair(m)
            + spec_link_names_pair(m) + spec_unfurl_links_pair(m) + spec_unfurl_media_pair(m));
        assert(out@ == spec_form_body(gp));
        assert(*started == (gp.len() != 0));
    }

    proof {
        assert(gp == spec_front_pairs(m));
    }
}

/// Appends the identity and markdown pairs of the message, completing
/// the encoded body.
#[verifier::rlimit(100)]
fn append_back_scalar_pairs(out: &mut Vec<char>, started: &mut bool, message: &Message)
    requires
        old(out)@ == spec_form_body(spec_front_pairs(*message)),
        *old(started) == (spec_front_pairs(*message).len() != 0),
    ensures
        final(out)@ == spec_form_body(spec_message_pairs(*message)),
{
    let ghost m: Message = *message;
    let ghost gp0: Seq<(Seq<char>, Seq<char>)> = spec_front_pairs(m);
    let ghost mut gp: Seq<(Seq<char>, Seq<char>)> = gp0;
    if let Some(username) = &message.username {
        append_form_pair(out, started, "username", username.as_str());
        proof {
            lemma_form_body_push(gp, ("username"@, m.username->0@));
            gp = gp.push(("username"@, m.username->0@));
        }
    }
    proof {
        reveal(spec_username_pair);
        assert(gp =~= gp0 + spec_username_pair(m));
        assert(out@ == spec_form_body(gp));
        assert(*started == (gp.len() != 0));
    }

    if let Some(as_user) = &message.as_user {
        let rendered = if *as_user { "true" } else { "false" };
        append_form_pair(out, started, "as_user", rendered);
        proof {
            lemma_form_body_push(gp, ("as_user"@, spec_bool_chars(m.as_user->0)));
            gp = gp.push(("as_user"@, spec_bool_chars(m.as_user->0)));
        }
    }
    proof {
        reveal(spec_as_user_pair);
        assert(gp =~= gp0 + spec_username_pair(m) + spec_as_user_pair(m));
        assert(out@ == spec_form_body(gp));
        assert(*started == (gp.len() != 0));
    }

    if let Some(icon_url) = &message.icon_url {
        append_form_pair(out, started, "icon_url", icon_url.as_str());
        proof {
            lemma_form_body_push(gp, ("icon_url"@, m.icon_url->0.spec_text()));
            gp = gp.push(("icon_url"@, m.icon_url->0.spec_text()));
        }
    }
    proof {
        reveal(spec_icon_url_pair);
        assert(gp =~= gp0 + spec_username_pair(m) + spec_as_user_pair(m) + spec_icon_url_pair(m));
        assert(out@ == spec_form_body(gp));
        assert(*started == (gp.len() != 0));
    }

    if let Some(icon_emoji) = &message.icon_emoji {
        append_form_pair(out, started, "icon_emoji", icon_emoji.as_str());
        proof {
            lemma_form_body_push(gp, ("icon_emoji"@, m.icon_emoji->0@));
            gp = gp.push(("icon_emoji"@, m.icon_emoji->0@));
        }
    }
    proof {
        reveal(spec_icon_emoji_pair);
        assert(gp =~= gp0 + spec_username_pair(m) + spec_as_user_pair(m) + spec_icon_url_pair(m)
            + spec_icon_emoji_pair(m));
        assert(out@ == spec_form_body(gp));
        assert(*started == (gp.len() != 0));
    }

    if let Some(mrkdwn) = &message.mrkdwn {
        let rendered = if *mrkdwn { "true" } else { "false" };
        append_form_pair(out, started, "mrkdwn", rendered);
        proof {
            lemma_form_body_push(gp, ("mrkdwn"@, spec_bool_chars(m.mrkdwn->0)));
            gp = gp.push(("mrkdwn"@, spec_bool_chars(m.mrkdwn->0)));
        }
    }
    proof {
        reveal(spec_mrkdwn_pair);
        assert(gp =~= spec_message_pairs(m));
        assert(out@ == spec_form_body(gp));
    }

}

/// Encodes a [`Message`] into the form-urlencoded body to be posted.
///
/// Fails with `NoMessageContent` exactly when both `text` and
/// `attachments` are absent; otherwise the result is exactly the
/// encoding that [`spec_encode_message`] describes.
///
/// NOTE: if you want your message to contain a literal `&`, `>` or `<`,
/// entity-encode it before setting the message text.
#[verifier::rlimit(100)]
pub fn encode_message(message: &Message) -> (r: Result<String, Error>)
    ensures
        r is Err <==> (message.text is None && message.attachments is None),
        r is Err ==> r->Err_0.kind == ErrorKind::NoMessageContent,
        r is Ok ==> r->Ok_0@ == spec_encode_message(*message),
{
    let ghost m: Message = *message;
    if message.text.is_none() && message.attachments.is_none() {
        return Err(Error::from_kind(ErrorKind::NoMessageContent));
    }
    let mut out: Vec<char> = Vec::new();
    let mut started: bool = false;
    let ghost mut gp: Seq<(Seq<char>, Seq<char>)> = Seq::empty();
    proof {
        reveal(spec_form_body);
        assert(out@ == spec_form_body(gp));
    }

    if let Some(text) = &message.text {
        let encoded_text = match encode_message_text(text.as_str()) {
            Ok(t) => t,
            Err(e) => { return Err(e) },
        };
        append_form_pair(&mut out, &mut started, "text", encoded_text.as_str());
        proof {
            lemma_form_body_push(gp, ("text"@, encoded_text@));
            gp = gp.push(("text"@, m.text->0@));
        }
    }
    proof {
        reveal(spec_text_pair);
        assert(gp =~= spec_text_pair(m));
        assert(out@ == spec_form_body(gp));
        assert(started == (gp.len() != 0));
    }

    if let Some(atts) = &message.attachments {
        let mut ajson: Vec<char> = Vec::new();
        push_attachments_json(&mut ajson, atts);
        let serialized = chars_to_string(&ajson);
        append_form_pair(&mut out, &mut started, "attachments", serialized.as_str());
        proof {
            lemma_form_body_push(gp, ("attachments"@, serialized@));
            gp = gp.push(("attachments"@, spec_attachments_json(m.attachments->0@)));
        }
    }
    proof {
        reveal(spec_attachments_pair);
        assert(gp =~= spec_text_pair(m) + spec_attachments_pair(m));
        assert(out@ == spec_form_body(gp));
        assert(started == (gp.len() != 0));
    }

    append_front_scalar_pairs(&mut out, &mut started, message, Ghost(gp));
    append_back_scalar_pairs(&mut out, &mut started, message);

    let finished = chars_to_string(&out);
    Ok(finished)
}

/// Law: encoding is deterministic.  Any two bodies that satisfy the
/// encoder's contract for the same message are identical, character for
/// character.
pub proof fn lemma_encode_message_deterministic(m: Message, r1: Seq<char>, r2: Seq<char>)
    requires
        r1 == spec_encode_message(m),
        r2 == spec_encode_message(m),
    ensures
        r1 == r2,
{
}

} // verus!
