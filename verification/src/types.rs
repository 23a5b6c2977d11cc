//! The typed data model: messages and attachments to be posted, channel
//! objects returned by the service, and the typed response shape of each
//! supported API method.

use vstd::prelude::*;
use crate::base_types::ChannelId;
use crate::base_types::SlackUrl;
use crate::base_types::UserId;

verus! {

/// Message to be posted to a channel.
///
/// A message must carry text or at least one attachment; the encoder
/// rejects a message with neither before any network call is made.
#[derive(Debug, Clone, PartialEq, Eq)]
pub struct Message {
    /// Message text. Required, unless `attachments` are provided.
    /// You may use both `text` and `attachments`.
    pub text: Option<String>,
    /// Attachments to be included in the message.
    pub attachments: Option<Vec<Attachment>>,
    /// Message parsing behavior on the server side.
    pub parse: Option<MessageParseBehavior>,
    /// Whether user and channel names should automatically be linked
    /// within the message.
    pub link_names: Option<LinkNames>,
    /// Create an attachment for each text-based link in the message.
    pub unfurl_links: Option<bool>,
    /// Create an attachment for each media link in the message.
    pub unfurl_media: Option<bool>,
    /// The bot username to post under.
    pub username: Option<String>,
    /// Post the message as the user specified in `username`.
    pub as_user: Option<bool>,
    /// URL to an image to use as the icon for this message.
    pub icon_url: Option<SlackUrl>,
    /// Emoji code to use as the icon for this message; overrides
    /// `icon_url`.
    pub icon_emoji: Option<String>,
    /// Whether message text sent by a bot is markdown-formatted.
    pub mrkdwn: Option<bool>,
}

impl Default for Message {
    /// The empty message: every field absent.
    fn default() -> (r: Message)
        ensures
            r.text is None,
            r.attachments is None,
            r.parse is None,
            r.link_names is None,
            r.unfurl_links is None,
            r.unfurl_media is None,
            r.username is None,
            r.as_user is None,
            r.icon_url is None,
            r.icon_emoji is None,
            r.mrkdwn is None,
    {
        Message {
            text: None,
            attachments: None,
            parse: None,
            link_names: None,
            unfurl_links: None,
            unfurl_media: None,
            username: None,
            as_user: None,
            icon_url: None,
            icon_emoji: None,
            mrkdwn: None,
        }
    }
}

/// Controls how the server parses and auto-links a posted message.
#[derive(Debug, Clone, Copy, PartialEq, Eq)]
pub enum MessageParseBehavior {
    /// Parse the supplied message and auto-link user names, channel
    /// names and URLs; rendered on the wire as `full`.
    Full,
    /// Do not perform any parsing on the supplied message; rendered on
    /// the wire as `none`.
    NoParse,
}

/// Controls whether the server auto-links channel and user names.
#[derive(Debug, Clone, Copy, PartialEq, Eq)]
pub enum LinkNames {
    /// Enable auto-linking; rendered on the wire as `1`.
    Enable,
    /// Disable auto-linking; rendered on the wire as `0`.
    Disable,
}

/// An attachment in a message: rich content with a mandatory plain-text
/// fallback for clients that cannot render it.
#[derive(Debug, Clone, PartialEq, Eq)]
pub struct Attachment {
    /// Plain-text summary of the attachment.
    pub fallback: String,
    /// Attachment color: one of the named colors or a literal hex code.
    pub color: Option<Color>,
    /// Optional text that appears above the attachment block.
    pub pretext: Option<String>,
    /// Name of the person that created the attachment.
    pub author_name: Option<String>,
    /// Link that hyperlinks the author's name.
    pub author_link: Option<SlackUrl>,
    /// Link to a small image shown to the left of the author's name.
    pub author_icon: Option<SlackUrl>,
    /// Larger, bold text on top of the attachment.
    pub title: Option<String>,
    /// Link that hyperlinks the title.
    pub title_link: Option<SlackUrl>,
    /// Main text in the attachment.
    pub text: Option<String>,
    /// Fields to display in a table in the attachment.
    pub fields: Option<Vec<AttachmentFields>>,
    /// URL to an image displayed inside the attachment.
    pub image_url: Option<SlackUrl>,
    /// URL to an image displayed as a thumbnail to the right of the
    /// attachment.
    pub thumb_url: Option<SlackUrl>,
    /// Text at the bottom of the attachment.
    pub footer: Option<String>,
    /// URL to an image displayed next to the footer text.
    pub footer_icon: Option<SlackUrl>,
    /// Epoch time associated with this attachment.
    pub ts: u32,
    /// Names of the attachment fields to be rendered with markdown.
    pub mrkdwn_in: Option<Vec<String>>,
}

/// Color with which to highlight an attachment.
#[derive(Debug, Clone, PartialEq, Eq)]
pub enum Color {
    /// Indicates a normal-priority message; rendered as `good`.
    Good,
    /// Indicates a warning message; rendered as `warning`.
    Warning,
    /// Indicates a high-priority message; rendered as `danger`.
    Danger,
    /// Custom RGB hex color code, rendered as given.
    Hex(String),
}

/// One row of an attachment's field table.
#[derive(Debug, Clone, PartialEq, Eq)]
pub struct AttachmentFields {
    /// Bold heading above the value text.
    pub title: String,
    /// Field value.
    pub value: String,
    /// Whether the value is short enough to be displayed side-by-side
    /// with other values.
    pub short: bool,
}

/// A Slack channel as the service describes it.
///
/// The first six fields are mandatory; an object carrying only those is
/// a limited channel object.  The read-state timestamp is kept in its
/// decimal text form as the service sent it.
#[derive(Debug, Clone, PartialEq, Eq)]
pub struct Channel {
    /// Unique ID of the channel.
    pub id: ChannelId,
    /// Human-readable channel name.
    pub name: String,
    /// Time at which the channel was created.
    pub created: u32,
    /// Unique ID of the user that created the channel.
    pub creator: UserId,
    /// Whether the channel has been archived.
    pub is_archived: bool,
    /// Whether the channel is the team's general channel.
    pub is_general: bool,
    /// User ids for all users in this channel.
    pub members: Option<Vec<UserId>>,
    /// Channel topic.
    pub topic: Option<Topic>,
    /// Channel purpose.
    pub purpose: Option<Purpose>,
    /// Whether the calling user is a member of this channel.
    pub is_member: Option<bool>,
    /// Timestamp of the last message the calling user read, as its
    /// decimal text.
    pub last_read: Option<String>,
    /// Count of all visible messages the calling user has yet to read.
    pub unread_count: Option<u32>,
    /// Count of unread messages excluding join/leave messages.
    pub unread_count_display: Option<u32>,
}

/// The topic of a channel.
#[derive(Debug, Clone, PartialEq, Eq)]
pub struct Topic {
    /// Topic text.
    pub value: String,
    /// User who set the topic.
    pub creator: UserId,
    /// Epoch time at which the topic was last set.
    pub last_set: u32,
}

/// The purpose of a channel.
#[derive(Debug, Clone, PartialEq, Eq)]
pub struct Purpose {
    /// Purpose text.
    pub value: String,
    /// User who set the purpose.
    pub creator: UserId,
    /// Epoch time at which the purpose was last set.
    pub last_set: u32,
}

/// Limited representation of a channel after a rename call.
#[derive(Debug, Clone, PartialEq, Eq)]
pub struct RenamedChannel {
    /// Unique ID of the channel.
    pub id: ChannelId,
    /// Whether this is a channel rather than a DM or a group chat.
    pub is_channel: bool,
    /// Human-readable channel name.
    pub name: String,
    /// Time at which the channel was created.
    pub created: u32,
}

/// Response of the connectivity-test method; its `args` field echoes the
/// caller's arguments as an opaque JSON payload.
#[derive(Debug)]
pub struct ApiTestResponse {
    /// Whether the request was successful.
    pub ok: bool,
    /// Only populated if there is an error, or if the caller asked the
    /// method to produce one.
    pub error: Option<String>,
    /// Only populated if there is a warning.
    pub warning: Option<String>,
    /// Arguments supplied in the call, echoed back by the service.
    pub args: Option<serde_json::Value>,
}

/// Response of the channel-archive method.
#[derive(Debug, Clone, PartialEq, Eq)]
pub struct ChannelsArchiveResponse {
    /// Whether the request was successful.
    pub ok: bool,
    /// Only populated if there is an error.
    pub error: Option<String>,
    /// Only populated if there is a warning.
    pub warning: Option<String>,
}

/// Response of the channel-creation method.
#[derive(Debug, Clone, PartialEq, Eq)]
pub struct ChannelsCreateResponse {
    /// Whether the request was successful.
    pub ok: bool,
    /// Only populated if there is an error.
    pub error: Option<String>,
    /// Only populated if there is a warning.
    pub warning: Option<String>,
    /// The channel created by the call.
    pub channel: Option<Channel>,
}

/// Response of the channel-info method.
#[derive(Debug, Clone, PartialEq, Eq)]
pub struct ChannelsInfoResponse {
    /// Whether the request was successful.
    pub ok: bool,
    /// Only populated if there is an error.
    pub error: Option<String>,
    /// Only populated if there is a warning.
    pub warning: Option<String>,
    /// The requested channel.
    pub channel: Option<Channel>,
}

/// Response of the channel-invite method.
#[derive(Debug, Clone, PartialEq, Eq)]
pub struct ChannelsInviteResponse {
    /// Whether the request was successful.
    pub ok: bool,
    /// Only populated if there is an error.
    pub error: Option<String>,
    /// Only populated if there is a warning.
    pub warning: Option<String>,
    /// The state of the channel after the invite succeeds.
    pub channel: Option<Channel>,
}

/// Response of the channel-join method.
#[derive(Debug, Clone, PartialEq, Eq)]
pub struct ChannelsJoinResponse {
    /// Whether the request was successful.
    pub ok: bool,
    /// Only populated if there is an error.
    pub error: Option<String>,
    /// Only populated if there is a warning.
    pub warning: Option<String>,
    /// Only populated if the user has already joined the channel.
    pub already_in_channel: Option<bool>,
    /// If successful, the channel joined.
    pub channel: Option<Channel>,
}

/// Response of the channel-leave method.
#[derive(Debug, Clone, PartialEq, Eq)]
pub struct ChannelsLeaveResponse {
    /// Whether the request was successful.
    pub ok: bool,
    /// Only populated if there is an error.
    pub error: Option<String>,
    /// Only populated if there is a warning.
    pub warning: Option<String>,
    /// Only populated if the user was not in the channel.
    pub not_in_channel: Option<bool>,
}

/// Response of the channel-list method.
#[derive(Debug, Clone, PartialEq, Eq)]
pub struct ChannelsListResponse {
    /// Whether the request was successful.
    pub ok: bool,
    /// Only populated if there is an error.
    pub error: Option<String>,
    /// Only populated if there is a warning.
    pub warning: Option<String>,
    /// List of channels in this team.
    pub channels: Vec<Channel>,
}

/// Response of the channel-mark method.
#[derive(Debug, Clone, PartialEq, Eq)]
pub struct ChannelsMarkResponse {
    /// Whether the request was successful.
    pub ok: bool,
    /// Only populated if there is an error.
    pub error: Option<String>,
    /// Only populated if there is a warning.
    pub warning: Option<String>,
}

/// Response of the channel-rename method.
#[derive(Debug, Clone, PartialEq, Eq)]
pub struct ChannelsRenameResponse {
    /// Whether the request was successful.
    pub ok: bool,
    /// Only populated if there is an error.
    pub error: Option<String>,
    /// Only populated if there is a warning.
    pub warning: Option<String>,
    /// New (limited) state of the channel.
    pub channel: Option<RenamedChannel>,
}

/// Response of the channel-set-purpose method.
#[derive(Debug, Clone, PartialEq, Eq)]
pub struct ChannelsSetPurposeResponse {
    /// Whether the request was successful.
    pub ok: bool,
    /// Only populated if there is an error.
    pub error: Option<String>,
    /// Only populated if there is a warning.
    pub warning: Option<String>,
    /// New purpose of the channel.
    pub purpose: Option<String>,
}

/// Response of the channel-set-topic method.
#[derive(Debug, Clone, PartialEq, Eq)]
pub struct ChannelsSetTopicResponse {
    /// Whether the request was successful.
    pub ok: bool,
    /// Only populated if there is an error.
    pub error: Option<String>,
    /// Only populated if there is a warning.
    pub warning: Option<String>,
    /// New topic of the channel.
    pub topic: Option<String>,
}

/// Response of the channel-unarchive method.
#[derive(Debug, Clone, PartialEq, Eq)]
pub struct ChannelsUnarchiveResponse {
    /// Whether the request was successful.
    pub ok: bool,
    /// Only populated if there is an error.
    pub error: Option<String>,
    /// Only populated if there is a warning.
    pub warning: Option<String>,
}

/// Response of the message-delete method.  Timestamps are kept in their
/// decimal text form as the service sent them.
#[derive(Debug, Clone, PartialEq, Eq)]
pub struct ChatDeleteResponse {
    /// Whether the request was successful.
    pub ok: bool,
    /// Only populated if there is an error.
    pub error: Option<String>,
    /// Only populated if there is a warning.
    pub warning: Option<String>,
    /// Channel from which the message was deleted.
    pub channel: Option<ChannelId>,
    /// Timestamp of the deleted message, as its decimal text.
    pub ts: Option<String>,
}

/// Response of the me-message method.
#[derive(Debug, Clone, PartialEq, Eq)]
pub struct ChatMeMessageResponse {
    /// Whether the request was successful.
    pub ok: bool,
    /// Only populated if there is an error.
    pub error: Option<String>,
    /// Only populated if there is a warning.
    pub warning: Option<String>,
    /// Channel to which the me-message was posted.
    pub channel: Option<ChannelId>,
    /// Timestamp of the me-message, as its decimal text.
    pub ts: Option<String>,
}

/// Response of the message-post method; the message as finally posted is
/// echoed back as an opaque JSON payload.
#[derive(Debug)]
pub struct ChatPostMessageResponse {
    /// Whether the request was successful.
    pub ok: bool,
    /// Only populated if there is an error.
    pub error: Option<String>,
    /// Only populated if there is a warning.
    pub warning: Option<String>,
    /// Time when the message was posted, as its decimal text.
    pub ts: Option<String>,
    /// Channel to which the message was posted.
    pub channel: Option<ChannelId>,
    /// Final message content as posted to the channel.
    pub message: Option<serde_json::Value>,
}

} // verus!
