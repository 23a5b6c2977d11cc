//! A typed client for the Slack web API.
//!
//! The library covers the pure core of such a client: building
//! authenticated request URLs, encoding a rich message into the
//! `application/x-www-form-urlencoded` wire format the service expects,
//! decoding JSON responses into typed results, and translating
//! service-reported error code strings into a closed taxonomy of typed
//! errors.  The HTTP transport itself is left to the caller.

pub mod base_types;
pub mod chat;
pub mod decode;
pub mod errors;
pub mod json;
pub mod slack;
pub mod strutil;
pub mod types;
pub mod wire;

pub use base_types::ChannelId;
pub use base_types::SlackUrl;
pub use base_types::UserId;
pub use chat::encode_message;
pub use chat::encode_message_text;
pub use errors::Error;
pub use errors::ErrorKind;
pub use errors::from_api_error_string;
pub use slack::ApiRequest;
pub use slack::Slack;
pub use slack::validate_channel_id;
pub use slack::validate_user_id;
pub use types::Attachment;
pub use types::AttachmentFields;
pub use types::Channel;
pub use types::Color;
pub use types::LinkNames;
pub use types::Message;
pub use types::MessageParseBehavior;
pub use types::Purpose;
pub use types::Topic;
