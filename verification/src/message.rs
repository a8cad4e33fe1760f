//! Reply payloads and the send actions the core asks its caller to perform.
//!
//! The core never talks to the platform itself: every decision that ends in a
//! network send is returned as a [`SendAction`], and the surrounding driver
//! performs it (`CreateDeferred` and `CreateMessage` through the platform's
//! create-response call, `EditMessage` through its update-response call).

use vstd::prelude::*;
use vstd::string::StringExecFns;

use crate::error::CommandError;

verus! {

/// One rich embed: a title, an optional description, an optional image.
#[derive(Debug)]
pub struct Embed {
    pub title: String,
    pub description: Option<String>,
    pub image_url: Option<String>,
}

/// The payload of a terminal reply: plain text and/or one embed.
#[derive(Debug)]
pub struct ReplyContent {
    pub text: Option<String>,
    pub embed: Option<Embed>,
}

impl ReplyContent {
    /// A reply must carry renderable content: text or an embed.
    pub open spec fn has_payload(self) -> bool {
        self.text is Some || self.embed is Some
    }

    /// A plain-text reply.
    pub fn from_text(text: String) -> (c: ReplyContent)
        ensures
            c.text == Some(text),
            c.embed is None,
            c.has_payload(),
    {
        ReplyContent { text: Some(text), embed: None }
    }

    /// A reply carrying one embed and no text.
    pub fn from_embed(embed: Embed) -> (c: ReplyContent)
        ensures
            c.text is None,
            c.embed == Some(embed),
            c.has_payload(),
    {
        ReplyContent { text: None, embed: Some(embed) }
    }

    /// Whether this content carries a payload.
    pub fn payload_present(&self) -> (b: bool)
        ensures
            b == self.has_payload(),
    {
        self.text.is_some() || self.embed.is_some()
    }
}

/// A platform send that the caller must perform on the core's behalf.
#[derive(Debug)]
pub enum SendAction {
    /// Create the early "response forthcoming" acknowledgment.
    CreateDeferred,
    /// Create the terminal response carrying the content.
    CreateMessage(ReplyContent),
    /// Edit the deferred placeholder to carry the content.
    EditMessage(ReplyContent),
}

/// What the best-effort failure reply for `error` looks like.
pub open spec fn is_failure_content(c: ReplyContent, error: CommandError) -> bool {
    &&& c.text is None
    &&& c.embed matches Some(e) && ({
        &&& e.title@ == ":warning: Error"@
        &&& e.description matches Some(d) && d@ == error.message_view()
        &&& e.image_url is None
    })
}

/// Builds the failure embed shown to the user when a handler fails.
pub fn failure_content(error: &CommandError) -> (c: ReplyContent)
    ensures
        is_failure_content(c, *error),
        c.has_payload(),
{
    ReplyContent::from_embed(
        Embed {
            title: String::from_str(":warning: Error"),
            description: Some(error.message()),
            image_url: None,
        },
    )
}

} // verus!
