//! The ping command: the smallest complete pass through the response
//! protocol.

use vstd::prelude::*;
use vstd::string::StringExecFns;

use crate::error::CommandError;
use crate::interaction::CommandContext;
use crate::message::{ReplyContent, SendAction};

verus! {

/// What the ping reply carries: exactly the text `Pong!`, no embed.
pub open spec fn is_ping_content(c: ReplyContent) -> bool {
    &&& c.text matches Some(t) && t@ == "Pong!"@
    &&& c.embed is None
}

/// The ping command. It has no parameters.
#[derive(Debug)]
pub struct PingCommand;

impl PingCommand {
    /// Replies `Pong!` directly: a fresh invocation always gets its create
    /// call, so this never fails.
    pub fn handle(ctx: &mut CommandContext) -> (r: Result<SendAction, CommandError>)
        requires
            old(ctx).state() is Fresh,
        ensures
            final(ctx).same_request(*old(ctx)),
            match r {
                Ok(a) => ({
                    &&& a matches SendAction::CreateMessage(c) && is_ping_content(c)
                    &&& final(ctx).state() is Replied
                }),
                Err(_) => false,
            },
    {
        let content = ReplyContent::from_text(String::from_str("Pong!"));
        match ctx.reply(content) {
            Ok(a) => Ok(a),
            Err(e) => Err(e),
        }
    }
}

} // verus!
