//! One inbound command invocation: its data, its response state, and the
//! router that dispatches it.
//!
//! The surrounding driver receives a platform event, extracts the
//! [`Interaction`] and the raw [`CommandPayload`], resolves the invoking
//! user's voice channel from its cache, and builds a [`CommandContext`].
//! [`handle_command`] then decides everything up to the send actions, which
//! the driver performs. When a handler fails, [`respond_failure`] decides the
//! best-effort failure reply — only if no terminal reply went out yet.

use vstd::prelude::*;
use vstd::string::StringExecFns;

use crate::error::CommandError;
use crate::message::{failure_content, is_failure_content, ReplyContent, SendAction};
use crate::music::{music_handle_post, MusicCommand, PlayStart};
use crate::ping::{is_ping_content, PingCommand};
use crate::responder::{defer_step, reply_step, InteractionResponder, ResponderState};
use crate::session::VoiceSessionManager;

verus! {

/// One inbound command request, immutable for the lifetime of handling.
#[derive(Debug)]
pub struct Interaction {
    /// The platform's id for this invocation.
    pub id: u64,
    /// The continuation token its responses are addressed with.
    pub token: String,
    /// The invoking user.
    pub user_id: u64,
    /// The guild the command was issued in, if any.
    pub guild_id: Option<u64>,
}

/// The raw command payload, round-tripped from the platform: a top-level
/// command name, an optional subcommand, and an optional string option.
#[derive(Debug)]
pub struct CommandPayload {
    pub name: String,
    pub sub: Option<String>,
    pub query: Option<String>,
}

impl CommandPayload {
    /// The subcommand name, as a sequence of characters.
    pub open spec fn sub_view(self) -> Option<Seq<char>> {
        match self.sub {
            Some(s) => Some(s@),
            None => None,
        }
    }

    /// The string option, as a sequence of characters.
    pub open spec fn query_view(self) -> Option<Seq<char>> {
        match self.query {
            Some(q) => Some(q@),
            None => None,
        }
    }
}

/// Everything one command handler works with: the interaction, its raw
/// payload, the invoking user's current voice channel (resolved by the
/// driver from the platform's voice-state cache), and the responder that
/// guards the response protocol.
#[derive(Debug)]
pub struct CommandContext {
    pub interaction: Interaction,
    pub payload: CommandPayload,
    pub voice_channel: Option<u64>,
    /// The responder guarding this invocation's response protocol.
    pub responder: InteractionResponder,
}

impl CommandContext {
    /// Where this invocation stands in the response protocol.
    pub open spec fn state(self) -> ResponderState {
        self.responder.state()
    }

    /// The request data is never touched by handling; only the responder
    /// state moves.
    pub open spec fn same_request(self, other: CommandContext) -> bool {
        &&& self.interaction == other.interaction
        &&& self.payload == other.payload
        &&& self.voice_channel == other.voice_channel
    }

    /// A context for a just-received invocation: nothing sent yet.
    pub fn new(interaction: Interaction, payload: CommandPayload, voice_channel: Option<u64>) -> (c:
        CommandContext)
        ensures
            c.interaction == interaction,
            c.payload == payload,
            c.voice_channel == voice_channel,
            c.state() is Fresh,
    {
        CommandContext { interaction, payload, voice_channel, responder: InteractionResponder::new() }
    }

    /// The responder state, for callers outside the proof.
    pub fn current_state(&self) -> (s: ResponderState)
        ensures
            s == self.state(),
    {
        self.responder.current_state()
    }

    /// Decides the early acknowledgment for this invocation.
    pub fn defer(&mut self) -> (a: SendAction)
        requires
            old(self).state() is Fresh,
        ensures
            final(self).same_request(*old(self)),
            (final(self).state(), a) == defer_step(old(self).state()),
    {
        self.responder.defer()
    }

    /// Decides the terminal reply for this invocation.
    pub fn reply(&mut self, content: ReplyContent) -> (r: Result<SendAction, CommandError>)
        ensures
            final(self).same_request(*old(self)),
            (final(self).state(), r) == reply_step(old(self).state(), content),
    {
        self.responder.reply(content)
    }
}

/// Compares a payload string against a schema name.
pub(crate) fn string_eq_lit(s: &String, lit: &str) -> (b: bool)
    ensures
        b == (s@ == lit@),
{
    let other = String::from_str(lit);
    s.eq(&other)
}

/// What a handler hands back to the driver: either the command is done up to
/// performing the send, or a source lookup is owed first (play).
#[derive(Debug)]
pub enum CommandOutcome {
    /// Perform the send action; nothing else is owed.
    Completed(SendAction),
    /// Apply the pause (`paused`) or resume (`!paused`) toggle to the
    /// guild's real queue, then perform the send action.
    QueueToggled { guild_id: u64, paused: bool, action: SendAction },
    /// Perform the deferred acknowledgment and the join request, resolve the
    /// source, then complete through [`crate::music::MusicPlay::finish`].
    SourcePending(PlayStart),
}

/// Routes one invocation to its handler, dispatching on the command name.
/// Unknown names fail with `UnknownCommand` and no reply is decided here —
/// the caller picks the user-facing message.
pub fn handle_command(ctx: &mut CommandContext, manager: &mut VoiceSessionManager) -> (r: Result<
    CommandOutcome,
    CommandError,
>)
    requires
        old(ctx).state() is Fresh,
        old(manager).wf(),
        old(manager).joins() < u64::MAX,
    ensures
        final(manager).wf(),
        final(ctx).same_request(*old(ctx)),
        old(ctx).payload.name@ == "ping"@ ==> ({
            &&& r matches Ok(o) && o matches CommandOutcome::Completed(a) && a matches
                SendAction::CreateMessage(c) && is_ping_content(c)
            &&& final(ctx).state() is Replied
            &&& final(manager)@ == old(manager)@
            &&& final(manager).joins() == old(manager).joins()
        }),
        old(ctx).payload.name@ != "ping"@ && old(ctx).payload.name@ == "music"@
            ==> music_handle_post(
            *old(ctx),
            final(ctx).state(),
            old(manager)@,
            old(manager).joins() as int,
            final(manager)@,
            final(manager).joins() as int,
            r,
        ),
        old(ctx).payload.name@ != "ping"@ && old(ctx).payload.name@ != "music"@ ==> ({
            &&& r matches Err(e) && e matches CommandError::UnknownCommand(n) && n@ == old(
                ctx,
            ).payload.name@
            &&& final(ctx).state() is Fresh
            &&& final(manager)@ == old(manager)@
            &&& final(manager).joins() == old(manager).joins()
        }),
{
    if string_eq_lit(&ctx.payload.name, "ping") {
        match PingCommand::handle(ctx) {
            Ok(a) => Ok(CommandOutcome::Completed(a)),
            Err(e) => Err(e),
        }
    } else if string_eq_lit(&ctx.payload.name, "music") {
        MusicCommand::handle(ctx, manager)
    } else {
        Err(CommandError::UnknownCommand(ctx.payload.name.clone()))
    }
}

/// The router's catch policy: when a handler failed and no terminal reply
/// went out yet, decide a best-effort failure reply carrying the error's
/// message (a create if nothing was sent, an edit if the invocation was
/// deferred). Once a reply is out, nothing is sent — the failure is only for
/// the log.
pub fn respond_failure(ctx: &mut CommandContext, error: &CommandError) -> (r: Option<SendAction>)
    ensures
        final(ctx).same_request(*old(ctx)),
        old(ctx).state() is Replied ==> r is None && final(ctx).state() is Replied,
        old(ctx).state() is Fresh ==> ({
            &&& r matches Some(a) && a matches SendAction::CreateMessage(c) && is_failure_content(
                c,
                *error,
            )
            &&& final(ctx).state() is Replied
        }),
        old(ctx).state() is Deferred ==> ({
            &&& r matches Some(a) && a matches SendAction::EditMessage(c) && is_failure_content(
                c,
                *error,
            )
            &&& final(ctx).state() is Replied
        }),
{
    match ctx.current_state() {
        ResponderState::Replied => None,
        _ => {
            let content = failure_content(error);
            match ctx.reply(content) {
                Ok(a) => Some(a),
                Err(_) => None,
            }
        },
    }
}

} // verus!
