//! The interaction-response protocol state machine.
//!
//! One [`InteractionResponder`] is attached 1:1 to one inbound interaction.
//! It enforces the platform's "defer-then-update XOR reply-once" contract on
//! the client side: `Fresh -> Deferred` on an explicit early acknowledgment,
//! `Fresh -> Replied` or `Deferred -> Replied` on the terminal reply, and no
//! transition out of `Replied`. The responder only decides; the returned
//! [`SendAction`] is performed by the caller, whose send failures are
//! surfaced there and never retried.

use vstd::prelude::*;

use crate::error::CommandError;
use crate::message::{ReplyContent, SendAction};

verus! {

/// Where one interaction stands in the response protocol.
#[derive(Clone, Copy, Debug, PartialEq, Eq, Structural)]
pub enum ResponderState {
    /// Nothing has been sent yet.
    Fresh,
    /// The early acknowledgment went out; the terminal reply is owed.
    Deferred,
    /// The terminal reply went out; no further send is legal.
    Replied,
}

/// What `defer` does: the early acknowledgment moves a fresh responder to
/// `Deferred` and asks for the deferred-response create call.
pub open spec fn defer_step(s: ResponderState) -> (ResponderState, SendAction)
    recommends
        s is Fresh,
{
    (ResponderState::Deferred, SendAction::CreateDeferred)
}

/// What `reply` does, for every state and content. A second terminal reply
/// always fails with `AlreadyReplied`; content with no payload fails with
/// `EmptyResponse`; otherwise a fresh responder sends a direct response and a
/// deferred one edits its placeholder, and either ends in `Replied`.
pub open spec fn reply_step(s: ResponderState, content: ReplyContent) -> (ResponderState, Result<
    SendAction,
    CommandError,
>) {
    match s {
        ResponderState::Replied => (s, Err(CommandError::AlreadyReplied)),
        ResponderState::Fresh => if content.has_payload() {
            (ResponderState::Replied, Ok(SendAction::CreateMessage(content)))
        } else {
            (s, Err(CommandError::EmptyResponse))
        },
        ResponderState::Deferred => if content.has_payload() {
            (ResponderState::Replied, Ok(SendAction::EditMessage(content)))
        } else {
            (s, Err(CommandError::EmptyResponse))
        },
    }
}

/// The state machine wrapping one inbound command invocation.
#[derive(Debug)]
pub struct InteractionResponder {
    state: ResponderState,
}

impl InteractionResponder {
    /// The protocol state this responder is in.
    pub closed spec fn state(self) -> ResponderState {
        self.state
    }

    /// A responder for a just-received interaction.
    pub fn new() -> (r: InteractionResponder)
        ensures
            r.state() is Fresh,
    {
        InteractionResponder { state: ResponderState::Fresh }
    }

    /// The protocol state, for callers outside the proof.
    pub fn current_state(&self) -> (s: ResponderState)
        ensures
            s == self.state(),
    {
        self.state
    }

    /// Decides the early acknowledgment. Legal only while nothing has been
    /// sent; the caller must perform the returned create call.
    pub fn defer(&mut self) -> (a: SendAction)
        requires
            old(self).state() is Fresh,
        ensures
            (final(self).state(), a) == defer_step(old(self).state()),
    {
        self.state = ResponderState::Deferred;
        SendAction::CreateDeferred
    }

    /// Decides the terminal reply, exactly as [`reply_step`] says.
    pub fn reply(&mut self, content: ReplyContent) -> (r: Result<SendAction, CommandError>)
        ensures
            (final(self).state(), r) == reply_step(old(self).state(), content),
    {
        match self.state {
            ResponderState::Replied => Err(CommandError::AlreadyReplied),
            ResponderState::Fresh => {
                if content.payload_present() {
                    self.state = ResponderState::Replied;
                    Ok(SendAction::CreateMessage(content))
                } else {
                    Err(CommandError::EmptyResponse)
                }
            },
            ResponderState::Deferred => {
                if content.payload_present() {
                    self.state = ResponderState::Replied;
                    Ok(SendAction::EditMessage(content))
                } else {
                    Err(CommandError::EmptyResponse)
                }
            },
        }
    }
}

/// Law: exactly one terminal reply succeeds. A first reply on a fresh
/// responder with renderable content is accepted; once any reply has been
/// accepted the responder is `Replied`, and every further reply attempt is
/// refused with `AlreadyReplied`, changes nothing, and produces no send
/// action.
pub proof fn lemma_reply_at_most_once(s0: ResponderState, c1: ReplyContent, c2: ReplyContent)
    ensures
        s0 is Fresh && c1.has_payload() ==> reply_step(s0, c1).1 is Ok,
        ({
            let (s1, r1) = reply_step(s0, c1);
            let (s2, r2) = reply_step(s1, c2);
            r1 is Ok ==> {
                &&& s1 is Replied
                &&& r2 == Err::<SendAction, CommandError>(CommandError::AlreadyReplied)
                &&& s2 == s1
            }
        }),
{
}

/// Law: a deferred acknowledgment followed by a terminal reply always
/// produces an edit of the placeholder, never a second create call.
pub proof fn lemma_defer_then_reply_edits(c: ReplyContent)
    requires
        c.has_payload(),
    ensures
        ({
            let (s1, ack) = defer_step(ResponderState::Fresh);
            let (s2, r) = reply_step(s1, c);
            &&& ack is CreateDeferred
            &&& r == Ok::<SendAction, CommandError>(SendAction::EditMessage(c))
            &&& s2 is Replied
        }),
{
}

} // verus!
