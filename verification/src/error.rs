//! The failure taxonomy of command handling.
//!
//! Precondition failures (`NotInGuild`, `NotInVoiceChannel`,
//! `NoActiveSession`) are user-facing and their message is shown verbatim in
//! the reply. Protocol violations (`AlreadyReplied`, `EmptyResponse`) are
//! programmer errors that must fail loudly. `MalformedPayload` and
//! `UnknownCommand` are schema/dispatch mismatches. `UpstreamFailure` carries
//! the message of a rejected platform call or a failed source lookup.

use vstd::prelude::*;
use vstd::string::StringExecFns;

verus! {

/// Why handling one command invocation failed.
#[derive(Debug)]
pub enum CommandError {
    /// The interaction did not originate from a guild.
    NotInGuild,
    /// The invoking user has no resolvable voice channel.
    NotInVoiceChannel,
    /// A control command targeted a guild with no active voice session.
    NoActiveSession,
    /// A terminal reply had already been sent for this interaction.
    AlreadyReplied,
    /// A reply was requested with no renderable content.
    EmptyResponse,
    /// The command payload does not match the registered schema.
    MalformedPayload,
    /// The command (or subcommand) name is not in the schema.
    UnknownCommand(String),
    /// The platform or the source provider rejected a call.
    UpstreamFailure(String),
}

impl CommandError {
    /// The user-facing message for this error.
    pub open spec fn message_view(self) -> Seq<char> {
        match self {
            CommandError::NotInGuild => "You must be in a guild to execute this command!"@,
            CommandError::NotInVoiceChannel => "You must be in a voice channel to execute this command!"@,
            CommandError::NoActiveSession => "There is no active voice session in this guild!"@,
            CommandError::AlreadyReplied => "A reply was already sent for this interaction"@,
            CommandError::EmptyResponse => "Response data is None"@,
            CommandError::MalformedPayload => "failed to parse command data"@,
            CommandError::UnknownCommand(name) => "unknown command: "@ + name@,
            CommandError::UpstreamFailure(message) => message@,
        }
    }

    /// True for the errors whose message is meant for the invoking user.
    pub open spec fn is_precondition_failure(self) -> bool {
        match self {
            CommandError::NotInGuild => true,
            CommandError::NotInVoiceChannel => true,
            CommandError::NoActiveSession => true,
            _ => false,
        }
    }

    /// True for the programmer errors of the response protocol.
    pub open spec fn is_protocol_violation(self) -> bool {
        match self {
            CommandError::AlreadyReplied => true,
            CommandError::EmptyResponse => true,
            _ => false,
        }
    }

    /// Renders the user-facing message.
    pub fn message(&self) -> (m: String)
        ensures
            m@ == self.message_view(),
    {
        match self {
            CommandError::NotInGuild => String::from_str(
                "You must be in a guild to execute this command!",
            ),
            CommandError::NotInVoiceChannel => String::from_str(
                "You must be in a voice channel to execute this command!",
            ),
            CommandError::NoActiveSession => String::from_str(
                "There is no active voice session in this guild!",
            ),
            CommandError::AlreadyReplied => String::from_str(
                "A reply was already sent for this interaction",
            ),
            CommandError::EmptyResponse => String::from_str("Response data is None"),
            CommandError::MalformedPayload => String::from_str("failed to parse command data"),
            CommandError::UnknownCommand(name) => {
                let m = String::from_str("unknown command: ");
                m.concat(name.as_str())
            },
            CommandError::UpstreamFailure(message) => message.clone(),
        }
    }
}

} // verus!
