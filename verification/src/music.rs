//! The music command group: play, pause, resume.
//!
//! Every handler encodes the same fail-fast precondition chain: resolve the
//! guild, resolve what the command needs (the invoking user's voice channel
//! for play; an active session for pause and resume), acquire the session,
//! mutate the queue, and decide the terminal reply. Pause and resume only
//! require a session for the guild, not that the invoking user is currently
//! in a voice channel — an explicit policy choice: a control command on an
//! already-running session should not demand the controller's presence.
//!
//! Play has a source lookup in the middle: the handler decides everything up
//! to the lookup ([`MusicPlay::run`]), the driver resolves the query against
//! the source provider, and [`MusicPlay::finish`] enqueues the resolved
//! track and decides the reply. Resolution failure fails the whole command:
//! no partial enqueue-without-confirmation.

use vstd::prelude::*;
use vstd::string::{StrSliceExecFns, StringExecFns};

use crate::error::CommandError;
use crate::interaction::{string_eq_lit, CommandContext, CommandOutcome, CommandPayload};
use crate::message::{Embed, ReplyContent, SendAction};
use crate::responder::ResponderState;
use crate::session::{get_or_join_step, SessionModel, Track, VoiceSessionManager};

verus! {

/// Whether a query is fetched as a direct URL rather than searched: the
/// original's rule, a query that starts with `http`.
pub open spec fn is_direct_url(q: Seq<char>) -> bool {
    q.len() >= 4 && q[0] == 'h' && q[1] == 't' && q[2] == 't' && q[3] == 'p'
}

/// How the driver must resolve a play query against the source provider.
#[derive(Debug)]
pub enum SourceQuery {
    /// Fetch this URL as a direct source.
    DirectUrl(String),
    /// Treat this as a search term.
    Search(String),
}

/// Everything the driver must do to carry a play command forward: send the
/// deferred acknowledgment, perform the join request if the session was
/// created just now, resolve the source, then call [`MusicPlay::finish`].
#[derive(Debug)]
pub struct PlayStart {
    /// The deferred acknowledgment to send first.
    pub ack: SendAction,
    /// The guild whose session the command addresses.
    pub guild_id: u64,
    /// The invoking user's voice channel, the join target.
    pub channel_id: u64,
    /// The session handle the guild's call is addressed under.
    pub handle: u64,
    /// Whether the session was created just now, owing a platform join.
    pub joined: bool,
    /// How to resolve the query.
    pub source: SourceQuery,
}

/// The text of one optional metadata field, empty when absent.
pub open spec fn opt_text(o: Option<String>) -> Seq<char> {
    match o {
        Some(s) => s@,
        None => Seq::empty(),
    }
}

/// The success reply's description: artist, then title linked to the source.
pub open spec fn play_description(t: Track) -> Seq<char> {
    "Artist: **"@ + opt_text(t.artist) + "**\nTitle: [`"@ + opt_text(t.title) + "`]("@ + opt_text(
        t.source_url,
    ) + ")"@
}

/// What the play success reply carries: one embed describing the enqueued
/// track, with its thumbnail when there is one.
pub open spec fn is_play_success_content(c: ReplyContent, t: Track) -> bool {
    &&& c.text is None
    &&& c.embed matches Some(e) && ({
        &&& e.title@ == ":white_check_mark: `/play` - Success"@
        &&& e.description matches Some(d) && d@ == play_description(t)
        &&& e.image_url == t.thumbnail
    })
}

/// What the pause success reply carries.
pub open spec fn is_pause_success_content(c: ReplyContent) -> bool {
    &&& c.text is None
    &&& c.embed matches Some(e) && ({
        &&& e.title@ == ":white_check_mark: `/pause` - Success"@
        &&& e.description is None
        &&& e.image_url is None
    })
}

/// What the resume success reply carries.
pub open spec fn is_resume_success_content(c: ReplyContent) -> bool {
    &&& c.text is None
    &&& c.embed matches Some(e) && ({
        &&& e.title@ == ":white_check_mark: `/resume` - Success"@
        &&& e.description is None
        &&& e.image_url is None
    })
}

/// What a successful `MusicPlay::run` has done and reported, over the
/// session-manager step it took.
pub open spec fn play_start_ok(
    q: Seq<char>,
    guild_id: u64,
    channel_id: u64,
    m0: Map<u64, SessionModel>,
    j0: int,
    m1: Map<u64, SessionModel>,
    j1: int,
    start: PlayStart,
) -> bool {
    let step = get_or_join_step(m0, j0, guild_id, channel_id);
    &&& start.ack is CreateDeferred
    &&& start.guild_id == guild_id
    &&& start.channel_id == channel_id
    &&& start.handle == step.handle
    &&& start.joined == step.joined
    &&& m1 == step.sessions
    &&& j1 == step.joins
    &&& is_direct_url(q) ==> (start.source matches SourceQuery::DirectUrl(u) && u@ == q)
    &&& !is_direct_url(q) ==> (start.source matches SourceQuery::Search(u) && u@ == q)
}

/// What a successful pause has done: the guild had a session, its queue flag
/// was set, and the reply is the pause success embed.
pub open spec fn pause_ok(
    guild_id: u64,
    m0: Map<u64, SessionModel>,
    m1: Map<u64, SessionModel>,
    a: SendAction,
) -> bool {
    &&& m0.contains_key(guild_id)
    &&& m1 == m0.insert(guild_id, m0[guild_id].with_paused(true))
    &&& a matches SendAction::CreateMessage(c) && is_pause_success_content(c)
}

/// What a successful resume has done.
pub open spec fn resume_ok(
    guild_id: u64,
    m0: Map<u64, SessionModel>,
    m1: Map<u64, SessionModel>,
    a: SendAction,
) -> bool {
    &&& m0.contains_key(guild_id)
    &&& m1 == m0.insert(guild_id, m0[guild_id].with_paused(false))
    &&& a matches SendAction::CreateMessage(c) && is_resume_success_content(c)
}

/// The play subcommand: resolve a query to an audio source and enqueue it.
#[derive(Debug)]
pub struct MusicPlay {
    /// Search term or direct URL to find the song/video with.
    pub query: String,
}

/// The pause subcommand. It has no parameters.
#[derive(Debug)]
pub struct MusicPause;

/// The resume subcommand. It has no parameters.
#[derive(Debug)]
pub struct MusicResume;

/// The music command group, a closed sum over its subcommands.
#[derive(Debug)]
pub enum MusicCommand {
    Play(MusicPlay),
    Pause(MusicPause),
    Resume(MusicResume),
}

/// What parsing the music payload yields, mirroring the schema: `play` needs
/// its query option, `pause` and `resume` stand alone, any other subcommand
/// name is unknown, and a missing subcommand is a malformed payload.
pub open spec fn music_parse_post(
    sub: Option<Seq<char>>,
    query: Option<Seq<char>>,
    r: Result<MusicCommand, CommandError>,
) -> bool {
    match sub {
        None => r == Err::<MusicCommand, CommandError>(CommandError::MalformedPayload),
        Some(s) => if s == "play"@ {
            match query {
                None => r == Err::<MusicCommand, CommandError>(CommandError::MalformedPayload),
                Some(q) => r matches Ok(c) && c matches MusicCommand::Play(p) && p.query@ == q,
            }
        } else if s == "pause"@ {
            r matches Ok(c) && c matches MusicCommand::Pause(_)
        } else if s == "resume"@ {
            r matches Ok(c) && c matches MusicCommand::Resume(_)
        } else {
            r matches Err(e) && e matches CommandError::UnknownCommand(n) && n@ == s
        },
    }
}

/// What `MusicCommand::handle` leaves behind, for every payload and every
/// manager state: the parse decision of [`music_parse_post`] composed with
/// the dispatched handler's own outcome.
pub open spec fn music_handle_post(
    ctx0: CommandContext,
    s1: ResponderState,
    m0: Map<u64, SessionModel>,
    j0: int,
    m1: Map<u64, SessionModel>,
    j1: int,
    r: Result<CommandOutcome, CommandError>,
) -> bool {
    let guild = ctx0.interaction.guild_id;
    let vc = ctx0.voice_channel;
    let untouched = s1 is Fresh && m1 == m0 && j1 == j0;
    match ctx0.payload.sub_view() {
        None => untouched && r == Err::<CommandOutcome, CommandError>(
            CommandError::MalformedPayload,
        ),
        Some(s) => if s == "play"@ {
            match ctx0.payload.query_view() {
                None => untouched && r == Err::<CommandOutcome, CommandError>(
                    CommandError::MalformedPayload,
                ),
                Some(q) => match r {
                    Ok(o) => ({
                        &&& o matches CommandOutcome::SourcePending(start)
                        &&& guild matches Some(g) && vc matches Some(c) && play_start_ok(
                            q,
                            g,
                            c,
                            m0,
                            j0,
                            m1,
                            j1,
                            start,
                        )
                        &&& s1 is Deferred
                    }),
                    Err(e) => untouched && ({
                        if guild is None {
                            e is NotInGuild
                        } else if vc is None {
                            e is NotInVoiceChannel
                        } else {
                            false
                        }
                    }),
                },
            }
        } else if s == "pause"@ {
            match r {
                Ok(o) => ({
                    &&& o matches CommandOutcome::QueueToggled { guild_id: g2, paused, action: a }
                    &&& guild matches Some(g) && g2 == g && pause_ok(g, m0, m1, a)
                    &&& paused == true
                    &&& j1 == j0
                    &&& s1 is Replied
                }),
                Err(e) => untouched && ({
                    if guild is None {
                        e is NotInGuild
                    } else if guild matches Some(g) && !m0.contains_key(g) {
                        e is NoActiveSession
                    } else {
                        false
                    }
                }),
            }
        } else if s == "resume"@ {
            match r {
                Ok(o) => ({
                    &&& o matches CommandOutcome::QueueToggled { guild_id: g2, paused, action: a }
                    &&& guild matches Some(g) && g2 == g && resume_ok(g, m0, m1, a)
                    &&& paused == false
                    &&& j1 == j0
                    &&& s1 is Replied
                }),
                Err(e) => untouched && ({
                    if guild is None {
                        e is NotInGuild
                    } else if guild matches Some(g) && !m0.contains_key(g) {
                        e is NoActiveSession
                    } else {
                        false
                    }
                }),
            }
        } else {
            ({
                &&& untouched
                &&& r matches Err(e) && e matches CommandError::UnknownCommand(n) && n@ == s
            })
        },
    }
}

/// Decides whether the query is a direct URL or a search term.
fn classify_query(query: &String) -> (r: SourceQuery)
    ensures
        ({
            &&& is_direct_url(query@) ==> (r matches SourceQuery::DirectUrl(u) && u@ == query@)
            &&& !is_direct_url(query@) ==> (r matches SourceQuery::Search(u) && u@ == query@)
        }),
{
    let s = query.as_str();
    let direct = s.unicode_len() >= 4 && s.get_char(0) == 'h' && s.get_char(1) == 't'
        && s.get_char(2) == 't' && s.get_char(3) == 'p';
    if direct {
        SourceQuery::DirectUrl(query.clone())
    } else {
        SourceQuery::Search(query.clone())
    }
}

/// Clones one optional metadata field.
fn clone_opt_string(o: &Option<String>) -> (r: Option<String>)
    ensures
        r == *o,
{
    match o {
        Some(s) => Some(s.clone()),
        None => None,
    }
}

/// Appends one optional metadata field, or nothing when it is absent.
fn append_opt_text(d: &mut String, o: &Option<String>)
    ensures
        final(d)@ == old(d)@ + opt_text(*o),
{
    match o {
        Some(s) => d.append(s.as_str()),
        None => {
            proof {
                assert(d@ + opt_text(*o) =~= d@);
            }
        },
    }
}

/// Renders the success reply's description for a resolved track.
fn build_play_description(track: &Track) -> (d: String)
    ensures
        d@ == play_description(*track),
{
    let mut d = String::from_str("Artist: **");
    append_opt_text(&mut d, &track.artist);
    d.append("**\nTitle: [`");
    append_opt_text(&mut d, &track.title);
    d.append("`](");
    append_opt_text(&mut d, &track.source_url);
    d.append(")");
    proof {
        assert(d@ =~= play_description(*track));
    }
    d
}

/// Builds the success reply for a resolved track.
fn play_success_content(track: &Track) -> (c: ReplyContent)
    ensures
        is_play_success_content(c, *track),
{
    ReplyContent::from_embed(
        Embed {
            title: String::from_str(":white_check_mark: `/play` - Success"),
            description: Some(build_play_description(track)),
            image_url: clone_opt_string(&track.thumbnail),
        },
    )
}

impl MusicPlay {
    /// The first half of play, everything up to the source lookup: the
    /// precondition chain (guild, then the invoking user's voice channel),
    /// the deferred acknowledgment, and join-or-get of the guild's session.
    /// Succeeds exactly when the invocation is in a guild and the user has a
    /// voice channel.
    pub fn run(&self, ctx: &mut CommandContext, manager: &mut VoiceSessionManager) -> (r: Result<
        PlayStart,
        CommandError,
    >)
        requires
            old(ctx).state() is Fresh,
            old(manager).wf(),
            old(manager).joins() < u64::MAX,
        ensures
            final(manager).wf(),
            final(ctx).same_request(*old(ctx)),
            match r {
                Ok(start) => ({
                    &&& old(ctx).interaction.guild_id matches Some(g) && old(
                        ctx,
                    ).voice_channel matches Some(c) && play_start_ok(
                        self.query@,
                        g,
                        c,
                        old(manager)@,
                        old(manager).joins() as int,
                        final(manager)@,
                        final(manager).joins() as int,
                        start,
                    )
                    &&& final(ctx).state() is Deferred
                }),
                Err(e) => ({
                    &&& final(manager)@ == old(manager)@
                    &&& final(manager).joins() == old(manager).joins()
                    &&& final(ctx).state() is Fresh
                    &&& if old(ctx).interaction.guild_id is None {
                        e is NotInGuild
                    } else if old(ctx).voice_channel is None {
                        e is NotInVoiceChannel
                    } else {
                        false
                    }
                }),
            },
    {
        let guild_id = match ctx.interaction.guild_id {
            Some(g) => g,
            None => {
                return Err(CommandError::NotInGuild);
            },
        };
        let channel_id = match ctx.voice_channel {
            Some(c) => c,
            None => {
                return Err(CommandError::NotInVoiceChannel);
            },
        };
        let ack = ctx.defer();
        let outcome = manager.get_or_join(guild_id, channel_id);
        let source = classify_query(&self.query);
        Ok(
            PlayStart {
                ack,
                guild_id,
                channel_id,
                handle: outcome.handle,
                joined: outcome.joined,
                source,
            },
        )
    }

    /// The second half of play, once the driver has resolved the source:
    /// enqueue the track and decide the reply — an edit of the deferred
    /// placeholder, describing the track. Fails only if the session vanished
    /// (torn down) between the two halves, and then mutates nothing.
    pub fn finish(
        &self,
        ctx: &mut CommandContext,
        manager: &mut VoiceSessionManager,
        guild_id: u64,
        track: Track,
    ) -> (r: Result<SendAction, CommandError>)
        requires
            old(ctx).state() is Deferred,
            old(manager).wf(),
        ensures
            final(manager).wf(),
            final(ctx).same_request(*old(ctx)),
            final(manager).joins() == old(manager).joins(),
            match r {
                Ok(a) => ({
                    &&& old(manager)@.contains_key(guild_id)
                    &&& a matches SendAction::EditMessage(c) && is_play_success_content(c, track)
                    &&& final(manager)@ == old(manager)@.insert(
                        guild_id,
                        old(manager)@[guild_id].with_track(track),
                    )
                    &&& final(ctx).state() is Replied
                }),
                Err(e) => ({
                    &&& final(manager)@ == old(manager)@
                    &&& final(ctx).state() is Deferred
                    &&& if !old(manager)@.contains_key(guild_id) {
                        e is NoActiveSession
                    } else {
                        false
                    }
                }),
            },
    {
        let content = play_success_content(&track);
        match manager.enqueue(guild_id, track) {
            Ok(()) => {},
            Err(e) => {
                return Err(e);
            },
        }
        match ctx.reply(content) {
            Ok(a) => Ok(a),
            Err(e) => Err(e),
        }
    }
}

impl MusicPause {
    /// Pauses the guild's queue. The precondition chain: a guild, then an
    /// active session — pausing never joins a channel as a side effect, and
    /// on `NoActiveSession` nothing is mutated.
    pub fn run(&self, ctx: &mut CommandContext, manager: &mut VoiceSessionManager) -> (r: Result<
        SendAction,
        CommandError,
    >)
        requires
            old(ctx).state() is Fresh,
            old(manager).wf(),
        ensures
            final(manager).wf(),
            final(ctx).same_request(*old(ctx)),
            final(manager).joins() == old(manager).joins(),
            match r {
                Ok(a) => ({
                    &&& old(ctx).interaction.guild_id matches Some(g) && pause_ok(
                        g,
                        old(manager)@,
                        final(manager)@,
                        a,
                    )
                    &&& final(ctx).state() is Replied
                }),
                Err(e) => ({
                    &&& final(manager)@ == old(manager)@
                    &&& final(ctx).state() is Fresh
                    &&& if old(ctx).interaction.guild_id is None {
                        e is NotInGuild
                    } else if old(ctx).interaction.guild_id matches Some(g) && !old(
                        manager,
                    )@.contains_key(g) {
                        e is NoActiveSession
                    } else {
                        false
                    }
                }),
            },
    {
        let guild_id = match ctx.interaction.guild_id {
            Some(g) => g,
            None => {
                return Err(CommandError::NotInGuild);
            },
        };
        match manager.pause(guild_id) {
            Ok(()) => {},
            Err(e) => {
                return Err(e);
            },
        }
        let content = ReplyContent::from_embed(
            Embed {
                title: String::from_str(":white_check_mark: `/pause` - Success"),
                description: None,
                image_url: None,
            },
        );
        match ctx.reply(content) {
            Ok(a) => Ok(a),
            Err(e) => Err(e),
        }
    }
}

impl MusicResume {
    /// Resumes the guild's queue, under the same precondition chain and
    /// no-session behaviour as pause.
    pub fn run(&self, ctx: &mut CommandContext, manager: &mut VoiceSessionManager) -> (r: Result<
        SendAction,
        CommandError,
    >)
        requires
            old(ctx).state() is Fresh,
            old(manager).wf(),
        ensures
            final(manager).wf(),
            final(ctx).same_request(*old(ctx)),
            final(manager).joins() == old(manager).joins(),
            match r {
                Ok(a) => ({
                    &&& old(ctx).interaction.guild_id matches Some(g) && resume_ok(
                        g,
                        old(manager)@,
                        final(manager)@,
                        a,
                    )
                    &&& final(ctx).state() is Replied
                }),
                Err(e) => ({
                    &&& final(manager)@ == old(manager)@
                    &&& final(ctx).state() is Fresh
                    &&& if old(ctx).interaction.guild_id is None {
                        e is NotInGuild
                    } else if old(ctx).interaction.guild_id matches Some(g) && !old(
                        manager,
                    )@.contains_key(g) {
                        e is NoActiveSession
                    } else {
                        false
                    }
                }),
            },
    {
        let guild_id = match ctx.interaction.guild_id {
            Some(g) => g,
            None => {
                return Err(CommandError::NotInGuild);
            },
        };
        match manager.resume(guild_id) {
            Ok(()) => {},
            Err(e) => {
                return Err(e);
            },
        }
        let content = ReplyContent::from_embed(
            Embed {
                title: String::from_str(":white_check_mark: `/resume` - Success"),
                description: None,
                image_url: None,
            },
        );
        match ctx.reply(content) {
            Ok(a) => Ok(a),
            Err(e) => Err(e),
        }
    }
}

impl MusicCommand {
    /// Parses the music payload against the schema, as
    /// [`music_parse_post`] says.
    pub fn from_payload(payload: &CommandPayload) -> (r: Result<MusicCommand, CommandError>)
        ensures
            music_parse_post(payload.sub_view(), payload.query_view(), r),
    {
        let sub = match &payload.sub {
            Some(s) => s,
            None => {
                return Err(CommandError::MalformedPayload);
            },
        };
        if string_eq_lit(sub, "play") {
            match &payload.query {
                Some(q) => Ok(MusicCommand::Play(MusicPlay { query: q.clone() })),
                None => Err(CommandError::MalformedPayload),
            }
        } else if string_eq_lit(sub, "pause") {
            Ok(MusicCommand::Pause(MusicPause))
        } else if string_eq_lit(sub, "resume") {
            Ok(MusicCommand::Resume(MusicResume))
        } else {
            Err(CommandError::UnknownCommand(sub.clone()))
        }
    }

    /// Parses the payload and dispatches to the matching subcommand handler,
    /// as [`music_handle_post`] says.
    pub fn handle(ctx: &mut CommandContext, manager: &mut VoiceSessionManager) -> (r: Result<
        CommandOutcome,
        CommandError,
    >)
        requires
            old(ctx).state() is Fresh,
            old(manager).wf(),
            old(manager).joins() < u64::MAX,
        ensures
            final(manager).wf(),
            final(ctx).same_request(*old(ctx)),
            music_handle_post(
                *old(ctx),
                final(ctx).state(),
                old(manager)@,
                old(manager).joins() as int,
                final(manager)@,
                final(manager).joins() as int,
                r,
            ),
    {
        let command = match MusicCommand::from_payload(&ctx.payload) {
            Ok(c) => c,
            Err(e) => {
                return Err(e);
            },
        };
        match command {
            MusicCommand::Play(play) => match play.run(ctx, manager) {
                Ok(start) => Ok(CommandOutcome::SourcePending(start)),
                Err(e) => Err(e),
            },
            MusicCommand::Pause(pause) => match pause.run(ctx, manager) {
                Ok(a) => {
                    let guild_id = match ctx.interaction.guild_id {
                        Some(g) => g,
                        None => unreached(),
                    };
                    Ok(CommandOutcome::QueueToggled { guild_id, paused: true, action: a })
                },
                Err(e) => Err(e),
            },
            MusicCommand::Resume(resume) => match resume.run(ctx, manager) {
                Ok(a) => {
                    let guild_id = match ctx.interaction.guild_id {
                        Some(g) => g,
                        None => unreached(),
                    };
                    Ok(CommandOutcome::QueueToggled { guild_id, paused: false, action: a })
                },
                Err(e) => Err(e),
            },
        }
    }
}

} // verus!
