//! Per-guild voice sessions and their track queues.
//!
//! [`VoiceSessionManager`] maps a guild id to at most one active session and
//! is the only place that hands out session handles, centralizing the
//! locking discipline: the caller serializes access to the manager (one
//! guild-spanning lock, or the surrounding runtime's mutex), and every queue
//! mutation goes through it. `get_or_join` is join-or-get-existing: it never
//! creates a second session for a guild, so callers racing on the same guild
//! converge on one handle and one join request. `get` is the non-creating
//! lookup used by control commands, which must fail explicitly instead of
//! joining as a side effect.
//!
//! The manager only decides: when `get_or_join` allocates a session it
//! reports `joined == true`, and the caller performs the actual channel join
//! for that handle. Teardown (`remove_session`) drops the guild's entry, so
//! a later `get_or_join` re-creates from scratch.
//!
//! Fairness note for callers: serializing access guarantees that no queue
//! mutation is lost, but not FIFO order — two invocations racing on the same
//! guild enqueue in lock-acquisition order, not request-arrival order.

use std::collections::HashMap;

use vstd::prelude::*;

use crate::error::CommandError;

verus! {

broadcast use vstd::std_specs::hash::group_hash_axioms;

/// One enqueued (or now-playing) audio source, as resolved metadata.
#[derive(Debug)]
pub struct Track {
    pub title: Option<String>,
    pub artist: Option<String>,
    pub source_url: Option<String>,
    pub thumbnail: Option<String>,
}

/// The mathematical model of a track queue: the pending tracks in order and
/// one play/paused flag for the whole queue (not per track).
#[verifier::ext_equal]
pub struct QueueModel {
    pub tracks: Seq<Track>,
    pub paused: bool,
}

impl QueueModel {
    /// A just-created queue: nothing pending, not paused.
    pub open spec fn empty() -> QueueModel {
        QueueModel { tracks: Seq::empty(), paused: false }
    }

    /// The same queue with the play/paused flag set to `paused`.
    pub open spec fn with_paused(self, paused: bool) -> QueueModel {
        QueueModel { paused, ..self }
    }

    /// The same queue with `track` appended.
    pub open spec fn with_track(self, track: Track) -> QueueModel {
        QueueModel { tracks: self.tracks.push(track), ..self }
    }

    /// Whether the queue is playing (not paused).
    pub open spec fn is_playing(self) -> bool {
        !self.paused
    }
}

/// The ordered queue of audio sources for one voice session.
#[derive(Debug)]
pub struct TrackQueue {
    tracks: Vec<Track>,
    paused: bool,
}

impl View for TrackQueue {
    type V = QueueModel;

    closed spec fn view(&self) -> QueueModel {
        QueueModel { tracks: self.tracks@, paused: self.paused }
    }
}

impl TrackQueue {
    /// An empty, playing queue.
    pub fn new() -> (q: TrackQueue)
        ensures
            q@ == QueueModel::empty(),
    {
        TrackQueue { tracks: Vec::new(), paused: false }
    }

    /// Appends a track at the end of the queue.
    pub fn enqueue(&mut self, track: Track)
        ensures
            final(self)@ == old(self)@.with_track(track),
    {
        self.tracks.push(track);
    }

    /// Pauses playback for the whole queue.
    pub fn pause(&mut self)
        ensures
            final(self)@ == old(self)@.with_paused(true),
    {
        self.paused = true;
    }

    /// Resumes playback for the whole queue.
    pub fn resume(&mut self)
        ensures
            final(self)@ == old(self)@.with_paused(false),
    {
        self.paused = false;
    }

    /// The number of tracks in the queue.
    pub fn len(&self) -> (n: usize)
        ensures
            n == self@.tracks.len(),
    {
        self.tracks.len()
    }

    /// Whether the queue is playing (not paused).
    pub fn is_playing(&self) -> (b: bool)
        ensures
            b == self@.is_playing(),
    {
        !self.paused
    }
}

/// Law: pausing and then resuming returns a playing queue exactly to its
/// pre-pause state; the tracks are untouched throughout.
pub proof fn lemma_pause_resume_round_trip(q: QueueModel)
    requires
        q.is_playing(),
    ensures
        q.with_paused(true).with_paused(false) == q,
        q.with_paused(true).tracks == q.tracks,
{
}

/// The mathematical model of one guild's session.
#[verifier::ext_equal]
pub struct SessionModel {
    /// The voice channel the session was created for.
    pub channel_id: u64,
    /// The shared handle under which callers address this session.
    pub handle: u64,
    /// The session's track queue.
    pub queue: QueueModel,
}

impl SessionModel {
    /// The session a fresh join creates: an empty playing queue.
    pub open spec fn fresh(channel_id: u64, handle: u64) -> SessionModel {
        SessionModel { channel_id, handle, queue: QueueModel::empty() }
    }

    /// The same session with its queue flag set.
    pub open spec fn with_paused(self, paused: bool) -> SessionModel {
        SessionModel { queue: self.queue.with_paused(paused), ..self }
    }

    /// The same session with `track` appended to its queue.
    pub open spec fn with_track(self, track: Track) -> SessionModel {
        SessionModel { queue: self.queue.with_track(track), ..self }
    }
}

/// One guild's active voice session.
#[derive(Debug)]
struct VoiceSession {
    channel_id: u64,
    handle: u64,
    queue: TrackQueue,
}

impl View for VoiceSession {
    type V = SessionModel;

    closed spec fn view(&self) -> SessionModel {
        SessionModel { channel_id: self.channel_id, handle: self.handle, queue: self.queue@ }
    }
}

/// What `get_or_join` reports back: the session handle to address the
/// guild's call under, and whether a join request must be performed because
/// the session was created just now.
#[derive(Clone, Copy, Debug, PartialEq, Eq, Structural)]
pub struct JoinOutcome {
    pub handle: u64,
    pub joined: bool,
}

/// The state `get_or_join` steps over: the guild-to-session map and the
/// count of joins performed so far (the source of fresh handles).
#[verifier::ext_equal]
pub struct JoinStep {
    pub sessions: Map<u64, SessionModel>,
    pub joins: int,
    pub handle: u64,
    pub joined: bool,
}

/// What `get_or_join` does: an existing session is returned as is; otherwise
/// exactly one fresh session is created for the guild, with a handle no
/// earlier session ever had.
pub open spec fn get_or_join_step(
    sessions: Map<u64, SessionModel>,
    joins: int,
    guild_id: u64,
    channel_id: u64,
) -> JoinStep {
    if sessions.contains_key(guild_id) {
        JoinStep { sessions, joins, handle: sessions[guild_id].handle, joined: false }
    } else {
        let handle = joins as u64;
        JoinStep {
            sessions: sessions.insert(guild_id, SessionModel::fresh(channel_id, handle)),
            joins: joins + 1,
            handle,
            joined: true,
        }
    }
}

/// Law: callers racing on the same guild converge on a single session. Once
/// one `get_or_join` has resolved, a second `get_or_join` for the same guild
/// observes the very same handle, performs no further join, and leaves the
/// manager unchanged — whatever channel it asked for.
pub proof fn lemma_get_or_join_converges(
    sessions: Map<u64, SessionModel>,
    joins: int,
    guild_id: u64,
    channel_id1: u64,
    channel_id2: u64,
)
    ensures
        ({
            let first = get_or_join_step(sessions, joins, guild_id, channel_id1);
            let second = get_or_join_step(first.sessions, first.joins, guild_id, channel_id2);
            &&& second.handle == first.handle
            &&& !second.joined
            &&& second.sessions == first.sessions
            &&& second.joins == first.joins
        }),
{
}

/// Maps each guild id to at most one active voice session.
#[derive(Debug)]
pub struct VoiceSessionManager {
    sessions: HashMap<u64, VoiceSession>,
    next_handle: u64,
}

impl View for VoiceSessionManager {
    type V = Map<u64, SessionModel>;

    closed spec fn view(&self) -> Map<u64, SessionModel> {
        self.sessions@.map_values(|s: VoiceSession| s@)
    }
}

impl VoiceSessionManager {
    /// How many joins this manager has performed; also the next fresh handle.
    pub closed spec fn joins(self) -> u64 {
        self.next_handle
    }

    /// Every stored handle was allocated by this manager, so the next fresh
    /// handle differs from all of them.
    pub closed spec fn wf(self) -> bool {
        forall|g: u64| #[trigger] self@.contains_key(g) ==> self@[g].handle < self.next_handle
    }

    /// How many joins this manager has performed, for callers outside the
    /// proof that must test the join-capacity precondition.
    pub fn join_count(&self) -> (n: u64)
        ensures
            n == self.joins(),
    {
        self.next_handle
    }

    /// A manager with no sessions.
    pub fn new() -> (m: VoiceSessionManager)
        ensures
            m@ == Map::<u64, SessionModel>::empty(),
            m.wf(),
            m.joins() == 0,
    {
        let m = VoiceSessionManager { sessions: HashMap::new(), next_handle: 0 };
        proof {
            assert(m@ =~= Map::<u64, SessionModel>::empty());
        }
        m
    }

    /// Join-or-get-existing, exactly as [`get_or_join_step`] says: returns
    /// the guild's session handle, creating the session first if the guild
    /// had none. When (and only when) `joined` is reported, the caller must
    /// perform the platform join of `channel_id` for that handle.
    pub fn get_or_join(&mut self, guild_id: u64, channel_id: u64) -> (r: JoinOutcome)
        requires
            old(self).wf(),
            old(self).joins() < u64::MAX,
        ensures
            final(self).wf(),
            ({
                let step = get_or_join_step(
                    old(self)@,
                    old(self).joins() as int,
                    guild_id,
                    channel_id,
                );
                &&& final(self)@ == step.sessions
                &&& final(self).joins() == step.joins
                &&& r.handle == step.handle
                &&& r.joined == step.joined
            }),
    {
        match self.sessions.get(&guild_id) {
            Some(session) => {
                proof {
                    assert(self@.contains_key(guild_id));
                    assert(self@[guild_id] == session@);
                }
                JoinOutcome { handle: session.handle, joined: false }
            },
            None => {
                proof {
                    assert(!self@.contains_key(guild_id));
                }
                let handle = self.next_handle;
                self.next_handle = self.next_handle + 1;
                let session = VoiceSession { channel_id, handle, queue: TrackQueue::new() };
                self.sessions.insert(guild_id, session);
                proof {
                    assert(self@ =~= old(self)@.insert(
                        guild_id,
                        SessionModel::fresh(channel_id, handle),
                    ));
                }
                JoinOutcome { handle, joined: true }
            },
        }
    }

    /// Non-creating lookup: the guild's session handle, if one is active.
    pub fn get(&self, guild_id: u64) -> (r: Option<u64>)
        ensures
            match r {
                Some(handle) => self@.contains_key(guild_id) && handle == self@[guild_id].handle,
                None => !self@.contains_key(guild_id),
            },
    {
        match self.sessions.get(&guild_id) {
            Some(session) => {
                proof {
                    assert(self@.contains_key(guild_id));
                    assert(self@[guild_id] == session@);
                }
                Some(session.handle)
            },
            None => None,
        }
    }

    /// Appends a track to the guild's queue, failing explicitly when the
    /// guild has no active session.
    pub fn enqueue(&mut self, guild_id: u64, track: Track) -> (r: Result<(), CommandError>)
        requires
            old(self).wf(),
        ensures
            final(self).wf(),
            final(self).joins() == old(self).joins(),
            old(self)@.contains_key(guild_id) ==> r is Ok && final(self)@ == old(self)@.insert(
                guild_id,
                old(self)@[guild_id].with_track(track),
            ),
            !old(self)@.contains_key(guild_id) ==> r == Err::<(), CommandError>(
                CommandError::NoActiveSession,
            ) && final(self)@ == old(self)@,
    {
        match self.sessions.remove(&guild_id) {
            Some(mut session) => {
                session.queue.enqueue(track);
                self.sessions.insert(guild_id, session);
                proof {
                    assert(self@ =~= old(self)@.insert(
                        guild_id,
                        old(self)@[guild_id].with_track(track),
                    ));
                    assert forall|g: u64| #[trigger] self@.contains_key(g) implies self@[g].handle
                        < self.next_handle by {
                        if g != guild_id {
                            assert(old(self)@.contains_key(g));
                        }
                    }
                }
                Ok(())
            },
            None => {
                proof {
                    assert(self@ =~= old(self)@);
                }
                Err(CommandError::NoActiveSession)
            },
        }
    }

    /// Pauses the guild's queue, failing explicitly (and mutating nothing)
    /// when the guild has no active session.
    pub fn pause(&mut self, guild_id: u64) -> (r: Result<(), CommandError>)
        requires
            old(self).wf(),
        ensures
            final(self).wf(),
            final(self).joins() == old(self).joins(),
            old(self)@.contains_key(guild_id) ==> r is Ok && final(self)@ == old(self)@.insert(
                guild_id,
                old(self)@[guild_id].with_paused(true),
            ),
            !old(self)@.contains_key(guild_id) ==> r == Err::<(), CommandError>(
                CommandError::NoActiveSession,
            ) && final(self)@ == old(self)@,
    {
        match self.sessions.remove(&guild_id) {
            Some(mut session) => {
                session.queue.pause();
                self.sessions.insert(guild_id, session);
                proof {
                    assert(self@ =~= old(self)@.insert(
                        guild_id,
                        old(self)@[guild_id].with_paused(true),
                    ));
                    assert forall|g: u64| #[trigger] self@.contains_key(g) implies self@[g].handle
                        < self.next_handle by {
                        if g != guild_id {
                            assert(old(self)@.contains_key(g));
                        }
                    }
                }
                Ok(())
            },
            None => {
                proof {
                    assert(self@ =~= old(self)@);
                }
                Err(CommandError::NoActiveSession)
            },
        }
    }

    /// Resumes the guild's queue, failing explicitly (and mutating nothing)
    /// when the guild has no active session.
    pub fn resume(&mut self, guild_id: u64) -> (r: Result<(), CommandError>)
        requires
            old(self).wf(),
        ensures
            final(self).wf(),
            final(self).joins() == old(self).joins(),
            old(self)@.contains_key(guild_id) ==> r is Ok && final(self)@ == old(self)@.insert(
                guild_id,
                old(self)@[guild_id].with_paused(false),
            ),
            !old(self)@.contains_key(guild_id) ==> r == Err::<(), CommandError>(
                CommandError::NoActiveSession,
            ) && final(self)@ == old(self)@,
    {
        match self.sessions.remove(&guild_id) {
            Some(mut session) => {
                session.queue.resume();
                self.sessions.insert(guild_id, session);
                proof {
                    assert(self@ =~= old(self)@.insert(
                        guild_id,
                        old(self)@[guild_id].with_paused(false),
                    ));
                    assert forall|g: u64| #[trigger] self@.contains_key(g) implies self@[g].handle
                        < self.next_handle by {
                        if g != guild_id {
                            assert(old(self)@.contains_key(g));
                        }
                    }
                }
                Ok(())
            },
            None => {
                proof {
                    assert(self@ =~= old(self)@);
                }
                Err(CommandError::NoActiveSession)
            },
        }
    }

    /// Session teardown on disconnect/leave: drops the guild's entry, so a
    /// later `get_or_join` re-creates from scratch.
    pub fn remove_session(&mut self, guild_id: u64) -> (had: bool)
        requires
            old(self).wf(),
        ensures
            final(self).wf(),
            final(self).joins() == old(self).joins(),
            final(self)@ == old(self)@.remove(guild_id),
            had == old(self)@.contains_key(guild_id),
    {
        match self.sessions.remove(&guild_id) {
            Some(_) => {
                proof {
                    assert(self@ =~= old(self)@.remove(guild_id));
                }
                true
            },
            None => {
                proof {
                    assert(self@ =~= old(self)@.remove(guild_id));
                }
                false
            },
        }
    }

    /// The number of tracks in the guild's queue, if a session is active.
    pub fn queue_len(&self, guild_id: u64) -> (r: Option<usize>)
        ensures
            match r {
                Some(n) => self@.contains_key(guild_id) && n == self@[guild_id].queue.tracks.len(),
                None => !self@.contains_key(guild_id),
            },
    {
        match self.sessions.get(&guild_id) {
            Some(session) => {
                proof {
                    assert(self@.contains_key(guild_id));
                    assert(self@[guild_id] == session@);
                }
                Some(session.queue.len())
            },
            None => None,
        }
    }

    /// Whether the guild's queue is playing, if a session is active.
    pub fn is_playing(&self, guild_id: u64) -> (r: Option<bool>)
        ensures
            match r {
                Some(b) => self@.contains_key(guild_id) && b == self@[guild_id].queue.is_playing(),
                None => !self@.contains_key(guild_id),
            },
    {
        match self.sessions.get(&guild_id) {
            Some(session) => {
                proof {
                    assert(self@.contains_key(guild_id));
                    assert(self@[guild_id] == session@);
                }
                Some(session.queue.is_playing())
            },
            None => None,
        }
    }
}

} // verus!
