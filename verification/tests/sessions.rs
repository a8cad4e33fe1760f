//! The voice-session manager and the music handlers: one session per guild,
//! join-or-get-existing, the precondition chains, and the queue round trips.

use jukebot::error::CommandError;
use jukebot::interaction::{
    handle_command, CommandContext, CommandOutcome, CommandPayload, Interaction,
};
use jukebot::message::SendAction;
use jukebot::music::{MusicPause, MusicPlay, MusicResume, SourceQuery};
use jukebot::responder::ResponderState;
use jukebot::session::{Track, VoiceSessionManager};

const GUILD: u64 = 9;
const CHANNEL: u64 = 5;

fn interaction(guild_id: Option<u64>) -> Interaction {
    Interaction { id: 1, token: String::from("token"), user_id: 7, guild_id }
}

fn play_payload(query: &str) -> CommandPayload {
    CommandPayload {
        name: String::from("music"),
        sub: Some(String::from("play")),
        query: Some(String::from(query)),
    }
}

fn music_payload(sub: &str) -> CommandPayload {
    CommandPayload { name: String::from("music"), sub: Some(String::from(sub)), query: None }
}

fn track(title: &str) -> Track {
    Track {
        title: Some(String::from(title)),
        artist: Some(String::from("The Band")),
        source_url: Some(String::from("https://example/track")),
        thumbnail: None,
    }
}

#[test]
fn get_or_join_converges_on_one_handle() {
    let mut manager = VoiceSessionManager::new();
    let first = manager.get_or_join(GUILD, CHANNEL);
    assert!(first.joined);
    let second = manager.get_or_join(GUILD, CHANNEL);
    assert!(!second.joined);
    assert_eq!(second.handle, first.handle);
    assert_eq!(manager.get(GUILD), Some(first.handle));
}

#[test]
fn sessions_are_per_guild() {
    let mut manager = VoiceSessionManager::new();
    let a = manager.get_or_join(1, CHANNEL);
    let b = manager.get_or_join(2, CHANNEL);
    assert!(a.joined);
    assert!(b.joined);
    assert_ne!(a.handle, b.handle);
    assert_eq!(manager.get(3), None);
}

#[test]
fn removed_session_is_recreated_from_scratch() {
    let mut manager = VoiceSessionManager::new();
    let first = manager.get_or_join(GUILD, CHANNEL);
    assert!(manager.remove_session(GUILD));
    assert_eq!(manager.get(GUILD), None);
    let second = manager.get_or_join(GUILD, CHANNEL);
    assert!(second.joined);
    assert_ne!(second.handle, first.handle);
}

#[test]
fn pause_without_session_mutates_nothing() {
    let mut manager = VoiceSessionManager::new();
    let result = manager.pause(GUILD);
    assert!(matches!(result, Err(CommandError::NoActiveSession)));
    assert_eq!(manager.get(GUILD), None);
}

#[test]
fn pause_command_without_session_fails() {
    let mut ctx = CommandContext::new(interaction(Some(GUILD)), music_payload("pause"), None);
    let mut manager = VoiceSessionManager::new();
    let outcome = handle_command(&mut ctx, &mut manager);
    assert!(matches!(outcome, Err(CommandError::NoActiveSession)));
    assert_eq!(ctx.current_state(), ResponderState::Fresh);
    assert_eq!(manager.get(GUILD), None);
}

#[test]
fn pause_resume_round_trip_restores_playing() {
    let mut manager = VoiceSessionManager::new();
    manager.get_or_join(GUILD, CHANNEL);
    manager.enqueue(GUILD, track("Song")).expect("session exists");
    assert_eq!(manager.is_playing(GUILD), Some(true));
    manager.pause(GUILD).expect("session exists");
    assert_eq!(manager.is_playing(GUILD), Some(false));
    manager.resume(GUILD).expect("session exists");
    assert_eq!(manager.is_playing(GUILD), Some(true));
    assert_eq!(manager.queue_len(GUILD), Some(1));
}

#[test]
fn play_requires_guild() {
    let mut ctx = CommandContext::new(interaction(None), play_payload("some song"), Some(CHANNEL));
    let mut manager = VoiceSessionManager::new();
    let outcome = handle_command(&mut ctx, &mut manager);
    assert!(matches!(outcome, Err(CommandError::NotInGuild)));
    assert_eq!(ctx.current_state(), ResponderState::Fresh);
}

#[test]
fn play_without_voice_channel_creates_no_session() {
    let mut ctx = CommandContext::new(
        interaction(Some(GUILD)),
        play_payload("https://example/track"),
        None,
    );
    let mut manager = VoiceSessionManager::new();
    let outcome = handle_command(&mut ctx, &mut manager);
    assert!(matches!(outcome, Err(CommandError::NotInVoiceChannel)));
    assert_eq!(manager.get(GUILD), None);
    assert_eq!(ctx.current_state(), ResponderState::Fresh);
}

#[test]
fn play_defers_joins_and_classifies_url() {
    let mut ctx = CommandContext::new(
        interaction(Some(GUILD)),
        play_payload("https://example/track"),
        Some(CHANNEL),
    );
    let mut manager = VoiceSessionManager::new();
    let outcome = handle_command(&mut ctx, &mut manager);
    let start = match outcome {
        Ok(CommandOutcome::SourcePending(start)) => start,
        _ => panic!("play with its preconditions met owes a source lookup"),
    };
    assert!(matches!(start.ack, SendAction::CreateDeferred));
    assert_eq!(start.guild_id, GUILD);
    assert_eq!(start.channel_id, CHANNEL);
    assert!(start.joined);
    match start.source {
        SourceQuery::DirectUrl(url) => assert_eq!(url, String::from("https://example/track")),
        SourceQuery::Search(_) => panic!("an http query is fetched directly, not searched"),
    }
    assert_eq!(ctx.current_state(), ResponderState::Deferred);
    assert_eq!(manager.get(GUILD), Some(start.handle));
}

#[test]
fn play_classifies_search_terms() {
    let mut ctx = CommandContext::new(
        interaction(Some(GUILD)),
        play_payload("never gonna give"),
        Some(CHANNEL),
    );
    let mut manager = VoiceSessionManager::new();
    let outcome = handle_command(&mut ctx, &mut manager);
    let start = match outcome {
        Ok(CommandOutcome::SourcePending(start)) => start,
        _ => panic!("play with its preconditions met owes a source lookup"),
    };
    match start.source {
        SourceQuery::Search(term) => assert_eq!(term, String::from("never gonna give")),
        SourceQuery::DirectUrl(_) => panic!("a plain term is searched, not fetched"),
    }
}

#[test]
fn play_finish_enqueues_and_edits() {
    let play = MusicPlay { query: String::from("https://example/track") };
    let mut ctx = CommandContext::new(
        interaction(Some(GUILD)),
        play_payload("https://example/track"),
        Some(CHANNEL),
    );
    let mut manager = VoiceSessionManager::new();
    let start = play.run(&mut ctx, &mut manager).expect("preconditions met");
    let reply = play.finish(&mut ctx, &mut manager, start.guild_id, track("Song"));
    match reply {
        Ok(SendAction::EditMessage(content)) => {
            let embed = content.embed.expect("play success carries an embed");
            assert_eq!(embed.title, String::from(":white_check_mark: `/play` - Success"));
            assert_eq!(
                embed.description,
                Some(String::from(
                    "Artist: **The Band**\nTitle: [`Song`](https://example/track)"
                ))
            );
            assert!(embed.image_url.is_none());
        }
        _ => panic!("a finished play edits the deferred placeholder"),
    }
    assert_eq!(manager.queue_len(GUILD), Some(1));
    assert_eq!(ctx.current_state(), ResponderState::Replied);
}

#[test]
fn play_finish_carries_thumbnail() {
    let play = MusicPlay { query: String::from("https://example/track") };
    let mut ctx = CommandContext::new(
        interaction(Some(GUILD)),
        play_payload("https://example/track"),
        Some(CHANNEL),
    );
    let mut manager = VoiceSessionManager::new();
    play.run(&mut ctx, &mut manager).expect("preconditions met");
    let mut with_thumb = track("Song");
    with_thumb.thumbnail = Some(String::from("https://example/thumb.png"));
    let reply = play.finish(&mut ctx, &mut manager, GUILD, with_thumb);
    match reply {
        Ok(SendAction::EditMessage(content)) => {
            let embed = content.embed.expect("play success carries an embed");
            assert_eq!(embed.image_url, Some(String::from("https://example/thumb.png")));
        }
        _ => panic!("a finished play edits the deferred placeholder"),
    }
}

#[test]
fn play_finish_without_session_fails() {
    let play = MusicPlay { query: String::from("https://example/track") };
    let mut ctx = CommandContext::new(
        interaction(Some(GUILD)),
        play_payload("https://example/track"),
        Some(CHANNEL),
    );
    ctx.defer();
    let mut manager = VoiceSessionManager::new();
    let reply = play.finish(&mut ctx, &mut manager, GUILD, track("Song"));
    assert!(matches!(reply, Err(CommandError::NoActiveSession)));
    assert_eq!(manager.queue_len(GUILD), None);
}

#[test]
fn two_plays_both_enqueue() {
    let mut manager = VoiceSessionManager::new();
    let play_one = MusicPlay { query: String::from("https://example/one") };
    let play_two = MusicPlay { query: String::from("https://example/two") };
    let mut ctx_one = CommandContext::new(
        interaction(Some(GUILD)),
        play_payload("https://example/one"),
        Some(CHANNEL),
    );
    let mut ctx_two = CommandContext::new(
        interaction(Some(GUILD)),
        play_payload("https://example/two"),
        Some(CHANNEL),
    );
    let start_one = play_one.run(&mut ctx_one, &mut manager).expect("preconditions met");
    let start_two = play_two.run(&mut ctx_two, &mut manager).expect("preconditions met");
    assert!(start_one.joined);
    assert!(!start_two.joined);
    assert_eq!(start_two.handle, start_one.handle);
    play_one
        .finish(&mut ctx_one, &mut manager, GUILD, track("One"))
        .expect("session exists");
    play_two
        .finish(&mut ctx_two, &mut manager, GUILD, track("Two"))
        .expect("session exists");
    assert_eq!(manager.queue_len(GUILD), Some(2));
    assert_eq!(ctx_one.current_state(), ResponderState::Replied);
    assert_eq!(ctx_two.current_state(), ResponderState::Replied);
}

#[test]
fn routed_pause_reports_queue_toggle() {
    let mut manager = VoiceSessionManager::new();
    manager.get_or_join(GUILD, CHANNEL);
    let mut ctx = CommandContext::new(interaction(Some(GUILD)), music_payload("pause"), None);
    let outcome = handle_command(&mut ctx, &mut manager);
    match outcome {
        Ok(CommandOutcome::QueueToggled { guild_id, paused, action }) => {
            assert_eq!(guild_id, GUILD);
            assert!(paused);
            assert!(matches!(action, SendAction::CreateMessage(_)));
        }
        _ => panic!("a routed pause reports the queue toggle to perform"),
    }
    assert_eq!(manager.is_playing(GUILD), Some(false));
    assert_eq!(ctx.current_state(), ResponderState::Replied);
}

#[test]
fn pause_command_replies_success() {
    let mut manager = VoiceSessionManager::new();
    manager.get_or_join(GUILD, CHANNEL);
    let pause = MusicPause;
    let mut ctx = CommandContext::new(interaction(Some(GUILD)), music_payload("pause"), None);
    let reply = pause.run(&mut ctx, &mut manager);
    match reply {
        Ok(SendAction::CreateMessage(content)) => {
            let embed = content.embed.expect("pause success carries an embed");
            assert_eq!(embed.title, String::from(":white_check_mark: `/pause` - Success"));
            assert!(embed.description.is_none());
        }
        _ => panic!("pause with a session replies with a create"),
    }
    assert_eq!(manager.is_playing(GUILD), Some(false));
}

#[test]
fn resume_command_replies_success() {
    let mut manager = VoiceSessionManager::new();
    manager.get_or_join(GUILD, CHANNEL);
    manager.pause(GUILD).expect("session exists");
    let resume = MusicResume;
    let mut ctx = CommandContext::new(interaction(Some(GUILD)), music_payload("resume"), None);
    let reply = resume.run(&mut ctx, &mut manager);
    match reply {
        Ok(SendAction::CreateMessage(content)) => {
            let embed = content.embed.expect("resume success carries an embed");
            assert_eq!(embed.title, String::from(":white_check_mark: `/resume` - Success"));
        }
        _ => panic!("resume with a session replies with a create"),
    }
    assert_eq!(manager.is_playing(GUILD), Some(true));
}

#[test]
fn resume_without_guild_fails() {
    let resume = MusicResume;
    let mut ctx = CommandContext::new(interaction(None), music_payload("resume"), None);
    let mut manager = VoiceSessionManager::new();
    let reply = resume.run(&mut ctx, &mut manager);
    assert!(matches!(reply, Err(CommandError::NotInGuild)));
}

#[test]
fn description_defaults_absent_metadata_to_empty() {
    let play = MusicPlay { query: String::from("https://example/track") };
    let mut ctx = CommandContext::new(
        interaction(Some(GUILD)),
        play_payload("https://example/track"),
        Some(CHANNEL),
    );
    let mut manager = VoiceSessionManager::new();
    play.run(&mut ctx, &mut manager).expect("preconditions met");
    let bare = Track { title: None, artist: None, source_url: None, thumbnail: None };
    let reply = play.finish(&mut ctx, &mut manager, GUILD, bare);
    match reply {
        Ok(SendAction::EditMessage(content)) => {
            let embed = content.embed.expect("play success carries an embed");
            assert_eq!(embed.description, Some(String::from("Artist: ****\nTitle: [``]()")));
        }
        _ => panic!("a finished play edits the deferred placeholder"),
    }
}
