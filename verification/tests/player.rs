use std::collections::VecDeque;

use clef::ids::SongId;
use clef::media_controls::Playback;
use clef::player::{
    AudioAction, AudioEffects, AudioMessage, OpenPurpose, PacketRead, Player, PlayerState,
    PreloadedInfo, QueuedSong, SeekPurpose, SeekTarget, Step,
};
use clef::queue::Queue;
use clef::track::{TimeBase, TrackInfo};

fn song(id: i32, path: &str, title: Option<&str>) -> QueuedSong {
    QueuedSong {
        id: SongId::new(id),
        path: path.to_string(),
        title: title.map(|t| t.to_string()),
        artist: None,
        album_title: None,
        resized_art: None,
        duration: None,
    }
}

fn state_with(queue: Queue<QueuedSong>, track_info: TrackInfo, playing: bool, timestamp: u64) -> PlayerState {
    PlayerState {
        playing,
        seek_ts: None,
        track_info,
        queue,
        timestamp,
        preloaded: None,
        has_output: true,
    }
}

fn untimed() -> TrackInfo {
    TrackInfo { id: 0, time_base: None, duration: None }
}

fn timed() -> TrackInfo {
    // one timestamp per millisecond, a minute long
    TrackInfo { id: 0, time_base: Some(TimeBase::new(1, 1000)), duration: Some(60_000) }
}

fn done(step: Step<f32>) -> AudioEffects {
    match step {
        Step::Done(Ok(effects)) => effects,
        other => panic!("expected a finished step, got {other:?}"),
    }
}

/// Plays on from `state` until the end of the current file.
fn run_to_end_of_file(player_state: PlayerState) -> AudioEffects {
    let state = match Player::begin::<f32>(Some(player_state), None) {
        Step::ReadPacket { state } => state,
        other => panic!("expected to read a packet, got {other:?}"),
    };
    let state = match Player::after_read::<f32>(state, PacketRead::EndOfStream) {
        Step::Flush { state } => state,
        other => panic!("expected to flush the output, got {other:?}"),
    };
    done(Player::after_flush::<f32>(state))
}

#[test]
fn player_continue_playing_doesnt_crash_for_eof() {
    let track_info = TrackInfo { id: 0, time_base: None, duration: None };

    let current = QueuedSong {
        id: SongId::new(1),
        path: "fake".to_string(),
        title: Some("current song".to_string()),
        artist: None,
        album_title: None,
        resized_art: None,
        duration: None,
    };
    let queue = Queue { current, previous: Default::default(), next: Default::default() };

    let player_state = PlayerState {
        playing: true,
        seek_ts: None,
        track_info,
        queue,
        timestamp: 0,
        preloaded: None,
        has_output: true,
    };

    let effects = run_to_end_of_file(player_state);

    assert!(matches!(effects.player_state, None));
    assert!(matches!(effects.audio_message, Some(AudioMessage::DisplayUpdate(None))));
}

#[test]
fn continue_playing_doesnt_crash_for_eof() {
    let track_info = TrackInfo { id: 0, time_base: None, duration: None };

    let queue = Queue {
        previous: Default::default(),
        current: song(1, "fake", None),
        next: Default::default(),
    };

    let player_state = state_with(queue, track_info, true, 0);

    let effects = run_to_end_of_file(player_state);

    assert!(matches!(effects.player_state, None));
    assert!(matches!(effects.audio_message, Some(AudioMessage::DisplayUpdate(None))));
}

#[test]
fn end_of_file_moves_on_to_the_next_song() {
    let queue = Queue {
        previous: vec![],
        current: song(1, "a.mp3", None),
        next: VecDeque::from(vec![song(2, "b.mp3", None)]),
    };
    let state = state_with(queue, untimed(), true, 0);
    let state = match Player::after_read::<f32>(state, PacketRead::EndOfStream) {
        Step::Flush { state } => state,
        other => panic!("unexpected {other:?}"),
    };
    match Player::after_flush::<f32>(state) {
        Step::Open { queue, purpose } => {
            assert_eq!(queue.current.id, SongId::new(2));
            assert_eq!(queue.previous.len(), 1);
            assert_eq!(purpose, OpenPurpose::Switch { playing: true });
        }
        other => panic!("unexpected {other:?}"),
    }
}

#[test]
fn pause_and_play_publish_the_new_state() {
    let queue = Queue { previous: vec![], current: song(1, "a.mp3", Some("A")), next: VecDeque::new() };
    let state = state_with(queue, timed(), true, 5_000);
    let effects = done(Player::begin::<f32>(Some(state), Some(AudioAction::Pause)));
    let paused = effects.player_state.clone().unwrap();
    assert!(!paused.playing);
    match effects.audio_message {
        Some(AudioMessage::DisplayUpdate(Some(display))) => {
            assert!(!display.playing);
            assert_eq!(display.times.elapsed, 5);
            assert_eq!(display.times.remaining, 55);
            assert_eq!(display.times.total, 60);
        }
        other => panic!("unexpected {other:?}"),
    }
    assert_eq!(effects.playback, Some(Playback::Paused { progress: Some(5) }));
    assert_eq!(effects.metadata.unwrap().title.as_deref(), Some("A"));

    let effects = done(Player::begin::<f32>(Some(paused.clone()), Some(AudioAction::Pause)));
    assert_eq!(effects.player_state, Some(paused.clone()));
    assert!(effects.audio_message.is_none());

    let effects = done(Player::begin::<f32>(Some(paused), Some(AudioAction::PlayPaused)));
    assert!(effects.player_state.unwrap().playing);
}

#[test]
fn a_stopped_player_ignores_actions() {
    for action in [AudioAction::Pause, AudioAction::PlayPaused, AudioAction::Toggle, AudioAction::Forward, AudioAction::Back, AudioAction::Seek(0.5f32)] {
        let effects = done(Player::begin::<f32>(None, Some(action)));
        assert!(effects.player_state.is_none());
        assert!(effects.audio_message.is_none());
    }
}

#[test]
fn forward_at_the_end_of_the_queue_stops() {
    let queue = Queue { previous: vec![], current: song(1, "a.mp3", None), next: VecDeque::new() };
    let effects = done(Player::begin::<f32>(Some(state_with(queue, untimed(), true, 0)), Some(AudioAction::Forward)));
    assert!(effects.player_state.is_none());
    assert!(matches!(effects.audio_message, Some(AudioMessage::DisplayUpdate(None))));
}

#[test]
fn back_near_the_start_goes_to_the_previous_song() {
    let queue = Queue {
        previous: vec![song(1, "a.mp3", None)],
        current: song(2, "b.mp3", None),
        next: VecDeque::new(),
    };
    match Player::begin::<f32>(Some(state_with(queue.clone(), timed(), false, 1_500)), Some(AudioAction::Back)) {
        Step::Open { queue, purpose } => {
            assert_eq!(queue.current.id, SongId::new(1));
            assert_eq!(queue.next.len(), 1);
            assert_eq!(purpose, OpenPurpose::Switch { playing: false });
        }
        other => panic!("unexpected {other:?}"),
    }
    match Player::begin::<f32>(Some(state_with(queue, timed(), false, 2_000)), Some(AudioAction::Back)) {
        Step::Seek { target, state, purpose } => {
            assert!(matches!(target, SeekTarget::Start));
            assert_eq!(state.queue.current.id, SongId::new(2));
            assert_eq!(purpose, SeekPurpose::Restart);
        }
        other => panic!("unexpected {other:?}"),
    }
}

#[test]
fn a_failed_read_stops_with_its_message() {
    let queue = Queue { previous: vec![], current: song(1, "a.mp3", None), next: VecDeque::new() };
    match Player::after_read::<f32>(state_with(queue, untimed(), true, 0), PacketRead::Failed("boom".to_string())) {
        Step::Done(Err(clef::player::AudioThreadError::Other(msg))) => {
            assert_eq!(msg, "error reading next packet: boom")
        }
        other => panic!("unexpected {other:?}"),
    }
}

#[test]
fn forward_uses_the_preloaded_song_only_when_it_is_the_next_one() {
    let queue = Queue {
        previous: vec![],
        current: song(1, "a.mp3", None),
        next: VecDeque::from(vec![song(2, "dir/b.mp3", None)]),
    };
    let mut state = state_with(queue, untimed(), true, 0);
    state.preloaded = Some(PreloadedInfo { path: "dir/b.mp3".to_string(), track_info: timed() });
    match Player::begin::<f32>(Some(state.clone()), Some(AudioAction::Forward)) {
        Step::AdoptPreloaded { queue, preloaded, playing } => {
            assert_eq!(queue.current.id, SongId::new(2));
            assert_eq!(preloaded.path, "dir/b.mp3");
            assert!(playing);
        }
        other => panic!("unexpected {other:?}"),
    }
    state.preloaded = Some(PreloadedInfo { path: "dir/c.mp3".to_string(), track_info: timed() });
    assert!(matches!(
        Player::begin::<f32>(Some(state), Some(AudioAction::Forward)),
        Step::Open { .. }
    ));
}

#[test]
fn back_then_forward_returns_to_the_same_queue() {
    let queue = Queue {
        previous: vec![song(1, "a.mp3", None)],
        current: song(2, "b.mp3", None),
        next: VecDeque::from(vec![song(3, "c.mp3", None)]),
    };
    let back = match Player::begin::<f32>(Some(state_with(queue.clone(), untimed(), true, 0)), Some(AudioAction::Back)) {
        Step::Open { queue, .. } => queue,
        other => panic!("unexpected {other:?}"),
    };
    assert_eq!(back.current.id, SongId::new(1));
    match Player::begin::<f32>(Some(state_with(back, untimed(), true, 0)), Some(AudioAction::Forward)) {
        Step::Open { queue: forward, .. } => assert_eq!(forward, queue),
        other => panic!("unexpected {other:?}"),
    }
}
