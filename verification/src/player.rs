//! The audio player's decisions: what each action from the ui, and each result of decoding,
//! does to the player's state, and what the player publishes.
//!
//! The player is driven step by step. `Player::begin` takes the player's state and the next
//! action (or none, to keep playing) and gives a `Step`: either the step is done, or it names
//! the file, seek or audio work that the caller must do, together with what to call with the
//! result. Every step ends in `Step::Done`.
use vstd::prelude::*;

use crate::ids::SongId;
use crate::media_controls::{ControlsMetadata, Playback};
use crate::paths::{paths_equal, same_path};
use crate::preloader::PreloaderAction;
use crate::queue::Queue;
use crate::text::{clone_text, concat, file_url, file_url_of};
use crate::track::{ProgressTimes, TimeBase, TrackInfo};

verus! {

/// A song in the play queue, with what the media controls show of it.
#[derive(Debug, Clone, PartialEq, Eq)]
pub struct QueuedSong {
    pub id: SongId,
    pub path: String,
    pub title: Option<String>,
    pub artist: Option<String>,
    pub album_title: Option<String>,
    pub resized_art: Option<String>,
    /// The song's length in whole seconds.
    pub duration: Option<u64>,
}

/// A message to the audio player from the ui. `P` is the ui's representation of a position
/// within a song, a proportion between 0 and 1; the player only hands it on.
#[derive(Debug, Clone, PartialEq)]
pub enum AudioAction<P> {
    /// Begin playing the current song of the queue immediately,
    /// and continue with the rest of the queue when it ends
    PlayQueue(Box<Queue<QueuedSong>>),
    /// Pause the currently playing song, if any
    Pause,
    /// Play the currently paused song, if any
    PlayPaused,
    /// Swap between play/pause based on current state
    Toggle,
    /// Seek to a position of the current song, if any
    Seek(P),
    /// Play the next track, if any, or transition to stopped
    Forward,
    /// Seek to the beginning of the current song,
    /// or if near it already, go back a track in the queue, if possible
    Back,
}

/// What the ui shows of the player.
#[derive(Debug, Clone, Copy, PartialEq, Eq, Structural)]
pub struct PlayerDisplay {
    pub song_id: SongId,
    pub playing: bool,
    pub times: ProgressTimes,
}

/// A message to the ui from the audio player.
#[derive(Debug, Clone, Copy, PartialEq, Eq, Structural)]
pub enum AudioMessage {
    /// A change that affects ui state; None = player stopped
    DisplayUpdate(Option<PlayerDisplay>),
    /// The first update after a seek request from the ui
    SeekComplete(PlayerDisplay),
    /// The audio thread died
    AudioDied,
}

/// Why the audio player stopped.
#[derive(Debug, Clone, PartialEq, Eq)]
pub enum AudioThreadError {
    /// The ui is gone.
    Disconnected,
    /// An unrecoverable audio error.
    Other(String),
}

/// The next song, decoded ahead of time by the preloader.
#[derive(Debug, Clone, PartialEq, Eq)]
pub struct PreloadedInfo {
    pub path: String,
    pub track_info: TrackInfo,
}

/// The state of a player that has a current song. A stopped player has none.
#[derive(Debug, Clone, PartialEq, Eq)]
pub struct PlayerState {
    /// false = paused
    pub playing: bool,
    /// The timestamp that a seek is heading for, until playback reaches it.
    pub seek_ts: Option<u64>,
    pub track_info: TrackInfo,
    pub queue: Queue<QueuedSong>,
    /// The timestamp of the last packet played.
    pub timestamp: u64,
    /// The next song, when the preloader has decoded it.
    pub preloaded: Option<PreloadedInfo>,
    /// Whether an audio output is open.
    pub has_output: bool,
}

/// What one step of the player produced.
#[derive(Debug)]
pub struct AudioEffects {
    /// The new player state; None = stopped
    pub player_state: Option<PlayerState>,
    /// ui message to send
    pub audio_message: Option<AudioMessage>,
    /// metadata to publish to media controls
    pub metadata: Option<ControlsMetadata>,
    /// playback & progress to publish to media controls
    pub playback: Option<Playback>,
    /// what the preloader should load next
    pub preload: Option<PreloaderAction>,
}

/// Why a file is opened for playing.
#[derive(Debug, Clone, Copy, PartialEq, Eq, Structural)]
pub enum OpenPurpose {
    /// A new queue from the ui: play it, and preload the song after the current one.
    PlayQueue,
    /// Moving forward or back in the queue: keep playing or paused as before.
    Switch { playing: bool },
}

/// Where to seek.
#[derive(Debug, Clone, Copy, PartialEq)]
pub enum SeekTarget<P> {
    /// The start of the song.
    Start,
    /// The given proportion of a song of `duration` timestamps.
    Proportion { proportion: P, time_base: TimeBase, duration: u64 },
}

/// Why a seek is made.
#[derive(Debug, Clone, Copy, PartialEq, Eq, Structural)]
pub enum SeekPurpose {
    /// The ui asked for it: publish it as a completed seek.
    Requested,
    /// Going back to the start of the song: the position becomes zero.
    Restart,
}

/// Reading the next packet of the current song.
#[derive(Debug, Clone, PartialEq, Eq)]
pub enum PacketRead {
    /// A packet with this timestamp.
    Packet(u64),
    /// The normal end of the file.
    EndOfStream,
    /// Any other read error.
    Failed(String),
}

/// Decoding the packet that was read.
#[derive(Debug, Clone, PartialEq, Eq)]
pub enum Decoding {
    Decoded,
    /// A decode error that is not fatal: the packet is skipped.
    Skipped,
    /// Any other decode error.
    Failed(String),
}

/// One step of the player: done, or waiting for the caller to do some work and report back.
#[derive(Debug)]
pub enum Step<P> {
    Done(Result<AudioEffects, AudioThreadError>),
    /// Open the current song of `queue` for decoding, then call `Player::after_open`.
    Open { queue: Queue<QueuedSong>, purpose: OpenPurpose },
    /// Make the preloaded decoder the current one, then call `Player::after_adopt`.
    AdoptPreloaded { queue: Queue<QueuedSong>, preloaded: PreloadedInfo, playing: bool },
    /// Seek the current decoder, then call `Player::after_seek` with the timestamp reached.
    Seek { target: SeekTarget<P>, state: PlayerState, purpose: SeekPurpose },
    /// Read the next packet, then call `Player::after_read`.
    ReadPacket { state: PlayerState },
    /// Flush the audio output, then call `Player::after_flush`.
    Flush { state: PlayerState },
    /// Decode the packet just read, then call `Player::after_decode`.
    Decode { state: PlayerState, timestamp: u64 },
    /// Open an audio output for the decoded audio, then call `Player::after_open_output`.
    OpenOutput { state: PlayerState, timestamp: u64 },
    /// Write the decoded audio to the output, then call `Player::after_write`.
    Write { state: PlayerState },
}

impl PlayerState {
    /// The timestamp to show: where a seek is heading, else where playback is.
    pub open spec fn optimistic_ts(self) -> u64 {
        match self.seek_ts {
            Some(ts) => ts,
            None => self.timestamp,
        }
    }

    /// The progress to show; zero when the track has no timing information.
    pub open spec fn shown_times(self) -> ProgressTimes {
        match self.track_info.progress_at(self.optimistic_ts()) {
            Some(p) => p,
            None => ProgressTimes::zero(),
        }
    }

    pub open spec fn display(self) -> PlayerDisplay {
        PlayerDisplay {
            song_id: self.queue.current.id,
            playing: self.playing,
            times: self.shown_times(),
        }
    }

    pub open spec fn playback(self) -> Playback {
        let progress = match self.track_info.progress_at(self.optimistic_ts()) {
            Some(p) => Some(p.elapsed),
            None => None,
        };
        if self.playing {
            Playback::Playing { progress }
        } else {
            Playback::Paused { progress }
        }
    }

    /// The state of a song that was just opened: playing from the start, nothing preloaded
    /// yet, no output open.
    pub open spec fn opened(queue: Queue<QueuedSong>, track_info: TrackInfo, playing: bool) -> PlayerState {
        PlayerState {
            playing,
            seek_ts: None,
            track_info,
            queue,
            timestamp: 0,
            preloaded: None,
            has_output: false,
        }
    }

    pub open spec fn with_playing(self, playing: bool) -> PlayerState {
        PlayerState { playing, ..self }
    }

    /// NOTE This is to avoid flashing the 'old' timestamp while seeking
    /// to the new timestamp; we publish the timestamp where we're going to.
    pub fn optimistic_timestamp(&self) -> (ts: u64)
        ensures
            ts == self.optimistic_ts(),
    {
        match self.seek_ts {
            Some(ts) => ts,
            None => self.timestamp,
        }
    }

    /// The song after the current one.
    pub fn up_next(&self) -> (song: Option<&QueuedSong>)
        ensures
            song == (if self.queue@.next.len() > 0 {
                Some(&self.queue@.next[0])
            } else {
                None
            }),
    {
        if self.queue.next.len() > 0 {
            Some(&self.queue.next[0])
        } else {
            None
        }
    }

    /// What the ui shows of this state.
    pub fn to_display(&self) -> (d: PlayerDisplay)
        ensures
            d == self.display(),
    {
        let timestamp = self.optimistic_timestamp();
        let times = match self.track_info.progress_times(timestamp) {
            Some(p) => p,
            None => ProgressTimes::zero_times(),
        };
        PlayerDisplay { song_id: self.queue.current.id, playing: self.playing, times }
    }

    /// Records the preloaded next song.
    pub fn store_preloaded(&mut self, preloaded: PreloadedInfo)
        ensures
            *final(self) == (PlayerState { preloaded: Some(preloaded), ..*old(self) }),
    {
        self.preloaded = Some(preloaded);
    }
}

impl ControlsMetadata {
    /// The metadata that the media controls show for `song`.
    pub open spec fn describes(self, song: QueuedSong) -> bool {
        &&& self.title == song.title
        &&& self.album == song.album_title
        &&& self.artist == song.artist
        &&& self.duration == song.duration
        &&& match song.resized_art {
            Some(art) => self.cover_url matches Some(url) && url@ == file_url_of(art@),
            None => self.cover_url is None,
        }
    }
}

impl AudioEffects {
    /// Publishing `state`: the ui gets its display (as a completed seek or as an update),
    /// the media controls its metadata and playback; nothing is preloaded.
    pub open spec fn publishes(self, state: PlayerState, seek_complete: bool) -> bool {
        &&& self.player_state == Some(state)
        &&& self.audio_message == Some(
            if seek_complete {
                AudioMessage::SeekComplete(state.display())
            } else {
                AudioMessage::DisplayUpdate(Some(state.display()))
            },
        )
        &&& self.metadata matches Some(m) && m.describes(state.queue.current)
        &&& self.playback == Some(state.playback())
        &&& self.preload is None
    }

    /// Stopping: the ui is told the player stopped, nothing else is published.
    pub open spec fn stop() -> AudioEffects {
        AudioEffects {
            player_state: None,
            audio_message: Some(AudioMessage::DisplayUpdate(None)),
            metadata: None,
            playback: None,
            preload: None,
        }
    }

    /// Keeping `state` without publishing anything.
    pub open spec fn keep(state: Option<PlayerState>) -> AudioEffects {
        AudioEffects {
            player_state: state,
            audio_message: None,
            metadata: None,
            playback: None,
            preload: None,
        }
    }

    fn same(player_state: Option<PlayerState>) -> (e: AudioEffects)
        ensures
            e == AudioEffects::keep(player_state),
    {
        AudioEffects {
            player_state,
            audio_message: None,
            metadata: None,
            playback: None,
            preload: None,
        }
    }

    fn none() -> (e: AudioEffects)
        ensures
            e == AudioEffects::keep(None),
    {
        AudioEffects {
            player_state: None,
            audio_message: None,
            metadata: None,
            playback: None,
            preload: None,
        }
    }

    /// Whether the media controls should be released after this step: the player was
    /// active before it and is stopped after it.
    pub fn releases_controls(&self, was_active: bool) -> (r: bool)
        ensures
            r == (self.player_state is None && was_active),
    {
        self.player_state.is_none() && was_active
    }
}

/// The display, metadata and playback published for `state`.
fn prepare_publish(state: &PlayerState) -> (r: (PlayerDisplay, ControlsMetadata, Playback))
    ensures
        r.0 == state.display(),
        r.1.describes(state.queue.current),
        r.1.title == state.queue.current.title,
        r.1.album == state.queue.current.album_title,
        r.1.artist == state.queue.current.artist,
        r.2 == state.playback(),
{
    let current = &state.queue.current;
    let cover_url = match &current.resized_art {
        Some(path) => Some(file_url(path.as_str())),
        None => None,
    };
    let metadata = ControlsMetadata {
        title: clone_text(&current.title),
        album: clone_text(&current.album_title),
        artist: clone_text(&current.artist),
        duration: current.duration,
        cover_url,
    };
    let timestamp = state.optimistic_timestamp();
    let progress = match state.track_info.progress_times(timestamp) {
        Some(p) => Some(p.elapsed),
        None => None,
    };
    let playback = if state.playing {
        Playback::Playing { progress }
    } else {
        Playback::Paused { progress }
    };
    let display = state.to_display();
    (display, metadata, playback)
}

fn publish_display_update(new_state: PlayerState) -> (e: AudioEffects)
    ensures
        e.publishes(new_state, false),
{
    let (display, metadata, playback) = prepare_publish(&new_state);
    AudioEffects {
        player_state: Some(new_state),
        audio_message: Some(AudioMessage::DisplayUpdate(Some(display))),
        metadata: Some(metadata),
        playback: Some(playback),
        preload: None,
    }
}

fn publish_seek_complete(new_state: PlayerState) -> (e: AudioEffects)
    ensures
        e.publishes(new_state, true),
{
    let (display, metadata, playback) = prepare_publish(&new_state);
    AudioEffects {
        player_state: Some(new_state),
        audio_message: Some(AudioMessage::SeekComplete(display)),
        metadata: Some(metadata),
        playback: Some(playback),
        preload: None,
    }
}

fn publish_stop() -> (e: AudioEffects)
    ensures
        e == AudioEffects::stop(),
{
    AudioEffects {
        audio_message: Some(AudioMessage::DisplayUpdate(None)),
        player_state: None,
        metadata: None,
        playback: None,
        preload: None,
    }
}

/// Whether the progress at `timestamp` is two whole seconds or more into the song.
pub open spec fn past_two_seconds(track_info: TrackInfo, timestamp: u64) -> bool {
    match track_info.progress_at(timestamp) {
        Some(p) => p.elapsed >= 2,
        None => false,
    }
}

/// The step that moves `state` to the next song of its queue.
pub open spec fn forward_step<P>(state: PlayerState, step: Step<P>) -> bool {
    match state.queue@.forward() {
        None => step == Step::<P>::Done(Ok(AudioEffects::stop())),
        Some(next) => match state.preloaded {
            Some(pre) if paths_equal(pre.path@, next.current.path@) => step matches Step::AdoptPreloaded {
                queue,
                preloaded,
                playing,
            } && queue@ == next && preloaded == pre && playing == state.playing,
            _ => step matches Step::Open { queue, purpose } && queue@ == next
                && purpose == OpenPurpose::Switch { playing: state.playing },
        },
    }
}

/// The step that goes back in `state`'s queue, or to the start of its song.
pub open spec fn back_step<P>(state: PlayerState, step: Step<P>) -> bool {
    if !past_two_seconds(state.track_info, state.timestamp) && state.queue@.back() is Some {
        step matches Step::Open { queue, purpose } && queue@ == state.queue@.back().unwrap()
            && purpose == OpenPurpose::Switch { playing: state.playing }
    } else {
        step matches Step::Seek { target, state: s, purpose } && target == SeekTarget::<P>::Start
            && s.queue@ == state.queue@ && s == (PlayerState { queue: s.queue, ..state })
            && purpose == SeekPurpose::Restart
    }
}

/// The error for a fatal audio failure: `prefix` followed by the failure's message.
pub open spec fn failure(step_result: Result<AudioEffects, AudioThreadError>, prefix: Seq<char>, msg: Seq<char>) -> bool {
    step_result matches Err(AudioThreadError::Other(m)) && m@ == prefix + msg
}

/// The audio player's decisions.
pub struct Player;

impl Player {
    /// The first part of a player step: what the action (or, with none, continuing to play)
    /// does to the player's state.
    pub fn begin<P>(state: Option<PlayerState>, action: Option<AudioAction<P>>) -> (step: Step<P>)
        ensures
            match (action, state) {
                (Some(AudioAction::PlayQueue(queue)), _) => step == Step::<P>::Open {
                    queue: *queue,
                    purpose: OpenPurpose::PlayQueue,
                },
                (Some(AudioAction::Pause), Some(s)) => if s.playing {
                    step matches Step::Done(Ok(e)) && e.publishes(s.with_playing(false), false)
                } else {
                    step == Step::<P>::Done(Ok(AudioEffects::keep(Some(s))))
                },
                (Some(AudioAction::Pause), None) => step == Step::<P>::Done(Ok(AudioEffects::keep(None))),
                (Some(AudioAction::PlayPaused), Some(s)) => if !s.playing {
                    step matches Step::Done(Ok(e)) && e.publishes(s.with_playing(true), false)
                } else {
                    step == Step::<P>::Done(Ok(AudioEffects::keep(Some(s))))
                },
                (Some(AudioAction::PlayPaused), None) => step == Step::<P>::Done(Ok(AudioEffects::keep(None))),
                (Some(AudioAction::Toggle), Some(s)) => step matches Step::Done(Ok(e))
                    && e.publishes(s.with_playing(!s.playing), false),
                (Some(AudioAction::Forward), Some(s)) => forward_step(s, step),
                (Some(AudioAction::Back), Some(s)) => back_step(s, step),
                (Some(AudioAction::Seek(proportion)), Some(s)) => match s.track_info.progress_at(s.timestamp) {
                    None => step matches Step::Done(Ok(e)) && e.publishes(s, true),
                    Some(_) => step == Step::<P>::Seek {
                        target: SeekTarget::Proportion {
                            proportion,
                            time_base: s.track_info.time_base.unwrap(),
                            duration: s.track_info.duration.unwrap(),
                        },
                        state: s,
                        purpose: SeekPurpose::Requested,
                    },
                },
                (Some(_), None) => step == Step::<P>::Done(Ok(AudioEffects::keep(None))),
                (None, Some(s)) => if s.playing {
                    step == Step::<P>::ReadPacket { state: s }
                } else {
                    step == Step::<P>::Done(Ok(AudioEffects::keep(Some(s))))
                },
                (None, None) => step == Step::<P>::Done(Ok(AudioEffects::keep(None))),
            },
            // a stopped player is left only by playing a queue; anything else publishes nothing
            state is None && !(action matches Some(AudioAction::PlayQueue(_))) ==> (step
                matches Step::Done(Ok(e)) && e.player_state is None && e.audio_message is None
                && e.metadata is None && e.playback is None && e.preload is None),
    {
        match action {
            Some(AudioAction::PlayQueue(queue)) => Step::Open { queue: *queue, purpose: OpenPurpose::PlayQueue },
            Some(AudioAction::Pause) => match state {
                Some(mut s) => {
                    if s.playing {
                        s.playing = false;
                        Step::Done(Ok(publish_display_update(s)))
                    } else {
                        Step::Done(Ok(AudioEffects::same(Some(s))))
                    }
                },
                None => Step::Done(Ok(AudioEffects::same(None))),
            },
            Some(AudioAction::PlayPaused) => match state {
                Some(mut s) => {
                    if !s.playing {
                        s.playing = true;
                        Step::Done(Ok(publish_display_update(s)))
                    } else {
                        Step::Done(Ok(AudioEffects::same(Some(s))))
                    }
                },
                None => Step::Done(Ok(AudioEffects::same(None))),
            },
            Some(AudioAction::Toggle) => match state {
                Some(mut s) => {
                    s.playing = !s.playing;
                    Step::Done(Ok(publish_display_update(s)))
                },
                None => Step::Done(Ok(AudioEffects::none())),
            },
            Some(AudioAction::Forward) => match state {
                Some(s) => Self::forward(s),
                None => Step::Done(Ok(AudioEffects::none())),
            },
            Some(AudioAction::Back) => match state {
                Some(s) => Self::back(s),
                None => Step::Done(Ok(AudioEffects::none())),
            },
            Some(AudioAction::Seek(proportion)) => match state {
                Some(s) => {
                    match (s.track_info.time_base, s.track_info.duration) {
                        (Some(time_base), Some(duration)) => Step::Seek {
                            target: SeekTarget::Proportion { proportion, time_base, duration },
                            state: s,
                            purpose: SeekPurpose::Requested,
                        },
                        _ => Step::Done(Ok(publish_seek_complete(s))),
                    }
                },
                None => Step::Done(Ok(AudioEffects::none())),
            },
            None => match state {
                Some(s) => {
                    if s.playing {
                        Step::ReadPacket { state: s }
                    } else {
                        Step::Done(Ok(AudioEffects::same(Some(s))))
                    }
                },
                None => Step::Done(Ok(AudioEffects::same(None))),
            },
        }
    }

    /// Moves to the next song of the queue: from the preloaded decoder when it holds that
    /// song, else by opening it; stops at the end of the queue.
    pub fn forward<P>(state: PlayerState) -> (step: Step<P>)
        ensures
            forward_step(state, step),
    {
        let playing = state.playing;
        let preloaded = state.preloaded;
        match state.queue.try_forward() {
            Ok(new_queue) => {
                match preloaded {
                    Some(pre) => {
                        if same_path(pre.path.as_str(), new_queue.current.path.as_str()) {
                            Step::AdoptPreloaded { queue: new_queue, preloaded: pre, playing }
                        } else {
                            Step::Open { queue: new_queue, purpose: OpenPurpose::Switch { playing } }
                        }
                    },
                    None => Step::Open { queue: new_queue, purpose: OpenPurpose::Switch { playing } },
                }
            },
            Err(_old_queue) => Step::Done(Ok(publish_stop())),
        }
    }

    /// Seeks to the beginning of the current song, or if within its first two seconds,
    /// goes back a song in the queue, if there is one.
    pub fn back<P>(state: PlayerState) -> (step: Step<P>)
        ensures
            back_step(state, step),
    {
        let past_two = match state.track_info.progress_times(state.timestamp) {
            Some(p) => p.elapsed >= 2,
            None => false,
        };
        let PlayerState { playing, seek_ts, track_info, queue, timestamp, preloaded, has_output } = state;
        let queue = if !past_two {
            match queue.try_back() {
                Ok(new_queue) => {
                    return Step::Open { queue: new_queue, purpose: OpenPurpose::Switch { playing } };
                },
                Err(old_queue) => old_queue,
            }
        } else {
            queue
        };
        let state = PlayerState { playing, seek_ts, track_info, queue, timestamp, preloaded, has_output };
        Step::Seek { target: SeekTarget::Start, state, purpose: SeekPurpose::Restart }
    }

    /// After opening the current song of `queue`: play it, or fail with the error.
    /// A new queue starts playing and asks the preloader for the song after the current one.
    pub fn after_open<P>(
        queue: Queue<QueuedSong>,
        purpose: OpenPurpose,
        opened: Result<TrackInfo, String>,
    ) -> (step: Step<P>)
        ensures
            match opened {
                Err(msg) => step == Step::<P>::Done(Err(AudioThreadError::Other(msg))),
                Ok(track_info) => step matches Step::Done(Ok(e)) && match purpose {
                    OpenPurpose::PlayQueue => {
                        let s = PlayerState::opened(queue, track_info, true);
                        &&& e.player_state == Some(s)
                        &&& e.audio_message == Some(AudioMessage::DisplayUpdate(Some(s.display())))
                        &&& e.metadata matches Some(m) && m.describes(queue.current)
                        &&& e.playback == Some(s.playback())
                        &&& e.preload == (if queue@.next.len() > 0 {
                            Some(PreloaderAction::Load(queue@.next[0].path))
                        } else {
                            None
                        })
                    },
                    OpenPurpose::Switch { playing } => e.publishes(PlayerState::opened(queue, track_info, playing), false),
                },
            },
    {
        match opened {
            Err(msg) => Step::Done(Err(AudioThreadError::Other(msg))),
            Ok(track_info) => {
                let playing = match purpose {
                    OpenPurpose::PlayQueue => true,
                    OpenPurpose::Switch { playing } => playing,
                };
                let new_state = PlayerState {
                    playing,
                    seek_ts: None,
                    track_info,
                    queue,
                    timestamp: 0,
                    preloaded: None,
                    has_output: false,
                };
                let up_next = match new_state.up_next() {
                    Some(song) => Some(song.path.clone()),
                    None => None,
                };
                let mut effects = publish_display_update(new_state);
                if purpose == OpenPurpose::PlayQueue {
                    effects.preload = match up_next {
                        Some(path) => Some(PreloaderAction::Load(path)),
                        None => None,
                    };
                }
                Step::Done(Ok(effects))
            },
        }
    }

    /// After making the preloaded decoder current: play the song from it.
    pub fn after_adopt<P>(queue: Queue<QueuedSong>, preloaded: PreloadedInfo, playing: bool) -> (step: Step<P>)
        ensures
            step matches Step::Done(Ok(e)) && e.publishes(
                PlayerState::opened(queue, preloaded.track_info, playing),
                false,
            ),
    {
        let new_state = PlayerState {
            playing,
            seek_ts: None,
            track_info: preloaded.track_info,
            queue,
            timestamp: 0,
            preloaded: None,
            has_output: false,
        };
        Step::Done(Ok(publish_display_update(new_state)))
    }

    /// After a seek that reached `reached` (none when it failed): head there, and publish.
    /// Going back to the start also resets the position to zero.
    pub fn after_seek<P>(state: PlayerState, purpose: SeekPurpose, reached: Option<u64>) -> (step: Step<P>)
        ensures
            step matches Step::Done(Ok(e)) && match purpose {
                SeekPurpose::Requested => e.publishes(PlayerState { seek_ts: reached, ..state }, true),
                SeekPurpose::Restart => e.publishes(PlayerState { seek_ts: reached, timestamp: 0, ..state }, false),
            },
    {
        let mut state = state;
        state.seek_ts = reached;
        match purpose {
            SeekPurpose::Requested => Step::Done(Ok(publish_seek_complete(state))),
            SeekPurpose::Restart => {
                state.timestamp = 0;
                Step::Done(Ok(publish_display_update(state)))
            },
        }
    }

    /// After reading the next packet: decode it; at the end of the song, flush the output
    /// (if any) and move forward; on any other error, fail.
    pub fn after_read<P>(state: PlayerState, read: PacketRead) -> (step: Step<P>)
        ensures
            match read {
                PacketRead::Packet(ts) => step == Step::<P>::Decode { state, timestamp: ts },
                PacketRead::EndOfStream => if state.has_output {
                    step == Step::<P>::Flush { state }
                } else {
                    forward_step(state, step)
                },
                PacketRead::Failed(msg) => step matches Step::Done(r)
                    && failure(r, "error reading next packet: "@, msg@),
            },
    {
        match read {
            PacketRead::Packet(ts) => Step::Decode { state, timestamp: ts },
            PacketRead::EndOfStream => {
                if state.has_output {
                    Step::Flush { state }
                } else {
                    Self::forward(state)
                }
            },
            PacketRead::Failed(msg) => {
                let text = concat("error reading next packet: ", msg.as_str());
                proof {
                    reveal_strlit("error reading next packet: ");
                }
                Step::Done(Err(AudioThreadError::Other(text)))
            },
        }
    }

    /// After flushing the output at the end of the song: move forward.
    pub fn after_flush<P>(state: PlayerState) -> (step: Step<P>)
        ensures
            forward_step(state, step),
    {
        Self::forward(state)
    }

    /// After decoding the packet at `timestamp`: skip it on a decode error, fail on any other
    /// error, else open an output if there is none, and go on to playing it.
    pub fn after_decode<P>(state: PlayerState, timestamp: u64, decoding: Decoding) -> (step: Step<P>)
        ensures
            match decoding {
                Decoding::Skipped => step == Step::<P>::Done(Ok(AudioEffects::keep(Some(state)))),
                Decoding::Failed(msg) => step matches Step::Done(r) && failure(r, "failed to read packet: "@, msg@),
                Decoding::Decoded => if state.has_output {
                    play_step(state, timestamp, step)
                } else {
                    step == Step::<P>::OpenOutput { state, timestamp }
                },
            },
            decoding is Decoded && state.has_output && !(state.seek_ts matches Some(target)
                && timestamp < target) ==> (step matches Step::Write { state: s } && s.seek_ts
                is None && s.timestamp == timestamp),
    {
        match decoding {
            Decoding::Skipped => Step::Done(Ok(AudioEffects::same(Some(state)))),
            Decoding::Failed(msg) => {
                let text = concat("failed to read packet: ", msg.as_str());
                proof {
                    reveal_strlit("failed to read packet: ");
                }
                Step::Done(Err(AudioThreadError::Other(text)))
            },
            Decoding::Decoded => {
                if state.has_output {
                    Self::play_packet(state, timestamp)
                } else {
                    Step::OpenOutput { state, timestamp }
                }
            },
        }
    }

    /// After opening an audio output: fail if it could not be opened, else go on to playing
    /// the packet at `timestamp`.
    pub fn after_open_output<P>(state: PlayerState, timestamp: u64, opened: Result<(), String>) -> (step: Step<P>)
        ensures
            match opened {
                Err(msg) => step matches Step::Done(r) && failure(r, "opening audio device: "@, msg@),
                Ok(()) => play_step(PlayerState { has_output: true, ..state }, timestamp, step),
            },
            opened is Ok && !(state.seek_ts matches Some(target) && timestamp < target) ==> (step
                matches Step::Write { state: s } && s.seek_ts is None && s.timestamp == timestamp),
    {
        match opened {
            Err(msg) => {
                let text = concat("opening audio device: ", msg.as_str());
                proof {
                    reveal_strlit("opening audio device: ");
                }
                Step::Done(Err(AudioThreadError::Other(text)))
            },
            Ok(()) => {
                let mut state = state;
                state.has_output = true;
                Self::play_packet(state, timestamp)
            },
        }
    }

    /// The packet at `timestamp` becomes the position. While a seek has not reached its
    /// target, nothing is written; once it has, the seek is over and the audio is written.
    fn play_packet<P>(state: PlayerState, timestamp: u64) -> (step: Step<P>)
        ensures
            play_step(state, timestamp, step),
            !(state.seek_ts matches Some(target) && timestamp < target) ==> (step matches Step::Write {
                state: s,
            } && s.seek_ts is None && s.timestamp == timestamp),
    {
        let mut state = state;
        state.timestamp = timestamp;
        let seeking = match state.seek_ts {
            Some(seek_ts) => timestamp < seek_ts,
            None => false,
        };
        if seeking {
            Step::Done(Ok(AudioEffects::same(Some(state))))
        } else {
            state.seek_ts = None;
            Step::Write { state }
        }
    }

    /// After writing the decoded audio: publish the new position, or fail.
    pub fn after_write<P>(state: PlayerState, written: Result<(), String>) -> (step: Step<P>)
        ensures
            match written {
                Err(msg) => step matches Step::Done(r) && failure(r, "writing audio: "@, msg@),
                Ok(()) => step matches Step::Done(Ok(e)) && e.publishes(state, false),
            },
            written is Ok ==> (step matches Step::Done(Ok(e)) && e.metadata matches Some(m)
                && m.title == state.queue.current.title && m.album
                == state.queue.current.album_title && m.artist == state.queue.current.artist),
    {
        match written {
            Err(msg) => {
                let text = concat("writing audio: ", msg.as_str());
                proof {
                    reveal_strlit("writing audio: ");
                }
                Step::Done(Err(AudioThreadError::Other(text)))
            },
            Ok(()) => Step::Done(Ok(publish_display_update(state))),
        }
    }

    /// Records a song that the preloader decoded, when the player has a current song.
    pub fn receive_preloaded(state: Option<PlayerState>, preloaded: PreloadedInfo) -> (r: Option<PlayerState>)
        ensures
            r == (match state {
                Some(s) => Some(PlayerState { preloaded: Some(preloaded), ..s }),
                None => None,
            }),
    {
        match state {
            Some(mut s) => {
                s.store_preloaded(preloaded);
                Some(s)
            },
            None => None,
        }
    }
}

/// Playing the packet at `timestamp`: the position moves there; a seek that has not reached
/// its target keeps the state without writing, otherwise the seek is over and the audio is written.
pub open spec fn play_step<P>(state: PlayerState, timestamp: u64, step: Step<P>) -> bool {
    let moved = PlayerState { timestamp, ..state };
    match state.seek_ts {
        Some(target) if timestamp < target => step == Step::<P>::Done(Ok(AudioEffects::keep(Some(moved)))),
        _ => step == Step::<P>::Write { state: PlayerState { seek_ts: None, ..moved } },
    }
}


/// Pausing a playing song and playing it again, or toggling twice, gives back the same state.
pub proof fn lemma_pause_then_play(s: PlayerState)
    ensures
        s.playing ==> s.with_playing(false).with_playing(true) == s,
        s.with_playing(!s.playing).with_playing(!(!s.playing)) == s,
{
}

/// Going back to the previous song and then forward returns to the queue as it was.
pub proof fn lemma_back_then_forward<P>(s: PlayerState, step: Step<P>)
    requires
        back_step(s, step),
        step is Open,
    ensures
        step->Open_queue@.forward() == Some(s.queue@),
{
    crate::queue::lemma_back_then_forward(s.queue@);
}

/// Moving forward while songs are left plays the first of them, from the preloaded decoder
/// or by opening it; it does not stop.
pub proof fn lemma_forward_plays_next<P>(s: PlayerState, step: Step<P>)
    requires
        forward_step(s, step),
        s.queue@.next.len() > 0,
    ensures
        step is Open ==> step->Open_queue.current == s.queue@.next[0],
        step is AdoptPreloaded ==> step->AdoptPreloaded_queue.current == s.queue@.next[0],
        !(step is Done),
{
}

/// Playing a packet at or past the target of a pending seek (or with no seek pending) ends the
/// seek: the audio is written, and the state handed on has no pending seek and the packet's
/// timestamp, so the position shown from then on is that of the packet last played.
pub proof fn lemma_reaching_the_seek_target_shows_the_real_position<P>(
    state: PlayerState,
    timestamp: u64,
    step: Step<P>,
)
    requires
        play_step(state, timestamp, step),
        !(state.seek_ts matches Some(target) && timestamp < target),
    ensures
        step matches Step::Write { state: s } && s.seek_ts is None && s.timestamp == timestamp
            && s.optimistic_ts() == timestamp && s.queue == state.queue && s.playing
            == state.playing,
{
}

/// A packet before the target of a pending seek is not written: the seek stays pending with
/// the same target, and the position shown stays the target.
pub proof fn lemma_short_of_the_seek_target_shows_the_target<P>(
    state: PlayerState,
    timestamp: u64,
    step: Step<P>,
)
    requires
        play_step(state, timestamp, step),
        state.seek_ts matches Some(target) && timestamp < target,
    ensures
        step matches Step::Done(Ok(e)) && e.player_state matches Some(s) && s.seek_ts
            == state.seek_ts && s.timestamp == timestamp && s.optimistic_ts()
            == state.seek_ts->0 && e.audio_message is None,
{
}

/// What is published for a state names the state's current song: the media controls get its
/// title, its album's title as the album and its own artist as the artist, and its length;
/// the ui gets that song's id.
pub proof fn lemma_published_metadata_names_the_current_song(
    e: AudioEffects,
    state: PlayerState,
    seek_complete: bool,
)
    requires
        e.publishes(state, seek_complete),
    ensures
        e.metadata matches Some(m) && m.title == state.queue.current.title && m.album
            == state.queue.current.album_title && m.artist == state.queue.current.artist
            && m.duration == state.queue.current.duration,
        e.audio_message matches Some(msg) && (match msg {
            AudioMessage::SeekComplete(d) => d.song_id == state.queue.current.id,
            AudioMessage::DisplayUpdate(d) => d matches Some(d) && d.song_id
                == state.queue.current.id,
            _ => false,
        }),
{
}

} // verus!
