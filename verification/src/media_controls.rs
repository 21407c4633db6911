//! What the player publishes to the operating system's media controls, and what it makes of
//! the events that come back from them.
use vstd::prelude::*;

use crate::player::AudioAction;

verus! {

/// An owned version of the media controls' metadata.
#[derive(Debug, Clone, PartialEq, Eq)]
pub struct ControlsMetadata {
    pub title: Option<String>,
    pub album: Option<String>,
    pub artist: Option<String>,
    pub cover_url: Option<String>,
    /// The song's length in whole seconds.
    pub duration: Option<u64>,
}

/// The playback state shown by the media controls; `progress` is the elapsed whole seconds.
#[derive(Debug, Clone, Copy, PartialEq, Eq, Structural)]
pub enum Playback {
    Stopped,
    Paused { progress: Option<u64> },
    Playing { progress: Option<u64> },
}

/// An event from the media controls. Only which event it is matters to the player.
#[derive(Debug, Clone, Copy, PartialEq, Eq, Structural)]
pub enum ControlEvent {
    Play,
    Pause,
    Toggle,
    Next,
    Previous,
    Stop,
    Seek,
    SeekBy,
    SetPosition,
    OpenUri,
    Raise,
    Quit,
}

/// The player action that a media controls event asks for.
pub open spec fn event_action<P>(event: ControlEvent) -> Option<AudioAction<P>> {
    match event {
        ControlEvent::Play => Some(AudioAction::PlayPaused),
        ControlEvent::Pause => Some(AudioAction::Pause),
        ControlEvent::Next => Some(AudioAction::Forward),
        ControlEvent::Previous => Some(AudioAction::Back),
        ControlEvent::Toggle => Some(AudioAction::Toggle),
        _ => None,
    }
}

/// The player action for a media controls event; none for the events the player ignores
/// (stop, seeking, opening a uri, raising and quitting).
pub fn action_for_event<P>(event: ControlEvent) -> (action: Option<AudioAction<P>>)
    ensures
        action == event_action::<P>(event),
{
    match event {
        ControlEvent::Play => Some(AudioAction::PlayPaused),
        ControlEvent::Pause => Some(AudioAction::Pause),
        ControlEvent::Next => Some(AudioAction::Forward),
        ControlEvent::Previous => Some(AudioAction::Back),
        ControlEvent::Toggle => Some(AudioAction::Toggle),
        ControlEvent::Stop => None,
        ControlEvent::Seek => None,
        ControlEvent::SeekBy => None,
        ControlEvent::SetPosition => None,
        ControlEvent::OpenUri => None,
        ControlEvent::Raise => None,
        ControlEvent::Quit => None,
    }
}

} // verus!
