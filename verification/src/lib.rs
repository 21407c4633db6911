//! Clef, a local music player: its library. It holds what the player decides, each part with
//! a contract that Verus proves: the play queue, the audio player's steps, the media controls'
//! events, the tags and length read from a song, the crawl of the music directory, the music
//! the ui knows of and the order it lists albums in, the decoding and resizing of album art,
//! and what each message does to the ui.
use vstd::prelude::*;

pub mod crawler;
pub mod db;
pub mod hover_zone;
pub mod hoverable;
pub mod ids;
pub mod images;
pub mod media_controls;
pub mod music_cache;
pub mod order;
pub mod paths;
pub mod player;
pub mod preloader;
pub mod queue;
pub mod resizer;
pub mod rgba;
pub mod sorting;
pub mod style;
pub mod tags;
pub mod text;
pub mod track;
pub mod ui;

verus! {

} // verus!
