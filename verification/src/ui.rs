//! The ui's state and what each message does to it: the state after the message, and the
//! effect that the window then carries out.
use vstd::prelude::*;

use crate::crawler::{CrawledAlbum, CrawlerMessage};
use crate::db::{album_display_title, song_display_title, Album, Song};
use crate::ids::{AlbumId, SongId};
use crate::music_cache::{album_art_loaded, album_queue_of, crawled_album_added, MusicCache};
use crate::player::{AudioAction, AudioMessage, PlayerDisplay};
use crate::resizer::{ResizeRequest, ResizerMessage};
use crate::text::{clone_text, concat};
use crate::track::ProgressTimes;

verus! {

/// A text, or the empty text when there is none.
pub open spec fn or_empty(t: Option<Seq<char>>) -> Seq<char> {
    match t {
        Some(t) => t,
        None => Seq::empty(),
    }
}

/// The song shown as the current one.
#[derive(Debug)]
pub struct CurrentSong {
    pub id: SongId,
    pub album_id: AlbumId,
    pub title: String,
    pub album: Option<String>,
    pub artist: Option<String>,
    pub playing: bool,
    pub total_seconds: i64,
}

/// Whether `c` shows `song` of `album`, playing or paused.
pub open spec fn is_current_song(c: CurrentSong, song: Song, album: Album, playing: bool) -> bool {
    &&& c.id == song.id
    &&& c.album_id == album.id
    &&& c.title@ == or_empty(song_display_title(song))
    &&& c.album == album.title
    &&& c.artist == song.artist
    &&& c.playing == playing
    &&& c.total_seconds == song.total_seconds
}

impl CurrentSong {
    pub fn new(song: &Song, album: &Album, playing: bool) -> (c: CurrentSong)
        ensures
            is_current_song(c, *song, *album, playing),
            c.id == song.id,
            c.artist == song.artist,
            c.album == album.title,
    {
        let title = match song.display_title() {
            Some(t) => t.to_owned(),
            None => String::new(),
        };
        CurrentSong {
            id: song.id,
            album_id: album.id,
            title,
            album: clone_text(&album.title),
            artist: clone_text(&song.artist),
            playing,
            total_seconds: song.total_seconds,
        }
    }
}

/// The progress bar: where the user drags it (a proportion of the song, in the ui's
/// representation `P`), or the times the player last reported.
#[derive(Debug, Clone, Copy, PartialEq)]
pub enum ProgressDisplay<P> {
    Dragging(P),
    FromAudio(ProgressTimes),
}

/// What the ui shows and knows.
#[derive(Debug)]
pub struct Ui<P, A> {
    pub crawling_music: bool,
    pub current_song: Option<CurrentSong>,
    pub progress: Option<ProgressDisplay<P>>,
    pub hovered_song_id: Option<SongId>,
    pub music_cache: MusicCache<A>,
}

impl<P, A> Ui<P, A> {
    /// Crawling, with nothing known or shown yet.
    pub fn new() -> (ui: Self)
        ensures
            ui.crawling_music,
            ui.current_song is None,
            ui.progress is None,
            ui.hovered_song_id is None,
            ui.music_cache.listing().len() == 0,
            ui.music_cache.song_map().is_empty(),
            ui.music_cache.album_map().is_empty(),
    {
        Ui {
            current_song: None,
            progress: None,
            hovered_song_id: None,
            crawling_music: true,
            music_cache: MusicCache::new(),
        }
    }
}

/// What the ui reads of a window event.
#[derive(Debug, Clone, Copy, PartialEq, Eq, Structural)]
pub enum WindowEvent {
    /// The space key was released.
    SpaceReleased,
    Other,
}

/// A message to the ui. `P` is a proportion of a song, `A` an image.
#[derive(Debug, Clone)]
pub enum Message<P, A> {
    GotHwnd,
    FromCrawler(CrawlerMessage<A>),
    FromResizer(ResizerMessage<A>),
    FromAudio(AudioMessage),
    Native(WindowEvent),
    PlayPausedClicked,
    PlaySongClicked(SongId),
    PauseClicked,
    ForwardClicked,
    BackClicked,
    SeekDrag(P),
    SeekRelease,
    SeekWithoutSong(P),
    HoveredSong(SongId),
    UnhoveredSong(SongId),
}

/// What the window does after a message.
#[derive(Debug)]
pub enum Effect<P> {
    /// Nothing to do.
    Nothing,
    ToAudio(AudioAction<P>),
    ToResizer(ResizeRequest),
    CloseWindow,
}

impl<P> Effect<P> {
    pub fn none() -> (e: Self)
        ensures
            e is Nothing,
    {
        Effect::Nothing
    }
}

/// The song `song_id` with its album, when the cache knows both.
pub open spec fn song_and_album<A>(cache: MusicCache<A>, song_id: SongId) -> Option<(Song, Album)> {
    if cache.song_map().contains_key(song_id.id()) {
        let song = cache.song_map()[song_id.id()];
        if cache.album_map().contains_key(song.album_id.id()) {
            Some((song, cache.album_map()[song.album_id.id()].album))
        } else {
            None
        }
    } else {
        None
    }
}

/// The current song for `song_id`, when the cache knows the song and its album.
pub fn get_current_song<A>(music_cache: &MusicCache<A>, song_id: SongId, playing: bool) -> (r:
    Option<CurrentSong>)
    ensures
        match song_and_album(*music_cache, song_id) {
            None => r is None,
            Some((song, album)) => r matches Some(c) && is_current_song(c, song, album, playing)
                && c.id == song_id && c.album_id == song.album_id,
        },
{
    let song = match music_cache.get_song(&song_id) {
        Some(song) => song,
        None => return None,
    };
    let album = match music_cache.get_album(&song.album_id) {
        Some(album) => album,
        None => return None,
    };
    Some(CurrentSong::new(song, album, playing))
}

/// The current song after the player reported `display`: the same song, playing or paused as
/// reported; or the reported song, when the cache knows it; or else as it was.
pub open spec fn current_song_updated<A>(
    before: Option<CurrentSong>,
    after: Option<CurrentSong>,
    cache: MusicCache<A>,
    display: PlayerDisplay,
) -> bool {
    match before {
        Some(c) if c.id == display.song_id => after == Some(
            CurrentSong { playing: display.playing, ..c },
        ),
        _ => match song_and_album(cache, display.song_id) {
            Some((song, album)) => after matches Some(c) && is_current_song(
                c,
                song,
                album,
                display.playing,
            ),
            None => after == before,
        },
    }
}

/// Shows the song that the player reports.
pub fn update_current_song<P, A>(ui: &mut Ui<P, A>, display: &PlayerDisplay)
    ensures
        final(ui).crawling_music == old(ui).crawling_music,
        final(ui).progress == old(ui).progress,
        final(ui).hovered_song_id == old(ui).hovered_song_id,
        final(ui).music_cache == old(ui).music_cache,
        current_song_updated(
            old(ui).current_song,
            final(ui).current_song,
            old(ui).music_cache,
            *display,
        ),
{
    let same_song = match &ui.current_song {
        Some(current) => current.id == display.song_id,
        None => false,
    };
    if same_song {
        match &mut ui.current_song {
            Some(current) => {
                current.playing = display.playing;
            },
            None => {},
        }
    } else {
        match get_current_song(&ui.music_cache, display.song_id, display.playing) {
            Some(current) => {
                ui.current_song = Some(current);
            },
            None => {},
        }
    }
}

/// The effect of the space key: pause a playing song, play a paused one.
pub open spec fn toggle_effect<P>(current_song: Option<CurrentSong>) -> Effect<P> {
    match current_song {
        Some(c) => if c.playing {
            Effect::ToAudio(AudioAction::Pause)
        } else {
            Effect::ToAudio(AudioAction::PlayPaused)
        },
        None => Effect::Nothing,
    }
}

pub fn toggle<P, A>(ui: &Ui<P, A>) -> (effect: Effect<P>)
    ensures
        effect == toggle_effect::<P>(ui.current_song),
{
    match &ui.current_song {
        Some(current) => if current.playing {
            Effect::ToAudio(AudioAction::Pause)
        } else {
            Effect::ToAudio(AudioAction::PlayPaused)
        },
        None => Effect::Nothing,
    }
}

/// Whether a crawled album's original art needs resizing: its resized art was not already on
/// disk, and it has original art.
pub open spec fn resize_wanted<A>(crawled: CrawledAlbum<A>) -> bool {
    crawled.cached_art is None && crawled.album.original_art is Some
}

/// Whether `request` asks to resize the original art of `album`, named by its display title.
pub open spec fn resizes(request: ResizeRequest, album: Album) -> bool {
    &&& request.album_id == album.id
    &&& request.album_title@ == or_empty(album_display_title(album))
    &&& request.source_path == album.original_art->0
}

/// Whether `effect` asks to resize a crawled album's art exactly when that is wanted.
pub open spec fn resize_effect<P, A>(crawled: CrawledAlbum<A>, effect: Effect<P>) -> bool {
    if resize_wanted(crawled) {
        effect matches Effect::ToResizer(request) && resizes(request, crawled.album)
    } else {
        effect is Nothing
    }
}

fn resize_request<A>(crawled: &CrawledAlbum<A>) -> (r: Option<ResizeRequest>)
    ensures
        match r {
            Some(request) => resize_wanted(*crawled) && resizes(request, crawled.album),
            None => !resize_wanted(*crawled),
        },
{
    if crawled.cached_art.is_none() {
        match &crawled.album.original_art {
            Some(original_art) => {
                let album_title = match crawled.album.display_title() {
                    Some(t) => t.to_owned(),
                    None => String::new(),
                };
                Some(
                    ResizeRequest {
                        album_id: crawled.album.id,
                        album_title,
                        source_path: original_art.clone(),
                    },
                )
            },
            None => None,
        }
    } else {
        None
    }
}

/// Whether `effect` plays the album of song `song_id` from that song, when the cache knows
/// the song, its album, and the song in the album; otherwise it is none.
pub open spec fn play_song_effect<P, A>(cache: MusicCache<A>, song_id: SongId, effect: Effect<P>) -> bool {
    match song_and_album(cache, song_id) {
        None => effect is Nothing,
        Some((song, album)) => match album_queue_of(cache, song_id, song.album_id) {
            None => effect is Nothing,
            Some(queue) => effect matches Effect::ToAudio(AudioAction::PlayQueue(q)) && q@ == queue,
        },
    }
}

/// The progress bar after the player reports `times`: a drag in progress stays.
pub open spec fn progress_after_update<P>(
    before: Option<ProgressDisplay<P>>,
    times: ProgressTimes,
) -> Option<ProgressDisplay<P>> {
    match before {
        Some(ProgressDisplay::Dragging(_)) => before,
        _ => Some(ProgressDisplay::FromAudio(times)),
    }
}

/// The ui after `message`, and the effect it gives.
pub open spec fn updated<P, A>(
    before: Ui<P, A>,
    after: Ui<P, A>,
    message: Message<P, A>,
    effect: Effect<P>,
) -> bool {
    match message {
        Message::GotHwnd => after == before && effect is Nothing,
        Message::FromCrawler(CrawlerMessage::CrawledAlbum(crawled)) => {
            &&& after == Ui { music_cache: after.music_cache, ..before }
            &&& crawled_album_added(before.music_cache, after.music_cache, *crawled)
            &&& resize_effect(*crawled, effect)
        },
        Message::FromCrawler(_) => after == Ui { crawling_music: false, ..before } && effect is Nothing,
        Message::FromResizer(ResizerMessage::ResizedImage(resized)) => {
            &&& after == Ui { music_cache: after.music_cache, ..before }
            &&& album_art_loaded(before.music_cache, after.music_cache, resized.album_id, resized.bytes)
            &&& effect is Nothing
        },
        Message::FromResizer(ResizerMessage::NonActionableError) => after == before && effect is Nothing,
        Message::Native(WindowEvent::SpaceReleased) => after == before && effect == toggle_effect::<P>(
            before.current_song,
        ),
        Message::Native(WindowEvent::Other) => after == before && effect is Nothing,
        Message::PlayPausedClicked => after == before && effect == Effect::ToAudio(
            AudioAction::<P>::PlayPaused,
        ),
        Message::PlaySongClicked(song_id) => after == before && play_song_effect(
            before.music_cache,
            song_id,
            effect,
        ),
        Message::PauseClicked => after == before && effect == Effect::ToAudio(AudioAction::<P>::Pause),
        Message::ForwardClicked => after == before && effect == Effect::ToAudio(
            AudioAction::<P>::Forward,
        ),
        Message::BackClicked => after == before && effect == Effect::ToAudio(AudioAction::<P>::Back),
        Message::SeekDrag(proportion) => after == Ui {
            progress: Some(ProgressDisplay::Dragging(proportion)),
            ..before
        } && effect is Nothing,
        Message::SeekRelease => after == before && effect == match before.progress {
            Some(ProgressDisplay::Dragging(proportion)) => Effect::ToAudio(AudioAction::Seek(proportion)),
            _ => Effect::Nothing,
        },
        Message::SeekWithoutSong(_) => after == before && effect is Nothing,
        Message::HoveredSong(song_id) => after == Ui { hovered_song_id: Some(song_id), ..before }
            && effect is Nothing,
        Message::UnhoveredSong(song_id) => after == (if before.hovered_song_id == Some(song_id) {
            Ui { hovered_song_id: None, ..before }
        } else {
            before
        }) && effect is Nothing,
        Message::FromAudio(AudioMessage::DisplayUpdate(Some(display))) => {
            &&& after == Ui {
                current_song: after.current_song,
                progress: progress_after_update(before.progress, display.times),
                ..before
            }
            &&& current_song_updated(
                before.current_song,
                after.current_song,
                before.music_cache,
                display,
            )
            &&& effect is Nothing
        },
        Message::FromAudio(AudioMessage::SeekComplete(display)) => {
            &&& after == Ui {
                current_song: after.current_song,
                progress: Some(ProgressDisplay::FromAudio(display.times)),
                ..before
            }
            &&& current_song_updated(
                before.current_song,
                after.current_song,
                before.music_cache,
                display,
            )
            &&& effect is Nothing
        },
        Message::FromAudio(AudioMessage::DisplayUpdate(None)) => after == Ui {
            current_song: None,
            progress: None,
            ..before
        } && effect is Nothing,
        Message::FromAudio(AudioMessage::AudioDied) => after == before && effect
            == Effect::<P>::CloseWindow,
    }
}

/// What a message does to the ui, and the effect the window carries out.
pub fn update<P: Copy, A>(ui: &mut Ui<P, A>, message: Message<P, A>) -> (effect: Effect<P>)
    ensures
        updated(*old(ui), *final(ui), message, effect),
{
    match message {
        Message::GotHwnd => Effect::Nothing,
        Message::FromCrawler(CrawlerMessage::NoAudioDirectory) => {
            ui.crawling_music = false;
            Effect::Nothing
        },
        Message::FromCrawler(CrawlerMessage::DbError) => {
            ui.crawling_music = false;
            Effect::Nothing
        },
        Message::FromCrawler(CrawlerMessage::Done) => {
            ui.crawling_music = false;
            Effect::Nothing
        },
        Message::FromCrawler(CrawlerMessage::CrawledAlbum(crawled)) => {
            let resize = resize_request(&*crawled);
            ui.music_cache.add_crawled_album(*crawled);
            match resize {
                Some(request) => Effect::ToResizer(request),
                None => Effect::Nothing,
            }
        },
        Message::FromResizer(ResizerMessage::ResizedImage(resized)) => {
            ui.music_cache.load_album_art(resized.album_id, resized.bytes);
            Effect::Nothing
        },
        Message::FromResizer(ResizerMessage::NonActionableError) => Effect::Nothing,
        Message::Native(WindowEvent::SpaceReleased) => toggle(ui),
        Message::Native(WindowEvent::Other) => Effect::Nothing,
        Message::PlayPausedClicked => Effect::ToAudio(AudioAction::PlayPaused),
        Message::PlaySongClicked(song_id) => {
            let current = match get_current_song(&ui.music_cache, song_id, true) {
                Some(current) => current,
                None => return Effect::Nothing,
            };
            match ui.music_cache.get_album_queue(current.id, current.album_id) {
                Some(queue) => Effect::ToAudio(AudioAction::PlayQueue(Box::new(queue))),
                None => Effect::Nothing,
            }
        },
        Message::PauseClicked => Effect::ToAudio(AudioAction::Pause),
        Message::ForwardClicked => Effect::ToAudio(AudioAction::Forward),
        Message::BackClicked => Effect::ToAudio(AudioAction::Back),
        Message::SeekDrag(proportion) => {
            ui.progress = Some(ProgressDisplay::Dragging(proportion));
            Effect::Nothing
        },
        Message::SeekRelease => match &ui.progress {
            Some(ProgressDisplay::Dragging(proportion)) => Effect::ToAudio(AudioAction::Seek(*proportion)),
            _ => Effect::Nothing,
        },
        Message::SeekWithoutSong(_) => Effect::Nothing,
        Message::HoveredSong(song_id) => {
            ui.hovered_song_id = Some(song_id);
            Effect::Nothing
        },
        Message::UnhoveredSong(song_id) => {
            let hovered = match ui.hovered_song_id {
                Some(hovered) => hovered == song_id,
                None => false,
            };
            if hovered {
                ui.hovered_song_id = None;
            }
            Effect::Nothing
        },
        Message::FromAudio(AudioMessage::DisplayUpdate(Some(display))) => {
            update_current_song(ui, &display);
            let dragging = match &ui.progress {
                Some(ProgressDisplay::Dragging(_)) => true,
                _ => false,
            };
            if !dragging {
                ui.progress = Some(ProgressDisplay::FromAudio(display.times));
            }
            Effect::Nothing
        },
        Message::FromAudio(AudioMessage::SeekComplete(display)) => {
            update_current_song(ui, &display);
            // deliberately overwrite the dragging state
            ui.progress = Some(ProgressDisplay::FromAudio(display.times));
            Effect::Nothing
        },
        Message::FromAudio(AudioMessage::DisplayUpdate(None)) => {
            ui.current_song = None;
            ui.progress = None;
            Effect::Nothing
        },
        Message::FromAudio(AudioMessage::AudioDied) => Effect::CloseWindow,
    }
}

/// What a song row shows.
#[derive(Debug, Clone, Copy, PartialEq, Eq, Structural)]
pub enum SongRowStatus {
    /// currently playing - show pause button
    Playing,
    /// currently paused - show play_paused button
    Paused,
    /// Both hovered and not currently playing - show play from start button
    Hovered,
    /// Both not playing and not hovered - show nothing
    Blank,
}

/// What the row of song `song_row_id` shows.
pub open spec fn row_status(
    current_song: Option<CurrentSong>,
    hovered_song_id: Option<SongId>,
    song_row_id: SongId,
) -> SongRowStatus {
    if current_song matches Some(song) && song.id == song_row_id {
        if current_song->0.playing {
            SongRowStatus::Playing
        } else {
            SongRowStatus::Paused
        }
    } else if hovered_song_id == Some(song_row_id) {
        SongRowStatus::Hovered
    } else {
        SongRowStatus::Blank
    }
}

pub fn song_row_status(
    current_song: &Option<CurrentSong>,
    hovered_song_id: Option<SongId>,
    song_row_id: SongId,
) -> (s: SongRowStatus)
    ensures
        s == row_status(*current_song, hovered_song_id, song_row_id),
        current_song is Some && current_song->0.id == song_row_id ==> s == (if current_song->0.playing {
            SongRowStatus::Playing
        } else {
            SongRowStatus::Paused
        }),
        s is Hovered ==> hovered_song_id == Some(song_row_id) && !(current_song matches Some(c)
            && c.id == song_row_id),
{
    match current_song {
        Some(song) => {
            if song.id == song_row_id {
                if song.playing {
                    return SongRowStatus::Playing;
                } else {
                    return SongRowStatus::Paused;
                }
            }
        },
        None => {},
    }
    match hovered_song_id {
        Some(hovered) => if hovered == song_row_id {
            SongRowStatus::Hovered
        } else {
            SongRowStatus::Blank
        },
        None => SongRowStatus::Blank,
    }
}

/// The label beside the current song: its album and artist, with a dash between them when
/// there are both.
pub open spec fn album_artist_label_of(album: Option<String>, artist: Option<String>) -> Seq<char> {
    let album_text = match album {
        Some(a) => a@,
        None => Seq::empty(),
    };
    let dash = if album is Some && artist is Some {
        " - "@
    } else {
        Seq::empty()
    };
    let artist_text = match artist {
        Some(a) => a@,
        None => Seq::empty(),
    };
    album_text + dash + artist_text
}

pub fn album_artist_label(current: &CurrentSong) -> (label: String)
    ensures
        label@ == album_artist_label_of(current.album, current.artist),
{
    let mut label = String::new();
    if let Some(album) = &current.album {
        label = concat(label.as_str(), album.as_str());
    }
    if current.album.is_some() && current.artist.is_some() {
        label = concat(label.as_str(), " - ");
    }
    if let Some(artist) = &current.artist {
        label = concat(label.as_str(), artist.as_str());
    }
    proof {
        assert(label@ =~= album_artist_label_of(current.album, current.artist));
    }
    label
}


/// A drag of the progress bar survives the player's display updates, and releasing it seeks
/// to where it was dropped.
pub proof fn lemma_drag_then_release<P, A>(
    u0: Ui<P, A>,
    u1: Ui<P, A>,
    u2: Ui<P, A>,
    u3: Ui<P, A>,
    proportion: P,
    display: PlayerDisplay,
    e1: Effect<P>,
    e2: Effect<P>,
    e3: Effect<P>,
)
    requires
        updated(u0, u1, Message::SeekDrag(proportion), e1),
        updated(u1, u2, Message::FromAudio(AudioMessage::DisplayUpdate(Some(display))), e2),
        updated(u2, u3, Message::SeekRelease, e3),
    ensures
        u2.progress == Some(ProgressDisplay::Dragging(proportion)),
        e3 == Effect::ToAudio(AudioAction::Seek(proportion)),
{
}

/// A completed seek ends a drag: the progress bar shows the player's times.
pub proof fn lemma_seek_complete_ends_drag<P, A>(
    u0: Ui<P, A>,
    u1: Ui<P, A>,
    u2: Ui<P, A>,
    proportion: P,
    display: PlayerDisplay,
    e1: Effect<P>,
    e2: Effect<P>,
)
    requires
        updated(u0, u1, Message::SeekDrag(proportion), e1),
        updated(u1, u2, Message::FromAudio(AudioMessage::SeekComplete(display)), e2),
    ensures
        u2.progress == Some(ProgressDisplay::<P>::FromAudio(display.times)),
{
}

/// Hovering a song and leaving it clears the hover; leaving another song keeps it.
pub proof fn lemma_hover_then_unhover<P, A>(
    u0: Ui<P, A>,
    u1: Ui<P, A>,
    u2: Ui<P, A>,
    hovered: SongId,
    left: SongId,
    e1: Effect<P>,
    e2: Effect<P>,
)
    requires
        updated(u0, u1, Message::HoveredSong(hovered), e1),
        updated(u1, u2, Message::UnhoveredSong(left), e2),
    ensures
        u2.hovered_song_id == (if left == hovered {
            None
        } else {
            Some(hovered)
        }),
{
}

/// Only the crawler's messages, a resized image and the player's display updates change the
/// ui; button clicks and the space key change nothing but send an action to the player.
pub proof fn lemma_actions_keep_ui<P, A>(u0: Ui<P, A>, u1: Ui<P, A>, message: Message<P, A>, e: Effect<P>)
    requires
        updated(u0, u1, message, e),
        message is PlayPausedClicked || message is PauseClicked || message is ForwardClicked
            || message is BackClicked || message is PlaySongClicked || message is Native
            || message is SeekRelease,
    ensures
        u1 == u0,
        e is Nothing || e is ToAudio,
{
}

/// The song shown as the current one carries the song's own id, title and artist, and its
/// album's title: the artist shown is the song's, whatever the album's artist is.
pub proof fn lemma_current_song_shows_the_song_itself(
    c: CurrentSong,
    song: Song,
    album: Album,
    playing: bool,
)
    requires
        is_current_song(c, song, album, playing),
    ensures
        c.id == song.id,
        c.artist == song.artist,
        c.album == album.title,
        c.album_id == album.id,
        c.playing == playing,
        c.total_seconds == song.total_seconds,
        album.artist != song.artist ==> c.artist != album.artist,
{
}

/// The row of the current song shows whether it plays or is paused, whatever is hovered:
/// two calls that differ only in the hovered song give the same status. A row shows as
/// hovered only when it is hovered and is not the current song's row.
pub proof fn lemma_current_row_ignores_the_hover(
    current_song: Option<CurrentSong>,
    hovered: Option<SongId>,
    other_hovered: Option<SongId>,
    song_row_id: SongId,
)
    ensures
        current_song is Some && current_song->0.id == song_row_id ==> {
            &&& row_status(current_song, hovered, song_row_id) == row_status(
                current_song,
                other_hovered,
                song_row_id,
            )
            &&& current_song->0.playing ==> row_status(current_song, hovered, song_row_id) is Playing
            &&& !current_song->0.playing ==> row_status(current_song, hovered, song_row_id) is Paused
        },
        row_status(current_song, hovered, song_row_id) is Hovered ==> hovered == Some(song_row_id)
            && !(current_song matches Some(c) && c.id == song_row_id),
        row_status(current_song, hovered, song_row_id) is Playing || row_status(
            current_song,
            hovered,
            song_row_id,
        ) is Paused ==> (current_song matches Some(c) && c.id == song_row_id),
{
}

} // verus!
