use clef::crawler::{CrawledAlbum, CrawlerMessage};
use clef::db::{Album, Song};
use clef::ids::{AlbumId, SongId};
use clef::player::{AudioAction, AudioMessage, PlayerDisplay};
use clef::resizer::{ResizeRequest, ResizedImage, ResizerMessage};
use clef::track::ProgressTimes;
use clef::ui::{
    album_artist_label, song_row_status, toggle, update, CurrentSong, Effect, Message,
    ProgressDisplay, SongRowStatus, Ui, WindowEvent,
};

fn fake_album() -> CrawledAlbum<u8> {
    let album_id = AlbumId::new(1);
    let album = Album {
        id: album_id,
        directory: "Album Dir".to_string(),
        title: Some("Album Title".to_string()),
        artist: Some("Fake Artist".to_string()),
        release_date: None,
        original_art: None,
        resized_art: None,
    };
    let songs = (1..=5)
        .map(|n| Song {
            id: SongId::new(n),
            album_id,
            file: format!("song {n}"),
            title: Some(format!("Song {n}")),
            artist: Some("Fake Artist".to_string()),
            track_number: Some(n),
            total_seconds: 100,
        })
        .collect();
    CrawledAlbum { album, songs, cached_art: None }
}

fn crawled_album_message(crawled: &CrawledAlbum<u8>) -> Message<f32, u8> {
    let crawled = Box::new(crawled.clone());
    Message::FromCrawler(CrawlerMessage::CrawledAlbum(crawled))
}

fn display(song: i32, playing: bool) -> PlayerDisplay {
    PlayerDisplay {
        song_id: SongId::new(song),
        playing,
        times: ProgressTimes { elapsed: 3, remaining: 97, total: 100 },
    }
}

#[test]
fn crawled_album_with_no_original_art_sends_no_resize_request() {
    let mut ui = Ui::<f32, u8>::new();

    let mut crawled = fake_album();
    crawled.cached_art = None;
    crawled.album.original_art = None;

    let message = crawled_album_message(&crawled);

    let effect = update(&mut ui, message);

    assert!(matches!(effect, Effect::Nothing))
}

#[test]
fn crawled_album_with_cached_resized_art_sends_no_resize_request() {
    let mut ui = Ui::<f32, u8>::new();

    let mut crawled = fake_album();
    crawled.cached_art = Some(0);
    crawled.album.original_art = Some("original".to_string());

    let message = crawled_album_message(&crawled);

    let effect = update(&mut ui, message);

    assert!(matches!(effect, Effect::Nothing))
}

#[test]
fn crawled_album_with_no_cached_resized_art_sends_resize_request() {
    let mut ui = Ui::<f32, u8>::new();
    let mut crawled = fake_album();
    crawled.cached_art = None;
    crawled.album.original_art = Some("original".to_string());

    let message = crawled_album_message(&crawled);

    let effect = update(&mut ui, message);

    match effect {
        Effect::ToResizer(ResizeRequest { album_id, source_path, .. }) => {
            assert_eq!(album_id, crawled.album.id);
            assert_eq!(source_path, crawled.album.original_art.unwrap());
        }
        _ => panic!("expected resize request"),
    }
}

#[test]
fn resize_request_names_the_album_by_its_directory_without_a_title() {
    let mut ui = Ui::<f32, u8>::new();
    let mut crawled = fake_album();
    crawled.album.title = None;
    crawled.album.directory = "/music/Some Dir".to_string();
    crawled.album.original_art = Some("cover.png".to_string());
    match update(&mut ui, crawled_album_message(&crawled)) {
        Effect::ToResizer(request) => assert_eq!(request.album_title, "Some Dir"),
        _ => panic!("expected resize request"),
    }
}

#[test]
fn crawler_end_messages_stop_crawling() {
    for message in [CrawlerMessage::NoAudioDirectory, CrawlerMessage::DbError, CrawlerMessage::Done] {
        let mut ui = Ui::<f32, u8>::new();
        assert!(ui.crawling_music);
        let effect = update(&mut ui, Message::FromCrawler(message));
        assert!(matches!(effect, Effect::Nothing));
        assert!(!ui.crawling_music);
    }
}

#[test]
fn clicking_a_song_plays_its_album_from_it() {
    let mut ui = Ui::<f32, u8>::new();
    update(&mut ui, crawled_album_message(&fake_album()));
    match update(&mut ui, Message::PlaySongClicked(SongId::new(2))) {
        Effect::ToAudio(AudioAction::PlayQueue(queue)) => {
            assert_eq!(queue.current.id, SongId::new(2));
            assert_eq!(queue.previous.len(), 1);
            assert_eq!(queue.next.len(), 3);
        }
        _ => panic!("expected a queue to play"),
    }
    assert!(matches!(update(&mut ui, Message::PlaySongClicked(SongId::new(9))), Effect::Nothing));
}

#[test]
fn display_updates_show_the_current_song() {
    let mut ui = Ui::<f32, u8>::new();
    update(&mut ui, crawled_album_message(&fake_album()));
    let effect = update(&mut ui, Message::FromAudio(AudioMessage::DisplayUpdate(Some(display(3, true)))));
    assert!(matches!(effect, Effect::Nothing));
    let current = ui.current_song.as_ref().unwrap();
    assert_eq!(current.id, SongId::new(3));
    assert_eq!(current.title, "Song 3");
    assert!(current.playing);
    assert_eq!(ui.progress, Some(ProgressDisplay::FromAudio(display(3, true).times)));

    update(&mut ui, Message::FromAudio(AudioMessage::DisplayUpdate(Some(display(3, false)))));
    assert!(!ui.current_song.as_ref().unwrap().playing);

    update(&mut ui, Message::FromAudio(AudioMessage::DisplayUpdate(None)));
    assert!(ui.current_song.is_none());
    assert!(ui.progress.is_none());
}

#[test]
fn dragging_survives_display_updates_until_released() {
    let mut ui = Ui::<f32, u8>::new();
    update(&mut ui, Message::SeekDrag(0.25));
    update(&mut ui, Message::FromAudio(AudioMessage::DisplayUpdate(Some(display(1, true)))));
    assert_eq!(ui.progress, Some(ProgressDisplay::Dragging(0.25)));
    match update(&mut ui, Message::SeekRelease) {
        Effect::ToAudio(AudioAction::Seek(p)) => assert_eq!(p, 0.25),
        _ => panic!("expected a seek"),
    }
    update(&mut ui, Message::FromAudio(AudioMessage::SeekComplete(display(1, true))));
    assert_eq!(ui.progress, Some(ProgressDisplay::FromAudio(display(1, true).times)));
    assert!(matches!(update(&mut ui, Message::SeekRelease), Effect::Nothing));
}

#[test]
fn hovering_and_leaving_songs() {
    let mut ui = Ui::<f32, u8>::new();
    update(&mut ui, Message::HoveredSong(SongId::new(1)));
    assert_eq!(ui.hovered_song_id, Some(SongId::new(1)));
    update(&mut ui, Message::UnhoveredSong(SongId::new(2)));
    assert_eq!(ui.hovered_song_id, Some(SongId::new(1)));
    update(&mut ui, Message::UnhoveredSong(SongId::new(1)));
    assert_eq!(ui.hovered_song_id, None);
}

#[test]
fn buttons_and_keys_send_actions() {
    let mut ui = Ui::<f32, u8>::new();
    assert!(matches!(update(&mut ui, Message::PauseClicked), Effect::ToAudio(AudioAction::Pause)));
    assert!(matches!(update(&mut ui, Message::PlayPausedClicked), Effect::ToAudio(AudioAction::PlayPaused)));
    assert!(matches!(update(&mut ui, Message::ForwardClicked), Effect::ToAudio(AudioAction::Forward)));
    assert!(matches!(update(&mut ui, Message::BackClicked), Effect::ToAudio(AudioAction::Back)));
    assert!(matches!(update(&mut ui, Message::Native(WindowEvent::SpaceReleased)), Effect::Nothing));
    assert!(matches!(update(&mut ui, Message::Native(WindowEvent::Other)), Effect::Nothing));
    assert!(matches!(update(&mut ui, Message::SeekWithoutSong(0.5)), Effect::Nothing));
    assert!(matches!(update(&mut ui, Message::GotHwnd), Effect::Nothing));
    assert!(matches!(update(&mut ui, Message::FromAudio(AudioMessage::AudioDied)), Effect::CloseWindow));
    assert!(matches!(Effect::<f32>::none(), Effect::Nothing));
}

#[test]
fn space_toggles_playing() {
    let mut ui = Ui::<f32, u8>::new();
    update(&mut ui, crawled_album_message(&fake_album()));
    update(&mut ui, Message::FromAudio(AudioMessage::DisplayUpdate(Some(display(1, true)))));
    assert!(matches!(toggle(&ui), Effect::ToAudio(AudioAction::Pause)));
    update(&mut ui, Message::FromAudio(AudioMessage::DisplayUpdate(Some(display(1, false)))));
    assert!(matches!(
        update(&mut ui, Message::Native(WindowEvent::SpaceReleased)),
        Effect::ToAudio(AudioAction::PlayPaused)
    ));
}

#[test]
fn resized_art_is_loaded() {
    let mut ui = Ui::<f32, u8>::new();
    update(&mut ui, crawled_album_message(&fake_album()));
    let resized = ResizedImage { album_id: AlbumId::new(1), file: "f.bmp".to_string(), bytes: 9u8 };
    let effect = update(&mut ui, Message::FromResizer(ResizerMessage::ResizedImage(resized)));
    assert!(matches!(effect, Effect::Nothing));
    assert_eq!(ui.music_cache.albums()[0].art, Some(9));
    let effect = update(&mut ui, Message::FromResizer(ResizerMessage::NonActionableError));
    assert!(matches!(effect, Effect::Nothing));
}

fn current(id: i32, playing: bool, album: Option<&str>, artist: Option<&str>) -> CurrentSong {
    CurrentSong {
        id: SongId::new(id),
        album_id: AlbumId::new(1),
        title: "t".to_string(),
        album: album.map(|s| s.to_string()),
        artist: artist.map(|s| s.to_string()),
        playing,
        total_seconds: 10,
    }
}

#[test]
fn song_rows_show_playing_paused_hovered_or_nothing() {
    let playing = Some(current(1, true, None, None));
    let paused = Some(current(1, false, None, None));
    assert_eq!(song_row_status(&playing, Some(SongId::new(1)), SongId::new(1)), SongRowStatus::Playing);
    assert_eq!(song_row_status(&paused, None, SongId::new(1)), SongRowStatus::Paused);
    assert_eq!(song_row_status(&playing, Some(SongId::new(2)), SongId::new(2)), SongRowStatus::Hovered);
    assert_eq!(song_row_status(&None, None, SongId::new(2)), SongRowStatus::Blank);
    assert_eq!(song_row_status(&playing, Some(SongId::new(3)), SongId::new(2)), SongRowStatus::Blank);
}

#[test]
fn album_artist_label_joins_with_a_dash() {
    assert_eq!(album_artist_label(&current(1, true, Some("Al"), Some("Ar"))), "Al - Ar");
    assert_eq!(album_artist_label(&current(1, true, Some("Al"), None)), "Al");
    assert_eq!(album_artist_label(&current(1, true, None, Some("Ar"))), "Ar");
    assert_eq!(album_artist_label(&current(1, true, None, None)), "");
}

#[test]
fn current_song_falls_back_to_the_file_stem() {
    let album = fake_album().album;
    let mut song = fake_album().songs[0].clone();
    song.title = None;
    song.file = "/music/dir/track one.mp3".to_string();
    let c = CurrentSong::new(&song, &album, false);
    assert_eq!(c.title, "track one");
    assert_eq!(c.album.as_deref(), Some("Album Title"));
    assert!(!c.playing);
}
