use std::cmp::Ordering;
use std::collections::VecDeque;

use clef::crawler::{
    album_dir_order, entry_kind, is_audio_extension, is_cover_art, is_image_extension, is_music,
    new_album, new_song, original_art, sort_by_track_number, step, CrawledAlbum, CrawledSong,
    CrawlerMessage, CrawlerState, EntryKind,
};
use clef::db::{Album, ConnectionOptions, Song};
use clef::hover_zone;
use clef::hoverable;
use clef::ids::{AlbumId, SongId};
use clef::images::{BgraBytes, RgbBytes};
use clef::media_controls::{action_for_event, ControlEvent};
use clef::order::{
    artist_then_title_with_nones_last, compare_text, compare_tuples_with_nones_last, with_nones_last,
};
use clef::player::AudioAction;
use clef::preloader::{preload_done, PreloaderError};
use clef::queue::Queue;
use clef::resizer::{
    after_inbox, after_resize, resized_file_name, resized_image_path, Inbox, ResizeRequest,
    ResizedImage, ResizerMessage, ResizerState,
};
use clef::tags::{decoded_metadata, gather_tags, IgnoredTagError, RawTag, StandardTagKey, TagKey, TagMap};
use clef::text::{decimal, file_url, parse_i32, signed_decimal};
use clef::track::{first_playable, TimeBase, TrackInfo};

fn queue(previous: Vec<i32>, current: i32, next: Vec<i32>) -> Queue<i32> {
    Queue { previous, current, next: VecDeque::from(next) }
}

#[test]
fn queue_forward_then_back_restores_it() {
    let q = queue(vec![1], 2, vec![3, 4]);
    let moved = q.clone().try_forward().unwrap();
    assert_eq!(moved, queue(vec![1, 2], 3, vec![4]));
    assert_eq!(moved.try_back().unwrap(), q);
}

#[test]
fn queue_moves_past_the_ends_fail_unchanged() {
    let q = queue(vec![], 1, vec![]);
    assert_eq!(q.clone().try_forward().unwrap_err(), q);
    assert_eq!(q.clone().try_back().unwrap_err(), q);
}

#[test]
fn texts_compare_by_character() {
    assert_eq!(compare_text("abc", "abd"), Ordering::Less);
    assert_eq!(compare_text("ab", "abc"), Ordering::Less);
    assert_eq!(compare_text("b", "abc"), Ordering::Greater);
    assert_eq!(compare_text("Zoo", "apple"), Ordering::Less);
    assert_eq!(compare_text("same", "same"), Ordering::Equal);
}

#[test]
fn missing_values_sort_last() {
    let a = Some("a".to_string());
    assert_eq!(with_nones_last(&None, &a), Ordering::Greater);
    assert_eq!(with_nones_last(&a, &None), Ordering::Less);
    assert_eq!(with_nones_last(&None, &None), Ordering::Equal);
    let k1 = (Some("Artist".to_string()), Some("B".to_string()));
    let k2 = (Some("Artist".to_string()), None);
    let k3 = (None, Some("A".to_string()));
    assert_eq!(artist_then_title_with_nones_last(&k1, &k2), Ordering::Less);
    assert_eq!(artist_then_title_with_nones_last(&k3, &k1), Ordering::Greater);
    assert_eq!(artist_then_title_with_nones_last(&k1, &k1.clone()), Ordering::Equal);
}

#[test]
fn numbers_are_written_and_read_in_decimal() {
    assert_eq!(decimal(0), "0");
    assert_eq!(decimal(18446744073709551615), "18446744073709551615");
    assert_eq!(signed_decimal(-2147483648), "-2147483648");
    assert_eq!(signed_decimal(42), "42");
    assert_eq!(parse_i32("7"), Some(7));
    assert_eq!(parse_i32("+7"), Some(7));
    assert_eq!(parse_i32("-12"), Some(-12));
    assert_eq!(parse_i32("2147483647"), Some(i32::MAX));
    assert_eq!(parse_i32("-2147483648"), Some(i32::MIN));
    assert_eq!(parse_i32("2147483648"), None);
    assert_eq!(parse_i32(""), None);
    assert_eq!(parse_i32("-"), None);
    assert_eq!(parse_i32("3/12"), None);
    assert_eq!(file_url("/a/b.png"), "file:///a/b.png");
}

#[test]
fn connections_set_the_busy_timeout_first() {
    let options = ConnectionOptions { enable_wal: true, enable_foreign_keys: true, busy_timeout: Some(30000) };
    assert_eq!(
        options.pragma_statements(),
        vec![
            "PRAGMA busy_timeout = 30000;",
            "PRAGMA journal_mode = WAL;",
            "PRAGMA synchronous = NORMAL;",
            "PRAGMA foreign_keys = ON;",
        ]
    );
    let none = ConnectionOptions { enable_wal: false, enable_foreign_keys: false, busy_timeout: None };
    assert!(none.pragma_statements().is_empty());
}

#[test]
fn display_titles_fall_back_to_the_path() {
    let album = Album {
        id: AlbumId::new(1),
        directory: "/music/The Dir".to_string(),
        title: None,
        artist: None,
        release_date: None,
        original_art: None,
        resized_art: None,
    };
    assert_eq!(album.display_title(), Some("The Dir"));
    let song = Song {
        id: SongId::new(1),
        album_id: AlbumId::new(1),
        file: "/music/The Dir/01 Song.flac".to_string(),
        title: None,
        artist: None,
        track_number: None,
        total_seconds: 1,
    };
    assert_eq!(song.display_title(), Some("01 Song"));
    assert_eq!(AlbumId::new(5).unpack(), 5);
}

#[test]
fn tag_keys_keep_the_ones_in_use() {
    assert_eq!(TagKey::try_from(StandardTagKey::Album), Ok(TagKey::Album));
    assert_eq!(TagKey::try_from(StandardTagKey::TrackNumber), Ok(TagKey::TrackNumber));
    assert_eq!(TagKey::try_from(StandardTagKey::Encoder), Err(IgnoredTagError::Ignored));
}

fn raw(key: Option<StandardTagKey>, value: &str) -> RawTag {
    RawTag { std_key: key, value: value.to_string() }
}

#[test]
fn gathered_tags_keep_the_last_value_of_each_key() {
    let tags = gather_tags(vec![
        raw(Some(StandardTagKey::Artist), "first"),
        raw(None, "no key"),
        raw(Some(StandardTagKey::Encoder), "ignored"),
        raw(Some(StandardTagKey::Artist), "second"),
        raw(Some(StandardTagKey::TrackTitle), "Title"),
    ]);
    assert_eq!(tags.get(&TagKey::Artist).map(|s| s.as_str()), Some("second"));
    assert_eq!(tags.get(&TagKey::TrackTitle).map(|s| s.as_str()), Some("Title"));
    assert_eq!(tags.get(&TagKey::Album), None);
}

#[test]
fn metadata_needs_timing() {
    let untimed = TrackInfo { id: 0, time_base: None, duration: None };
    assert!(decoded_metadata(&untimed, None, None).is_none());
    let timed = TrackInfo { id: 0, time_base: Some(TimeBase::new(1, 44100)), duration: Some(44100 * 185 + 100) };
    let decoded = decoded_metadata(
        &timed,
        None,
        Some(vec![raw(Some(StandardTagKey::Album), "probed")]),
    )
    .unwrap();
    assert_eq!(decoded.total_seconds, 185);
    assert_eq!(decoded.tags.get(&TagKey::Album).map(|s| s.as_str()), Some("probed"));
    let decoded = decoded_metadata(
        &timed,
        Some(vec![raw(Some(StandardTagKey::Album), "format")]),
        Some(vec![raw(Some(StandardTagKey::Album), "probed")]),
    )
    .unwrap();
    assert_eq!(decoded.tags.get(&TagKey::Album).map(|s| s.as_str()), Some("format"));
}

#[test]
fn progress_times_count_whole_seconds() {
    let tb = TimeBase::new(1, 1000);
    assert_eq!(tb.calc_seconds(2999), 2);
    assert_eq!(tb.numer(), 1);
    assert_eq!(tb.denom(), 1000);
    let info = TrackInfo { id: 1, time_base: Some(tb), duration: Some(10_000) };
    let p = info.progress_times(12_000).unwrap();
    assert_eq!((p.elapsed, p.remaining, p.total), (12, 0, 10));
    let from = TrackInfo::from_codec_params(3, Some(tb), Some(500), 20);
    assert_eq!(from.duration, Some(520));
    assert_eq!(TrackInfo::from_codec_params(3, None, None, 20).duration, None);
}

#[test]
fn preloading_stops_after_two_seconds() {
    let info = TrackInfo { id: 1, time_base: Some(TimeBase::new(1, 1000)), duration: Some(10_000) };
    assert_eq!(preload_done(&info, 2_999), Ok(false));
    assert_eq!(preload_done(&info, 3_000), Ok(true));
    let untimed = TrackInfo { id: 1, time_base: None, duration: Some(10_000) };
    assert_eq!(preload_done(&untimed, 3_000), Err(PreloaderError::Other("missing track info".to_string())));
}

#[test]
fn media_control_events_become_actions() {
    assert!(matches!(action_for_event::<f32>(ControlEvent::Play), Some(AudioAction::PlayPaused)));
    assert!(matches!(action_for_event::<f32>(ControlEvent::Pause), Some(AudioAction::Pause)));
    assert!(matches!(action_for_event::<f32>(ControlEvent::Toggle), Some(AudioAction::Toggle)));
    assert!(matches!(action_for_event::<f32>(ControlEvent::Next), Some(AudioAction::Forward)));
    assert!(matches!(action_for_event::<f32>(ControlEvent::Previous), Some(AudioAction::Back)));
    assert!(action_for_event::<f32>(ControlEvent::Quit).is_none());
}

#[test]
fn music_and_art_are_told_by_extension() {
    assert!(is_music("/m/a.mp3"));
    assert!(is_music("b.flac"));
    assert!(!is_music("c.wav"));
    assert!(!is_music("mp3"));
    assert!(is_cover_art("/m/cover.jpg"));
    assert!(is_cover_art("x.png"));
    assert!(!is_cover_art("x.mp3"));
    assert!(is_audio_extension("flac") && !is_audio_extension("FLAC"));
    assert!(is_image_extension("jpg") && !is_image_extension("jpeg"));
}

#[test]
fn entries_are_music_cover_art_or_skipped() {
    assert_eq!(entry_kind("/m/a.mp3"), EntryKind::Music);
    assert_eq!(entry_kind("/m/a.flac"), EntryKind::Music);
    assert_eq!(entry_kind("/m/cover.png"), EntryKind::CoverArt);
    assert_eq!(entry_kind("/m/cover.jpg"), EntryKind::CoverArt);
    assert_eq!(entry_kind("/m/notes.txt"), EntryKind::Other);
    assert_eq!(entry_kind("/m/noext"), EntryKind::Other);
}

#[test]
fn a_tag_map_keeps_one_value_per_key_and_clones_whole() {
    let mut tags = TagMap::new();
    assert_eq!(tags.get(&TagKey::Album), None);
    tags.insert(TagKey::Album, "first".to_string());
    tags.insert(TagKey::Artist, "someone".to_string());
    tags.insert(TagKey::Album, "second".to_string());
    assert_eq!(tags.get(&TagKey::Album).map(|s| s.as_str()), Some("second"));
    assert_eq!(tags.get(&TagKey::Artist).map(|s| s.as_str()), Some("someone"));
    assert_eq!(tags.get(&TagKey::Genre), None);
    let copy = tags.clone();
    assert_eq!(copy, tags);
    assert_eq!(copy.get(&TagKey::Album).map(|s| s.as_str()), Some("second"));
}

#[test]
fn the_original_art_is_the_largest_cover_the_last_of_equals() {
    assert_eq!(original_art(&vec![]), None);
    let covers = vec![
        ("a.jpg".to_string(), 10),
        ("b.jpg".to_string(), 30),
        ("c.png".to_string(), 20),
        ("d.png".to_string(), 30),
        ("e.png".to_string(), 5),
    ];
    assert_eq!(original_art(&covers).as_deref(), Some("d.png"));
}

fn crawled_song(path: &str, tags: Vec<(StandardTagKey, &str)>, total_seconds: u64) -> CrawledSong {
    let tags: TagMap = gather_tags(tags.into_iter().map(|(k, v)| raw(Some(k), v)).collect());
    CrawledSong { path: path.to_string(), tags, total_seconds }
}

#[test]
fn albums_and_songs_come_from_the_tags() {
    let songs = vec![
        crawled_song(
            "d/1.mp3",
            vec![(StandardTagKey::Album, "Al"), (StandardTagKey::Artist, "Ar"), (StandardTagKey::Date, "1999"), (StandardTagKey::TrackNumber, "4"), (StandardTagKey::TrackTitle, "One")],
            61,
        ),
        crawled_song("d/2.mp3", vec![(StandardTagKey::Album, "Other"), (StandardTagKey::TrackNumber, "4/12")], 3),
    ];
    let album = new_album("d", &songs, Some("d/cover.jpg".to_string()));
    assert_eq!(album.directory, "d");
    assert_eq!(album.title.as_deref(), Some("Al"));
    assert_eq!(album.artist.as_deref(), Some("Ar"));
    assert_eq!(album.release_date.as_deref(), Some("1999"));
    assert_eq!(album.original_art.as_deref(), Some("d/cover.jpg"));
    assert_eq!(album.resized_art, None);
    assert_eq!(new_album("d", &vec![], None).title, None);

    let first = new_song(AlbumId::new(3), &songs[0]);
    assert_eq!(first.album_id, AlbumId::new(3));
    assert_eq!(first.file, "d/1.mp3");
    assert_eq!(first.title.as_deref(), Some("One"));
    assert_eq!(first.artist.as_deref(), Some("Ar"));
    assert_eq!(first.track_number, Some(4));
    assert_eq!(first.total_seconds, 61);
    let second = new_song(AlbumId::new(3), &songs[1]);
    assert_eq!(second.track_number, None);
    assert_eq!(second.title, None);
}

#[test]
fn songs_are_sorted_by_track_number_stably() {
    let song = |id: i32, track: Option<i32>| Song {
        id: SongId::new(id),
        album_id: AlbumId::new(1),
        file: format!("{id}"),
        title: None,
        artist: None,
        track_number: track,
        total_seconds: 0,
    };
    let sorted = sort_by_track_number(vec![
        song(1, Some(3)),
        song(2, None),
        song(3, Some(1)),
        song(4, Some(3)),
        song(5, None),
        song(6, Some(-2)),
    ]);
    let ids: Vec<i32> = sorted.iter().map(|s| s.id.unpack()).collect();
    assert_eq!(ids, vec![2, 5, 6, 3, 1, 4]);
}

type Crawled = (Result<CrawledAlbum<u8>, Option<CrawlerMessage<u8>>>, u32);

fn fake_crawled(dir: &str) -> CrawledAlbum<u8> {
    CrawledAlbum {
        album: Album {
            id: AlbumId::new(1),
            directory: dir.to_string(),
            title: None,
            artist: None,
            release_date: None,
            original_art: None,
            resized_art: None,
        },
        songs: vec![],
        cached_art: None,
    }
}

fn no_dirs() -> Option<Vec<String>> {
    None
}

fn no_conn() -> Option<u32> {
    None
}

fn no_crawl(_dir: String, conn: u32) -> Crawled {
    (Err(None), conn)
}

#[test]
fn album_directories_are_crawled_in_order_of_name() {
    let dirs = vec!["/m/b".to_string(), "/x/a".to_string(), "/m/c".to_string(), "/y/a".to_string()];
    assert_eq!(album_dir_order(dirs.clone()).unwrap(), vec!["/x/a", "/y/a", "/m/b", "/m/c"]);
    assert_eq!(album_dir_order(vec!["/m/a".to_string(), "".to_string()]), None);

    let (message, mut state) =
        step(CrawlerState::Initial, move || Some(dirs), || Some(7u32), no_crawl).unwrap();
    assert!(message.is_none());
    let mut crawled = Vec::new();
    loop {
        let (message, next) = step(
            state,
            no_dirs,
            no_conn,
            |dir: String, conn: u32| -> Crawled {
                assert_eq!(conn, 7);
                crawled.push(dir.clone());
                (Ok(fake_crawled(&dir)), conn)
            },
        )
        .unwrap();
        state = next;
        match state {
            CrawlerState::Final => {
                assert!(matches!(message, Some(CrawlerMessage::Done)));
                break;
            }
            _ => assert!(matches!(message, Some(CrawlerMessage::CrawledAlbum(_)))),
        }
    }
    assert_eq!(crawled, vec!["/x/a", "/y/a", "/m/b", "/m/c"]);
    let (message, state) = step(state, no_dirs, no_conn, no_crawl).unwrap();
    assert!(message.is_none());
    assert!(matches!(state, CrawlerState::Final));
}

#[test]
fn the_crawler_reports_why_it_found_nothing() {
    let (message, state) = step(CrawlerState::Initial, no_dirs, || -> Option<u32> { panic!("no connection without directories") }, no_crawl).unwrap();
    assert!(matches!(message, Some(CrawlerMessage::NoAudioDirectory)));
    assert!(matches!(state, CrawlerState::Final));
    let (message, state) = step(CrawlerState::Initial, || Some(vec!["/m/a".to_string()]), no_conn, no_crawl).unwrap();
    assert!(matches!(message, Some(CrawlerMessage::DbError)));
    assert!(matches!(state, CrawlerState::Final));
    assert!(step(CrawlerState::Initial, || Some(vec!["".to_string()]), || Some(1u32), no_crawl).is_none());
}

#[test]
fn each_crawled_directory_gives_its_album_or_its_message() {
    let start = || CrawlerState::AlbumDirectories(vec!["e".to_string(), "d".to_string()], 3u32);
    let (message, state) =
        step(start(), no_dirs, no_conn, |dir: String, c: u32| -> Crawled { (Ok(fake_crawled(&dir)), c + 1) })
            .unwrap();
    assert!(matches!(message, Some(CrawlerMessage::CrawledAlbum(ref a)) if a.album.directory == "d"));
    assert!(matches!(state, CrawlerState::AlbumDirectories(ref rest, 4) if rest == &vec!["e".to_string()]));
    let (message, _) = step(start(), no_dirs, no_conn, |_d: String, c: u32| -> Crawled {
        (Err(Some(CrawlerMessage::DbError)), c)
    })
    .unwrap();
    assert!(matches!(message, Some(CrawlerMessage::DbError)));
    let (message, _) = step(start(), no_dirs, no_conn, no_crawl).unwrap();
    assert!(message.is_none());
}

#[test]
fn resized_images_are_named_by_title_id_and_size() {
    assert_eq!(resized_file_name("AC/DC \\ Live", AlbumId::new(7)), "ACDC  Live_7_256.bmp");
    assert_eq!(resized_file_name("", AlbumId::new(-1)), "_-1_256.bmp");
    assert_eq!(resized_image_path("/images", "A/B", AlbumId::new(3)), "/images/AB_3_256.bmp");
}

#[test]
fn the_resizer_follows_its_inbox() {
    let request = ResizeRequest { album_id: AlbumId::new(1), album_title: "t".to_string(), source_path: "s".to_string() };
    assert_eq!(after_inbox::<u8>(Inbox::Request(request.clone())).unwrap(), request);
    assert!(matches!(after_inbox::<u8>(Inbox::Empty), Err((None, ResizerState::Working))));
    assert!(matches!(
        after_inbox::<u8>(Inbox::Disconnected),
        Err((Some(ResizerMessage::NonActionableError), ResizerState::Stopped))
    ));
    let image = ResizedImage { album_id: AlbumId::new(1), file: "f".to_string(), bytes: 1u8 };
    assert!(matches!(after_resize(Some(image)), (Some(ResizerMessage::ResizedImage(_)), ResizerState::Working)));
    assert!(matches!(after_resize::<u8>(None), (None, ResizerState::Working)));
}

#[test]
fn hover_states_record_changes() {
    let mut zone = hover_zone::State::new();
    assert!(!zone.is_hovered());
    assert!(zone.set_hovered(true));
    assert!(!zone.set_hovered(true));
    assert!(zone.is_hovered());
    let mut row = hoverable::State::new();
    assert!(!row.set_hovered(false));
    assert!(row.set_hovered(true));
    assert!(row.set_hovered(false));
    assert!(!row.is_hovered());
    assert_eq!(hover_zone::State::default(), hover_zone::State::new());
    assert_eq!(hoverable::State::default(), hoverable::State::new());
}

#[test]
fn images_keep_their_pixels() {
    let bgra = BgraBytes::new(1, 2, vec![1, 2, 3, 4, 5, 6, 7, 8]);
    assert_eq!((bgra.height(), bgra.width()), (1, 2));
    assert_eq!(bgra.into_bytes().len(), 8);
    let rgb = RgbBytes::new(2, 1, vec![9; 6]);
    assert_eq!((rgb.height(), rgb.width()), (2, 1));
    assert_eq!(rgb.into_bytes(), vec![9; 6]);
}

#[test]
fn artist_and_title_tuples_sort_missing_artists_last() {
    let a = (Some("Artist".to_string()), "B".to_string());
    let b = (Some("Artist".to_string()), "A".to_string());
    let c = (None, "A".to_string());
    assert_eq!(compare_tuples_with_nones_last(&a, &b), Ordering::Greater);
    assert_eq!(compare_tuples_with_nones_last(&c, &b), Ordering::Greater);
    assert_eq!(compare_tuples_with_nones_last(&b, &c), Ordering::Less);
    assert_eq!(compare_tuples_with_nones_last(&c, &(None, "B".to_string())), Ordering::Less);
    assert_eq!(compare_tuples_with_nones_last(&a, &a.clone()), Ordering::Equal);
}

#[test]
fn the_first_track_with_a_codec_is_played() {
    assert_eq!(first_playable(&vec![]), None);
    assert_eq!(first_playable(&vec![false, false]), None);
    assert_eq!(first_playable(&vec![true, true]), Some(0));
    assert_eq!(first_playable(&vec![false, true, true]), Some(1));
}
