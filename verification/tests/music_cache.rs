use clef::crawler::CrawledAlbum;
use clef::db::{Album, Song};
use clef::ids::{AlbumId, SongId};
use clef::music_cache::MusicCache;

fn fake_album() -> CrawledAlbum<()> {
    let album_id = AlbumId::new(1);
    let album = Album {
        id: album_id,
        directory: "Album Dir".to_string(),
        title: Some("Album Title".to_string()),
        artist: Some("Fake Artist".to_string()),
        release_date: None,
        original_art: None,
        resized_art: None,
    };

    let songs = vec![
        fake_song(1, "First", album_id),
        fake_song(2, "Second", album_id),
        fake_song(3, "Third", album_id),
        fake_song(4, "Fourth", album_id),
        fake_song(5, "Fifth", album_id),
    ];

    CrawledAlbum { album, songs, cached_art: None }
}

fn fake_song(number: i32, title: &str, album_id: AlbumId) -> Song {
    Song {
        id: SongId::new(number),
        album_id,
        file: title.to_string(),
        title: Some(title.to_string()),
        artist: Some("Fake Artist".to_string()),
        track_number: Some(number),
        total_seconds: 100,
    }
}

fn album_with(id: i32, artist: Option<&str>, title: Option<&str>, directory: &str) -> CrawledAlbum<()> {
    CrawledAlbum {
        album: Album {
            id: AlbumId::new(id),
            directory: directory.to_string(),
            title: title.map(|t| t.to_string()),
            artist: artist.map(|a| a.to_string()),
            release_date: None,
            original_art: None,
            resized_art: None,
        },
        songs: vec![],
        cached_art: None,
    }
}

#[test]
fn get_album_queue_smoke() {
    let mut music_cache = MusicCache::<()>::new();
    let album = fake_album();
    music_cache.add_crawled_album(album.clone());

    let clicked = &album.songs[2];
    let queue = music_cache
        .get_album_queue(clicked.id, clicked.album_id)
        .unwrap();

    assert_eq!(queue.current.id, SongId::new(3));

    let previous_ids: Vec<SongId> =
        queue.previous.into_iter().map(|queued| queued.id).collect();
    assert_eq!(previous_ids, vec![SongId::new(1), SongId::new(2)]);

    let next_ids: Vec<SongId> = queue.next.into_iter().map(|queued| queued.id).collect();
    assert_eq!(next_ids, vec![SongId::new(4), SongId::new(5)]);
}

#[test]
fn album_queue_entries_carry_album_and_length() {
    let mut music_cache = MusicCache::<()>::new();
    let mut album = fake_album();
    album.album.resized_art = Some("art.bmp".to_string());
    album.songs[0].total_seconds = -1;
    music_cache.add_crawled_album(album);

    let queue = music_cache.get_album_queue(SongId::new(1), AlbumId::new(1)).unwrap();
    assert!(queue.previous.is_empty());
    assert_eq!(queue.current.duration, None);
    assert_eq!(queue.current.album_title.as_deref(), Some("Album Title"));
    assert_eq!(queue.current.resized_art.as_deref(), Some("art.bmp"));
    assert_eq!(queue.next[0].duration, Some(100));
    assert_eq!(queue.next.len(), 4);
}

#[test]
fn album_queue_for_unknown_song_or_album_is_none() {
    let mut music_cache = MusicCache::<()>::new();
    music_cache.add_crawled_album(fake_album());
    assert!(music_cache.get_album_queue(SongId::new(9), AlbumId::new(1)).is_none());
    assert!(music_cache.get_album_queue(SongId::new(1), AlbumId::new(2)).is_none());
}

#[test]
fn albums_are_listed_by_artist_then_title_with_missing_last() {
    let mut music_cache = MusicCache::<()>::new();
    music_cache.add_crawled_album(album_with(1, None, Some("Zeta"), "d1"));
    music_cache.add_crawled_album(album_with(2, Some("Beta"), Some("B"), "d2"));
    music_cache.add_crawled_album(album_with(3, Some("Alpha"), None, "/music/Gamma"));
    music_cache.add_crawled_album(album_with(4, Some("Alpha"), Some("Delta"), "d4"));
    music_cache.add_crawled_album(album_with(5, Some("Beta"), Some("B"), "d5"));

    let ids: Vec<i32> = music_cache.albums().iter().map(|a| a.album.id.unpack()).collect();
    // equal keys keep the order in which they were added
    assert_eq!(ids, vec![4, 3, 2, 5, 1]);
}

#[test]
fn songs_and_albums_are_found_by_id() {
    let mut music_cache = MusicCache::<()>::new();
    music_cache.add_crawled_album(fake_album());
    let song = music_cache.get_song(&SongId::new(4)).unwrap();
    assert_eq!(song.title.as_deref(), Some("Fourth"));
    assert!(music_cache.get_song(&SongId::new(6)).is_none());
    let album = music_cache.get_album(&AlbumId::new(1)).unwrap();
    assert_eq!(album.title.as_deref(), Some("Album Title"));
    assert!(music_cache.get_album(&AlbumId::new(2)).is_none());
}

#[test]
fn loaded_art_goes_to_its_album_only() {
    let mut music_cache = MusicCache::<u32>::new();
    let mut a = CrawledAlbum { album: fake_album().album, songs: vec![], cached_art: None };
    a.album.id = AlbumId::new(7);
    music_cache.add_crawled_album(a);
    music_cache.load_album_art(AlbumId::new(8), 1);
    assert_eq!(music_cache.albums()[0].art, None);
    music_cache.load_album_art(AlbumId::new(7), 2);
    assert_eq!(music_cache.albums()[0].art, Some(2));
}

#[test]
fn a_song_added_again_is_found_as_last_added() {
    let mut music_cache = MusicCache::<()>::new();
    music_cache.add_crawled_album(fake_album());
    let mut again = album_with(2, Some("Other"), Some("Other"), "other");
    let mut song = fake_song(3, "Third Again", AlbumId::new(2));
    song.title = Some("Third Again".to_string());
    again.songs.push(song);
    music_cache.add_crawled_album(again);
    assert_eq!(music_cache.get_song(&SongId::new(3)).unwrap().title.as_deref(), Some("Third Again"));
    assert_eq!(music_cache.get_song(&SongId::new(2)).unwrap().title.as_deref(), Some("Second"));
}
