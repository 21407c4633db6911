//! The music the ui knows of: the albums in the order they are listed, their songs, and their
//! art once it is loaded.
use std::collections::{HashMap, VecDeque};

use vstd::prelude::*;

use crate::crawler::CrawledAlbum;
use crate::db::{album_display_title, Album, Song};
use crate::ids::{AlbumId, SongId};
use crate::order::{lemma_listed_no_later, listed_in_order, listed_no_later, no_later, AlbumSortKey};
use crate::player::QueuedSong;
use crate::queue::{Queue, QueueView};
use crate::text::clone_text;

verus! {

broadcast use vstd::std_specs::hash::group_hash_axioms;

/// An album with its songs, in track order, and its art once loaded. `A` is the ui's
/// representation of an image; the cache only carries it.
#[derive(Debug)]
pub struct CachedAlbum<A> {
    pub album: Album,
    pub songs: Vec<Song>,
    pub art: Option<A>,
}

/// The sort keys of a listing.
pub open spec fn keys_of(listing: Seq<(AlbumId, AlbumSortKey)>) -> Seq<AlbumSortKey> {
    listing.map_values(|e: (AlbumId, AlbumSortKey)| e.1)
}

/// Whether `key` is the sort key of `album`: its artist, then its display title.
pub open spec fn is_sort_key_of(key: AlbumSortKey, album: Album) -> bool {
    &&& key.0 == album.artist
    &&& match (key.1, album_display_title(album)) {
        (Some(t), Some(d)) => t@ == d,
        (None, None) => true,
        _ => false,
    }
}

/// `after` is `before` with `entry` placed after every album that may be listed before it,
/// and before all the others: where a stable sort puts an album added at the end.
pub open spec fn placed_in_order(
    before: Seq<(AlbumId, AlbumSortKey)>,
    after: Seq<(AlbumId, AlbumSortKey)>,
    entry: (AlbumId, AlbumSortKey),
) -> bool {
    exists|k: int|
        {
            &&& 0 <= k <= before.len()
            &&& after == before.insert(k, entry)
            &&& forall|i: int| 0 <= i < k ==> listed_no_later(#[trigger] before[i].1, entry.1)
            &&& forall|i: int|
                k <= i < before.len() ==> !listed_no_later(#[trigger] before[i].1, entry.1)
        }
}

/// The songs map after inserting `songs` one after the other, keyed by id.
pub open spec fn with_songs(m: Map<i32, Song>, songs: Seq<Song>) -> Map<i32, Song>
    decreases songs.len(),
{
    if songs.len() == 0 {
        m
    } else {
        with_songs(m, songs.drop_last()).insert(songs.last().id.id(), songs.last())
    }
}

/// The albums of a listing that the map holds, in listing order.
pub open spec fn listed_albums<A>(
    listing: Seq<(AlbumId, AlbumSortKey)>,
    albums: Map<i32, CachedAlbum<A>>,
) -> Seq<CachedAlbum<A>>
    decreases listing.len(),
{
    if listing.len() == 0 {
        Seq::empty()
    } else {
        let rest = listed_albums(listing.drop_last(), albums);
        let id = listing.last().0.id();
        if albums.contains_key(id) {
            rest.push(albums[id])
        } else {
            rest
        }
    }
}

/// The queue entry for a song of an album. A negative length is unknown.
pub open spec fn queued_song(song: Song, album: Album) -> QueuedSong {
    QueuedSong {
        id: song.id,
        path: song.file,
        title: song.title,
        artist: song.artist,
        album_title: album.title,
        resized_art: album.resized_art,
        duration: if song.total_seconds >= 0 {
            Some(song.total_seconds as u64)
        } else {
            None
        },
    }
}

/// The queue entries for songs of an album.
pub open spec fn queued_songs(songs: Seq<Song>, album: Album) -> Seq<QueuedSong> {
    songs.map_values(|s: Song| queued_song(s, album))
}

/// Whether `k` is the first position of the song `id` in `songs`.
pub open spec fn first_position(songs: Seq<Song>, id: SongId, k: int) -> bool {
    &&& 0 <= k < songs.len()
    &&& songs[k].id == id
    &&& forall|j: int| 0 <= j < k ==> (#[trigger] songs[j]).id != id
}

/// The album queue that starts at position `k` of an album's songs.
pub open spec fn album_queue_at<A>(album: CachedAlbum<A>, k: int) -> QueueView<QueuedSong> {
    QueueView {
        previous: queued_songs(album.songs@.take(k), album.album),
        current: queued_song(album.songs@[k], album.album),
        next: queued_songs(album.songs@.skip(k + 1), album.album),
    }
}

/// `after` is `before` with a crawled album added: its songs by id, the album by id, and the
/// album placed in the listing after every album that may be listed before it.
pub open spec fn crawled_album_added<A>(
    before: MusicCache<A>,
    after: MusicCache<A>,
    crawled: CrawledAlbum<A>,
) -> bool {
    &&& after.song_map() == with_songs(before.song_map(), crawled.songs@)
    &&& after.album_map() == before.album_map().insert(
        crawled.album.id.id(),
        CachedAlbum { album: crawled.album, songs: crawled.songs, art: crawled.cached_art },
    )
    &&& exists|entry: (AlbumId, AlbumSortKey)|
        {
            &&& entry.0 == crawled.album.id
            &&& is_sort_key_of(entry.1, crawled.album)
            &&& placed_in_order(before.listing(), after.listing(), entry)
        }
}

/// `after` is `before` with art given to the album `album_id`, if it is known; otherwise
/// nothing changed.
pub open spec fn album_art_loaded<A>(
    before: MusicCache<A>,
    after: MusicCache<A>,
    album_id: AlbumId,
    image: A,
) -> bool {
    &&& after.listing() == before.listing()
    &&& after.song_map() == before.song_map()
    &&& after.album_map() == if before.album_map().contains_key(album_id.id()) {
        before.album_map().insert(
            album_id.id(),
            CachedAlbum { art: Some(image), ..before.album_map()[album_id.id()] },
        )
    } else {
        before.album_map()
    }
}

/// The queue for playing the album `album_id` from the song `clicked`: the album's songs
/// before the first song with that id, that song, and the songs after it. None when the album
/// is unknown or has no such song.
pub open spec fn album_queue_of<A>(
    cache: MusicCache<A>,
    clicked: SongId,
    album_id: AlbumId,
) -> Option<QueueView<QueuedSong>> {
    let album = cache.album_map()[album_id.id()];
    if cache.album_map().contains_key(album_id.id()) && exists|k: int|
        first_position(album.songs@, clicked, k) {
        Some(album_queue_at(album, choose|k: int| first_position(album.songs@, clicked, k)))
    } else {
        None
    }
}

/// A song has at most one first position.
proof fn lemma_first_position_unique(songs: Seq<Song>, id: SongId, k1: int, k2: int)
    requires
        first_position(songs, id, k1),
        first_position(songs, id, k2),
    ensures
        k1 == k2,
{
    if k1 < k2 {
        assert(songs[k1].id != id);
    } else if k2 < k1 {
        assert(songs[k2].id != id);
    }
}

/// The queue entry for a song of an album.
fn queue_entry(song: &Song, album: &Album) -> (q: QueuedSong)
    ensures
        q == queued_song(*song, *album),
        q.id == song.id,
        q.title == song.title,
        q.artist == song.artist,
        q.album_title == album.title,
{
    let duration = if song.total_seconds >= 0 {
        Some(song.total_seconds as u64)
    } else {
        None
    };
    QueuedSong {
        id: song.id,
        path: song.file.clone(),
        title: clone_text(&song.title),
        artist: clone_text(&song.artist),
        album_title: clone_text(&album.title),
        resized_art: clone_text(&album.resized_art),
        duration,
    }
}

/// Albums by id with their sort keys, kept in listing order.
#[derive(Debug)]
struct AlbumListing {
    entries: Vec<(AlbumId, AlbumSortKey)>,
}

impl AlbumListing {
    /// The albums are listed in album order.
    #[verifier::type_invariant]
    spec fn listed_by_album_order(self) -> bool {
        listed_in_order(keys_of(self.entries@))
    }

    /// Places an album after every album that may be listed before it, and before the others.
    fn insert_in_order(&mut self, entry: (AlbumId, AlbumSortKey))
        ensures
            placed_in_order(old(self).entries@, final(self).entries@, entry),
            listed_in_order(keys_of(final(self).entries@)),
    {
        proof {
            use_type_invariant(&*self);
        }
        let ghost before = self.entries@;
        let mut entries: Vec<(AlbumId, AlbumSortKey)> = Vec::new();
        std::mem::swap(&mut entries, &mut self.entries);
        let mut pos = entries.len();
        while pos > 0
            invariant
                pos <= entries@.len(),
                entries@ == before,
                forall|i: int|
                    pos <= i < entries@.len() ==> !listed_no_later(#[trigger] entries@[i].1, entry.1),
            ensures
                pos == 0 || listed_no_later(before[pos - 1].1, entry.1),
            decreases pos,
        {
            if no_later(&entries[pos - 1].1, &entry.1) {
                break;
            }
            pos = pos - 1;
        }
        proof {
            assert forall|i: int| 0 <= i < pos implies listed_no_later(
                #[trigger] before[i].1,
                entry.1,
            ) by {
                if i < pos - 1 {
                    lemma_listed_at(before, i, pos - 1);
                    lemma_listed_no_later(before[i].1, before[pos - 1].1, entry.1);
                }
            }
        }
        entries.insert(pos, entry);
        let ghost after = entries@;
        proof {
            assert forall|i: int, j: int| 0 <= i < j < keys_of(after).len() implies #[trigger]
                listed_no_later(keys_of(after)[i], keys_of(after)[j]) by {
                assert(keys_of(after)[i] == after[i].1);
                assert(keys_of(after)[j] == after[j].1);
                if j < pos {
                    lemma_listed_at(before, i, j);
                } else if j == pos {
                } else if i < pos {
                    lemma_listed_at(before, i, j - 1);
                } else if i == pos {
                    lemma_listed_no_later(before[j - 1].1, entry.1, entry.1);
                } else {
                    lemma_listed_at(before, i - 1, j - 1);
                }
            }
            assert(placed_in_order(before, after, entry)) by {
                assert(after == before.insert(pos as int, entry));
            }
        }
        self.entries = entries;
    }
}

/// Reads the order of two entries off a listing in order.
proof fn lemma_listed_at(listing: Seq<(AlbumId, AlbumSortKey)>, i: int, j: int)
    requires
        listed_in_order(keys_of(listing)),
        0 <= i < j < listing.len(),
    ensures
        listed_no_later(listing[i].1, listing[j].1),
{
    assert(keys_of(listing)[i] == listing[i].1);
    assert(keys_of(listing)[j] == listing[j].1);
}

/// Songs by raw id, each under its own id.
#[derive(Debug)]
struct SongsById {
    map: HashMap<i32, Song>,
}

impl SongsById {
    /// Each song is kept under its own id.
    #[verifier::type_invariant]
    spec fn keyed(self) -> bool {
        forall|k: i32| #[trigger] self.map@.contains_key(k) ==> self.map@[k].id.id() == k
    }

    /// Keeps `song` under its id, replacing a song of the same id.
    fn insert(&mut self, song: Song)
        ensures
            final(self).map@ == old(self).map@.insert(song.id.id(), song),
    {
        proof {
            use_type_invariant(&*self);
        }
        let mut map: HashMap<i32, Song> = HashMap::new();
        std::mem::swap(&mut map, &mut self.map);
        map.insert(song.id.unpack(), song);
        self.map = map;
    }
}

/// Albums by raw id, each under its own id.
#[derive(Debug)]
struct AlbumsById<A> {
    map: HashMap<i32, CachedAlbum<A>>,
}

impl<A> AlbumsById<A> {
    /// Each album is kept under its own id.
    #[verifier::type_invariant]
    spec fn keyed(self) -> bool {
        forall|k: i32| #[trigger] self.map@.contains_key(k) ==> self.map@[k].album.id.id() == k
    }

    /// Keeps `cached` under its album's id, replacing an album of the same id.
    fn insert(&mut self, cached: CachedAlbum<A>)
        ensures
            final(self).map@ == old(self).map@.insert(cached.album.id.id(), cached),
    {
        proof {
            use_type_invariant(&*self);
        }
        let mut map: HashMap<i32, CachedAlbum<A>> = HashMap::new();
        std::mem::swap(&mut map, &mut self.map);
        map.insert(cached.album.id.unpack(), cached);
        self.map = map;
    }

    /// Gives the album `id` its art, if it is kept; otherwise nothing changes.
    fn give_art(&mut self, id: i32, image: A)
        ensures
            final(self).map@ == if old(self).map@.contains_key(id) {
                old(self).map@.insert(id, CachedAlbum { art: Some(image), ..old(self).map@[id] })
            } else {
                old(self).map@
            },
    {
        proof {
            use_type_invariant(&*self);
        }
        let mut map: HashMap<i32, CachedAlbum<A>> = HashMap::new();
        std::mem::swap(&mut map, &mut self.map);
        let ghost before = map@;
        if let Some(cached) = map.remove(&id) {
            let updated = CachedAlbum { album: cached.album, songs: cached.songs, art: Some(image) };
            map.insert(id, updated);
            proof {
                assert(map@ =~= before.insert(id, CachedAlbum { art: Some(image), ..before[id] }));
            }
        } else {
            proof {
                assert(map@ =~= before);
            }
        }
        self.map = map;
    }
}

/// Whether the cache keeps each song and each album under its own id.
pub open spec fn keyed_by_id<A>(cache: MusicCache<A>) -> bool {
    &&& forall|k: i32| #[trigger] cache.song_map().contains_key(k) ==> cache.song_map()[k].id.id() == k
    &&& forall|k: i32| #[trigger] cache.album_map().contains_key(k) ==> cache.album_map()[k].album.id.id()
        == k
}

/// What the ui knows of the music: albums by id in listing order, and songs by id.
#[derive(Debug)]
pub struct MusicCache<A> {
    album_display_order: AlbumListing,
    songs_by_id: SongsById,
    albums_by_id: AlbumsById<A>,
}

impl<A> MusicCache<A> {
    /// The albums in the order they are listed, each with its sort key.
    pub closed spec fn listing(self) -> Seq<(AlbumId, AlbumSortKey)> {
        self.album_display_order.entries@
    }

    /// The songs, by id.
    pub closed spec fn song_map(self) -> Map<i32, Song> {
        self.songs_by_id.map@
    }

    /// The albums, by id.
    pub closed spec fn album_map(self) -> Map<i32, CachedAlbum<A>> {
        self.albums_by_id.map@
    }

    pub fn new() -> (c: Self)
        ensures
            c.listing() == Seq::<(AlbumId, AlbumSortKey)>::empty(),
            c.song_map() == Map::<i32, Song>::empty(),
            c.album_map() == Map::<i32, CachedAlbum<A>>::empty(),
            listed_in_order(keys_of(c.listing())),
            keyed_by_id(c),
    {
        MusicCache {
            album_display_order: AlbumListing { entries: Vec::new() },
            songs_by_id: SongsById { map: HashMap::new() },
            albums_by_id: AlbumsById { map: HashMap::new() },
        }
    }

    /// The albums in listing order.
    pub fn albums(&self) -> (r: Vec<&CachedAlbum<A>>)
        ensures
            r@.map_values(|a: &CachedAlbum<A>| *a) == listed_albums(self.listing(), self.album_map()),
    {
        let mut albums: Vec<&CachedAlbum<A>> = Vec::new();
        let n = self.album_display_order.entries.len();
        let mut i: usize = 0;
        while i < n
            invariant
                n == self.album_display_order.entries@.len(),
                i <= n,
                albums@.map_values(|a: &CachedAlbum<A>| *a) == listed_albums(
                    self.album_display_order.entries@.take(i as int),
                    self.albums_by_id.map@,
                ),
            decreases n - i,
        {
            let album_id = self.album_display_order.entries[i].0.unpack();
            proof {
                assert(self.album_display_order.entries@.take(i + 1).drop_last()
                    =~= self.album_display_order.entries@.take(i as int));
            }
            let ghost before = albums@;
            if let Some(album) = self.albums_by_id.map.get(&album_id) {
                albums.push(album);
                proof {
                    assert(albums@.map_values(|a: &CachedAlbum<A>| *a) =~= before.map_values(
                        |a: &CachedAlbum<A>| *a,
                    ).push(*album));
                }
            }
            i = i + 1;
        }
        proof {
            assert(self.album_display_order.entries@.take(n as int) =~= self.album_display_order.entries@);
        }
        albums
    }

    /// The song with this id, if any.
    pub fn get_song(&self, song_id: &SongId) -> (r: Option<&Song>)
        ensures
            match r {
                Some(song) => self.song_map().contains_key(song_id.id()) && *song
                    == self.song_map()[song_id.id()] && song.id == *song_id,
                None => !self.song_map().contains_key(song_id.id()),
            },
    {
        proof {
            use_type_invariant(&self.songs_by_id);
        }
        let r = self.songs_by_id.map.get(&song_id.unpack());
        proof {
            if let Some(song) = r {
                SongId::lemma_id_equal(song.id, *song_id);
            }
        }
        r
    }

    /// The album with this id, if any.
    pub fn get_album(&self, album_id: &AlbumId) -> (r: Option<&Album>)
        ensures
            match r {
                Some(album) => self.album_map().contains_key(album_id.id()) && *album
                    == self.album_map()[album_id.id()].album && album.id == *album_id,
                None => !self.album_map().contains_key(album_id.id()),
            },
    {
        proof {
            use_type_invariant(&self.albums_by_id);
        }
        match self.albums_by_id.map.get(&album_id.unpack()) {
            Some(cached) => {
                proof {
                    AlbumId::lemma_id_equal(cached.album.id, *album_id);
                }
                Some(&cached.album)
            },
            None => None,
        }
    }

    /// Gives the album its art, if the album is known; otherwise nothing changes.
    pub fn load_album_art(&mut self, album_id: AlbumId, image_bytes: A)
        ensures
            album_art_loaded(*old(self), *final(self), album_id, image_bytes),
            listed_in_order(keys_of(final(self).listing())),
            keyed_by_id(*final(self)),
    {
        proof {
            use_type_invariant(&self.album_display_order);
        }
        proof {
            use_type_invariant(&self.songs_by_id);
            use_type_invariant(&self.albums_by_id);
        }
        self.albums_by_id.give_art(album_id.unpack(), image_bytes);
        proof {
            use_type_invariant(&self.albums_by_id);
        }
    }

    /// Adds a crawled album: its songs by id, the album by id, and the album to the listing,
    /// after every album that may be listed before it.
    pub fn add_crawled_album(&mut self, crawled: CrawledAlbum<A>)
        ensures
            crawled_album_added(*old(self), *final(self), crawled),
            listed_in_order(keys_of(final(self).listing())),
            keyed_by_id(*final(self)),
    {
        let n = crawled.songs.len();
        let mut i: usize = 0;
        while i < n
            invariant
                n == crawled.songs@.len(),
                i <= n,
                self.songs_by_id.map@ == with_songs(
                    old(self).songs_by_id.map@,
                    crawled.songs@.take(i as int),
                ),
                self.albums_by_id.map@ == old(self).albums_by_id.map@,
                self.album_display_order == old(self).album_display_order,
            decreases n - i,
        {
            let song = crawled.songs[i].clone();
            proof {
                assert(crawled.songs@.take(i + 1).drop_last() =~= crawled.songs@.take(i as int));
            }
            self.songs_by_id.insert(song);
            i = i + 1;
        }
        proof {
            assert(crawled.songs@.take(n as int) =~= crawled.songs@);
        }
        let title = match crawled.album.display_title() {
            Some(t) => Some(t.to_owned()),
            None => None,
        };
        let key: AlbumSortKey = (clone_text(&crawled.album.artist), title);
        let album_id = crawled.album.id;
        let ghost entry = (album_id, key);
        self.album_display_order.insert_in_order((album_id, key));
        proof {
            assert(is_sort_key_of(entry.1, crawled.album));
        }
        let cached_album = CachedAlbum {
            album: crawled.album,
            songs: crawled.songs,
            art: crawled.cached_art,
        };
        self.albums_by_id.insert(cached_album);
        proof {
            use_type_invariant(&self.songs_by_id);
            use_type_invariant(&self.albums_by_id);
        }
        proof {
            assert(entry.0 == crawled.album.id && is_sort_key_of(entry.1, crawled.album)
                && placed_in_order(old(self).listing(), self.listing(), entry));
        }
    }

    /// The queue for playing an album from a clicked song: the album's songs before the
    /// first song with that id, that song, and the songs after it. None when the album is
    /// unknown or has no song with that id.
    pub fn get_album_queue(&self, clicked_song_id: SongId, clicked_album_id: AlbumId) -> (r:
        Option<Queue<QueuedSong>>)
        ensures
            match r {
                None => album_queue_of(*self, clicked_song_id, clicked_album_id) is None,
                Some(q) => album_queue_of(*self, clicked_song_id, clicked_album_id) == Some(q@),
            },
            r matches Some(q) ==> first_position(
                self.album_map()[clicked_album_id.id()].songs@,
                clicked_song_id,
                q.previous@.len() as int,
            ),
            r matches Some(q) ==> (q@.items().len()
                == self.album_map()[clicked_album_id.id()].songs@.len() && forall|j: int|
                0 <= j < q@.items().len() ==> (#[trigger] q@.items()[j]).title
                == self.album_map()[clicked_album_id.id()].songs@[j].title && q@.items()[j].artist
                == self.album_map()[clicked_album_id.id()].songs@[j].artist),
    {
        let cached_album = match self.albums_by_id.map.get(&clicked_album_id.unpack()) {
            Some(cached) => cached,
            None => return None,
        };
        let ghost queue_of = album_queue_of(*self, clicked_song_id, clicked_album_id);
        let ghost songs = cached_album.songs@;
        let ghost album = cached_album.album;
        let mut previous: Vec<QueuedSong> = Vec::new();
        let mut next: VecDeque<QueuedSong> = VecDeque::new();
        let mut current: Option<QueuedSong> = None;
        let ghost mut k: int = 0;
        let n = cached_album.songs.len();
        let mut i: usize = 0;
        while i < n
            invariant
                n == songs.len(),
                i <= n,
                songs == cached_album.songs@,
                album == cached_album.album,
                current is None ==> {
                    &&& previous@ == queued_songs(songs.take(i as int), album)
                    &&& next@.len() == 0
                    &&& forall|j: int| 0 <= j < i ==> (#[trigger] songs[j]).id != clicked_song_id
                },
                current matches Some(c) ==> {
                    &&& k < i
                    &&& first_position(songs, clicked_song_id, k)
                    &&& previous@ == queued_songs(songs.take(k), album)
                    &&& c == queued_song(songs[k], album)
                    &&& next@ == queued_songs(songs.subrange(k + 1, i as int), album)
                },
            decreases n - i,
        {
            let album_song = &cached_album.songs[i];
            let queued = queue_entry(album_song, &cached_album.album);
            if current.is_none() {
                if album_song.id == clicked_song_id {
                    current = Some(queued);
                    proof {
                        k = i as int;
                        assert(songs.subrange(k + 1, i + 1) =~= Seq::<Song>::empty());
                        assert(queued_songs(songs.subrange(k + 1, i + 1), album) =~= next@);
                    }
                } else {
                    proof {
                        assert(queued_songs(songs.take(i + 1), album) =~= queued_songs(
                            songs.take(i as int),
                            album,
                        ).push(queued));
                    }
                    previous.push(queued);
                }
            } else {
                proof {
                    assert(queued_songs(songs.subrange(k + 1, i + 1), album) =~= queued_songs(
                        songs.subrange(k + 1, i as int),
                        album,
                    ).push(queued));
                }
                next.push_back(queued);
            }
            i = i + 1;
        }
        match current {
            Some(current) => {
                let queue = Queue { previous, current, next };
                proof {
                    assert(songs.subrange(k + 1, n as int) =~= songs.skip(k + 1));
                    assert(queue@ == album_queue_at(*cached_album, k));
                    let chosen = choose|k: int| first_position(songs, clicked_song_id, k);
                    lemma_first_position_unique(songs, clicked_song_id, k, chosen);
                    lemma_album_queue_entries_are_the_albums_songs(
                        *self,
                        clicked_song_id,
                        clicked_album_id,
                        queue@,
                    );
                }
                Some(queue)
            },
            None => {
                proof {
                    if exists|k: int| first_position(songs, clicked_song_id, k) {
                        let chosen = choose|k: int| first_position(songs, clicked_song_id, k);
                        assert(songs[chosen].id == clicked_song_id);
                    }
                }
                None
            },
        }
    }
}


/// The album queue holds all the album's songs in album order, with the clicked song current.
pub proof fn lemma_album_queue_items<A>(album: CachedAlbum<A>, k: int)
    requires
        0 <= k < album.songs@.len(),
    ensures
        album_queue_at(album, k).items() == queued_songs(album.songs@, album.album),
        album_queue_at(album, k).position() == k,
        album_queue_at(album, k).current == queued_song(album.songs@[k], album.album),
{
    let songs = album.songs@;
    assert(songs =~= songs.take(k) + seq![songs[k]] + songs.skip(k + 1));
    assert(album_queue_at(album, k).items() =~= queued_songs(songs, album.album));
}


/// Each entry of the queue for playing an album from a clicked song stands for the album's
/// song at its position: it has that song's id, file, title, artist and length (unknown when
/// negative), with the album's title and art; the current entry is the clicked song.
pub proof fn lemma_album_queue_entries_are_the_albums_songs<A>(
    cache: MusicCache<A>,
    clicked: SongId,
    album_id: AlbumId,
    q: QueueView<QueuedSong>,
)
    requires
        album_queue_of(cache, clicked, album_id) == Some(q),
    ensures
        q.items().len() == cache.album_map()[album_id.id()].songs@.len(),
        forall|j: int|
            0 <= j < q.items().len() ==> {
                let song = cache.album_map()[album_id.id()].songs@[j];
                let entry = #[trigger] q.items()[j];
                &&& entry.id == song.id
                &&& entry.path == song.file
                &&& entry.title == song.title
                &&& entry.artist == song.artist
                &&& entry.album_title == cache.album_map()[album_id.id()].album.title
                &&& entry.resized_art == cache.album_map()[album_id.id()].album.resized_art
                &&& (song.total_seconds >= 0 ==> entry.duration == Some(song.total_seconds as u64))
                &&& (song.total_seconds < 0 ==> entry.duration is None)
            },
        q.current.id == clicked,
        q.current.title == cache.album_map()[album_id.id()].songs@[q.previous.len() as int].title,
{
    let album = cache.album_map()[album_id.id()];
    let k = choose|k: int| first_position(album.songs@, clicked, k);
    lemma_album_queue_items(album, k);
    assert forall|j: int| 0 <= j < q.items().len() implies {
        let song = album.songs@[j];
        let entry = #[trigger] q.items()[j];
        &&& entry.id == song.id
        &&& entry.path == song.file
        &&& entry.title == song.title
        &&& entry.artist == song.artist
        &&& entry.album_title == album.album.title
        &&& entry.resized_art == album.album.resized_art
        &&& (song.total_seconds >= 0 ==> entry.duration == Some(song.total_seconds as u64))
        &&& (song.total_seconds < 0 ==> entry.duration is None)
    } by {
        assert(q.items()[j] == queued_songs(album.songs@, album.album)[j]);
    }
}


/// After adding songs, each song is found by its id; of songs with the same id, the last one
/// added is the one found.
pub proof fn lemma_with_songs_found(m: Map<i32, Song>, songs: Seq<Song>, i: int)
    requires
        0 <= i < songs.len(),
        forall|j: int| i < j < songs.len() ==> (#[trigger] songs[j]).id.id() != songs[i].id.id(),
    ensures
        with_songs(m, songs).contains_key(songs[i].id.id()),
        with_songs(m, songs)[songs[i].id.id()] == songs[i],
    decreases songs.len(),
{
    if i < songs.len() - 1 {
        lemma_with_songs_found(m, songs.drop_last(), i);
    }
}

/// Adding songs of other ids keeps a song as it was.
pub proof fn lemma_with_songs_keep(m: Map<i32, Song>, songs: Seq<Song>, id: i32)
    requires
        forall|j: int| 0 <= j < songs.len() ==> (#[trigger] songs[j]).id.id() != id,
    ensures
        with_songs(m, songs).contains_key(id) == m.contains_key(id),
        m.contains_key(id) ==> with_songs(m, songs)[id] == m[id],
    decreases songs.len(),
{
    if songs.len() > 0 {
        lemma_with_songs_keep(m, songs.drop_last(), id);
    }
}


/// The album a crawled album becomes in the cache.
pub open spec fn cached_of<A>(crawled: CrawledAlbum<A>) -> CachedAlbum<A> {
    CachedAlbum { album: crawled.album, songs: crawled.songs, art: crawled.cached_art }
}

/// The raw ids of a listing's albums, in listing order.
pub open spec fn listed_ids(listing: Seq<(AlbumId, AlbumSortKey)>) -> Seq<i32> {
    listing.map_values(|e: (AlbumId, AlbumSortKey)| e.0.id())
}

/// Where every album of a listing is in the map, the listed albums are the map's albums of
/// the listing, one for each entry.
proof fn lemma_listed_albums_all_found<A>(
    listing: Seq<(AlbumId, AlbumSortKey)>,
    albums: Map<i32, CachedAlbum<A>>,
)
    requires
        forall|j: int| 0 <= j < listing.len() ==> albums.contains_key(#[trigger] listing[j].0.id()),
    ensures
        listed_albums(listing, albums).len() == listing.len(),
        forall|j: int|
            0 <= j < listing.len() ==> #[trigger] listed_albums(listing, albums)[j]
                == albums[listing[j].0.id()],
    decreases listing.len(),
{
    if listing.len() > 0 {
        lemma_listed_albums_all_found(listing.drop_last(), albums);
        assert(albums.contains_key(listing[listing.len() - 1].0.id()));
    }
}

/// Placing an album where `placed_in_order` says keeps a listing in order.
proof fn lemma_placed_keeps_order(
    before: Seq<(AlbumId, AlbumSortKey)>,
    after: Seq<(AlbumId, AlbumSortKey)>,
    entry: (AlbumId, AlbumSortKey),
)
    requires
        listed_in_order(keys_of(before)),
        placed_in_order(before, after, entry),
    ensures
        listed_in_order(keys_of(after)),
{
    let pos = choose|k: int|
        {
            &&& 0 <= k <= before.len()
            &&& after == before.insert(k, entry)
            &&& forall|i: int| 0 <= i < k ==> listed_no_later(#[trigger] before[i].1, entry.1)
            &&& forall|i: int|
                k <= i < before.len() ==> !listed_no_later(#[trigger] before[i].1, entry.1)
        };
    assert forall|i: int, j: int| 0 <= i < j < keys_of(after).len() implies #[trigger]
        listed_no_later(keys_of(after)[i], keys_of(after)[j]) by {
        assert(keys_of(after)[i] == after[i].1);
        assert(keys_of(after)[j] == after[j].1);
        if j < pos {
            lemma_listed_at(before, i, j);
        } else if j == pos {
        } else if i < pos {
            lemma_listed_at(before, i, j - 1);
        } else if i == pos {
            lemma_listed_no_later(before[j - 1].1, entry.1, entry.1);
        } else {
            lemma_listed_at(before, i - 1, j - 1);
        }
    }
}

/// Adding albums of distinct ids one after another to an empty cache lists each of them
/// exactly once, each with its sort key, in album order, and keeps each under its id.
pub proof fn lemma_adds_list_each_album_once<A>(
    caches: Seq<MusicCache<A>>,
    crawled: Seq<CrawledAlbum<A>>,
)
    requires
        caches.len() == crawled.len() + 1,
        caches[0].listing().len() == 0,
        caches[0].album_map() == Map::<i32, CachedAlbum<A>>::empty(),
        forall|i: int|
            0 <= i < crawled.len() ==> #[trigger] crawled_album_added(
                caches[i],
                caches[i + 1],
                crawled[i],
            ),
        forall|i: int, j: int|
            0 <= i < j < crawled.len() ==> crawled[i].album.id != crawled[j].album.id,
    ensures
        ({
            let last = caches.last();
            let albums = listed_albums(last.listing(), last.album_map());
            &&& last.listing().len() == crawled.len()
            &&& listed_ids(last.listing()).no_duplicates()
            &&& forall|i: int|
                0 <= i < crawled.len() ==> listed_ids(last.listing()).contains(
                    #[trigger] crawled[i].album.id.id(),
                )
            &&& forall|i: int|
                0 <= i < crawled.len() ==> last.album_map().contains_key(
                    #[trigger] crawled[i].album.id.id(),
                ) && last.album_map()[crawled[i].album.id.id()] == cached_of(crawled[i])
            &&& albums.len() == crawled.len()
            &&& forall|j: int|
                0 <= j < albums.len() ==> #[trigger] albums[j] == last.album_map()[last.listing()[j].0.id()]
                    && is_sort_key_of(last.listing()[j].1, albums[j].album)
            &&& listed_in_order(keys_of(last.listing()))
        }),
    decreases crawled.len(),
{
    lemma_adds_invariant(caches, crawled);
    let last = caches.last();
    lemma_listed_albums_all_found(last.listing(), last.album_map());
}

/// What holds after each add: the listing holds exactly the added albums, each once, with its
/// sort key, in order, and the map holds each under its id.
proof fn lemma_adds_invariant<A>(caches: Seq<MusicCache<A>>, crawled: Seq<CrawledAlbum<A>>)
    requires
        caches.len() == crawled.len() + 1,
        caches[0].listing().len() == 0,
        caches[0].album_map() == Map::<i32, CachedAlbum<A>>::empty(),
        forall|i: int|
            0 <= i < crawled.len() ==> #[trigger] crawled_album_added(
                caches[i],
                caches[i + 1],
                crawled[i],
            ),
        forall|i: int, j: int|
            0 <= i < j < crawled.len() ==> crawled[i].album.id != crawled[j].album.id,
    ensures
        ({
            let last = caches.last();
            let ids = listed_ids(last.listing());
            &&& last.listing().len() == crawled.len()
            &&& ids.no_duplicates()
            &&& forall|i: int| 0 <= i < crawled.len() ==> ids.contains(#[trigger] crawled[i].album.id.id())
            &&& forall|j: int|
                0 <= j < ids.len() ==> exists|i: int|
                    0 <= i < crawled.len() && #[trigger] ids[j] == crawled[i].album.id.id()
            &&& forall|i: int|
                0 <= i < crawled.len() ==> last.album_map().contains_key(
                    #[trigger] crawled[i].album.id.id(),
                ) && last.album_map()[crawled[i].album.id.id()] == cached_of(crawled[i])
            &&& forall|j: int|
                0 <= j < last.listing().len() ==> last.album_map().contains_key(
                    #[trigger] last.listing()[j].0.id(),
                ) && is_sort_key_of(
                    last.listing()[j].1,
                    last.album_map()[last.listing()[j].0.id()].album,
                )
            &&& listed_in_order(keys_of(last.listing()))
        }),
    decreases crawled.len(),
{
    let n = crawled.len() as int;
    if n == 0 {
        assert(listed_ids(caches.last().listing()) =~= Seq::<i32>::empty());
        assert(keys_of(caches.last().listing()) =~= Seq::<AlbumSortKey>::empty());
    } else {
        let prev_caches = caches.drop_last();
        let prev = crawled.drop_last();
        assert forall|i: int| 0 <= i < prev.len() implies #[trigger] crawled_album_added(
            prev_caches[i],
            prev_caches[i + 1],
            prev[i],
        ) by {
            assert(crawled_album_added(caches[i], caches[i + 1], crawled[i]));
        }
        lemma_adds_invariant(prev_caches, prev);
        let before = caches[n - 1];
        let after = caches[n];
        let c = crawled[n - 1];
        assert(prev_caches.last() == before);
        let last_i = n - 1;
        assert(crawled_album_added(caches[last_i], caches[last_i + 1], crawled[last_i]));
        let entry = choose|entry: (AlbumId, AlbumSortKey)|
            {
                &&& entry.0 == c.album.id
                &&& is_sort_key_of(entry.1, c.album)
                &&& placed_in_order(before.listing(), after.listing(), entry)
            };
        let k = choose|k: int|
            {
                &&& 0 <= k <= before.listing().len()
                &&& after.listing() == before.listing().insert(k, entry)
                &&& forall|i: int|
                    0 <= i < k ==> listed_no_later(#[trigger] before.listing()[i].1, entry.1)
                &&& forall|i: int|
                    k <= i < before.listing().len() ==> !listed_no_later(
                        #[trigger] before.listing()[i].1,
                        entry.1,
                    )
            };
        lemma_placed_keeps_order(before.listing(), after.listing(), entry);
        let cid = c.album.id.id();
        let old_ids = listed_ids(before.listing());
        let new_ids = listed_ids(after.listing());
        // the new id is none of the earlier ones
        assert forall|i: int| 0 <= i < prev.len() implies #[trigger] prev[i].album.id.id() != cid by {
            assert(crawled[i].album.id != crawled[n - 1].album.id);
            AlbumId::lemma_id_equal(crawled[i].album.id, crawled[n - 1].album.id);
        }
        assert(!old_ids.contains(cid)) by {
            if old_ids.contains(cid) {
                let j = choose|j: int| 0 <= j < old_ids.len() && old_ids[j] == cid;
                let i = choose|i: int| 0 <= i < prev.len() && #[trigger] old_ids[j] == prev[i].album.id.id();
                assert(prev[i].album.id.id() != cid);
            }
        }
        assert(new_ids =~= old_ids.insert(k, cid));
        assert(new_ids.no_duplicates()) by {
            assert forall|a: int, b: int| 0 <= a < b < new_ids.len() implies new_ids[a] != new_ids[b] by {
                if a < k && b < k {
                } else if a < k && b == k {
                    assert(old_ids.contains(old_ids[a]));
                } else if a < k {
                } else if a == k {
                    assert(old_ids[b - 1] == new_ids[b]);
                    assert(old_ids.contains(old_ids[b - 1]));
                } else {
                }
            }
        }
        assert forall|i: int| 0 <= i < n implies new_ids.contains(#[trigger] crawled[i].album.id.id()) by {
            if i < n - 1 {
                assert(prev[i] == crawled[i]);
                assert(old_ids.contains(prev[i].album.id.id()));
                let j = choose|j: int| 0 <= j < old_ids.len() && old_ids[j] == prev[i].album.id.id();
                if j < k {
                    assert(new_ids[j] == old_ids[j]);
                } else {
                    assert(new_ids[j + 1] == old_ids[j]);
                }
            } else {
                assert(new_ids[k] == cid);
            }
        }
        assert forall|j: int| 0 <= j < new_ids.len() implies exists|i: int|
            0 <= i < n && #[trigger] new_ids[j] == crawled[i].album.id.id() by {
            if j == k {
                assert(new_ids[j] == crawled[n - 1].album.id.id());
            } else {
                let oj = if j < k { j } else { j - 1 };
                assert(new_ids[j] == old_ids[oj]);
                let i = choose|i: int| 0 <= i < prev.len() && #[trigger] old_ids[oj] == prev[i].album.id.id();
                assert(prev[i] == crawled[i]);
            }
        }
        assert forall|i: int| 0 <= i < n implies after.album_map().contains_key(
            #[trigger] crawled[i].album.id.id(),
        ) && after.album_map()[crawled[i].album.id.id()] == cached_of(crawled[i]) by {
            if i < n - 1 {
                assert(prev[i] == crawled[i]);
                assert(prev[i].album.id.id() != cid);
            }
        }
        assert forall|j: int| 0 <= j < after.listing().len() implies after.album_map().contains_key(
            #[trigger] after.listing()[j].0.id(),
        ) && is_sort_key_of(
            after.listing()[j].1,
            after.album_map()[after.listing()[j].0.id()].album,
        ) by {
            if j == k {
            } else {
                let oj = if j < k { j } else { j - 1 };
                assert(after.listing()[j] == before.listing()[oj]);
                assert(old_ids[oj] == before.listing()[oj].0.id());
                assert(old_ids.contains(old_ids[oj]));
            }
        }
    }
}

} // verus!
