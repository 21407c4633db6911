//! Crawling the music directory: which files are songs and which are cover art, how the files
//! of a directory become an album and its songs, and in which order directories are crawled.
use vstd::prelude::*;

use crate::db::{Album, NewAlbum, NewSong, Song};
use crate::ids::AlbumId;
use crate::order::{lemma_text_order, text_le, text_order};
use crate::paths::{extension, extension_of, last_component, last_component_of};
use crate::sorting::{lemma_stable_insert, stably_sorted, total_preorder};
use crate::tags::{TagKey, TagMap};
use crate::text::{i32_of, parse_i32, same_text};

verus! {

/// Whether a file extension is one of an audio file.
pub open spec fn is_audio_extension_of(ext: Seq<char>) -> bool {
    ext == "mp3"@ || ext == "flac"@
}

/// Whether a file extension is one of an image file.
pub open spec fn is_image_extension_of(ext: Seq<char>) -> bool {
    ext == "jpg"@ || ext == "png"@
}

/// Whether a file is a song: its extension is one of an audio file.
pub open spec fn is_music_path(path: Seq<char>) -> bool {
    extension_of(path) matches Some(e) && is_audio_extension_of(e)
}

/// Whether a file is cover art: its extension is one of an image file.
pub open spec fn is_cover_art_path(path: Seq<char>) -> bool {
    extension_of(path) matches Some(e) && is_image_extension_of(e)
}

pub fn is_audio_extension(ext: &str) -> (r: bool)
    ensures
        r == is_audio_extension_of(ext@),
{
    same_text(ext, "mp3") || same_text(ext, "flac")
}

pub fn is_image_extension(ext: &str) -> (r: bool)
    ensures
        r == is_image_extension_of(ext@),
{
    same_text(ext, "jpg") || same_text(ext, "png")
}

pub fn is_music(path: &str) -> (r: bool)
    ensures
        r == is_music_path(path@),
{
    match extension(path) {
        Some(ext) => is_audio_extension(ext),
        None => false,
    }
}

pub fn is_cover_art(path: &str) -> (r: bool)
    ensures
        r == is_cover_art_path(path@),
{
    match extension(path) {
        Some(ext) => is_image_extension(ext),
        None => false,
    }
}

/// What the crawler makes of a file in an album directory.
#[derive(Debug, Clone, Copy, PartialEq, Eq, Structural)]
pub enum EntryKind {
    /// A song to read the metadata of.
    Music,
    /// A candidate for the album's cover.
    CoverArt,
    /// Anything else, which is skipped.
    Other,
}

/// The kind of the file at `path`: music where its extension is an audio one, else cover
/// art where it is an image one, else neither.
pub fn entry_kind(path: &str) -> (k: EntryKind)
    ensures
        k == (if is_music_path(path@) {
            EntryKind::Music
        } else if is_cover_art_path(path@) {
            EntryKind::CoverArt
        } else {
            EntryKind::Other
        }),
{
    if is_music(path) {
        EntryKind::Music
    } else if is_cover_art(path) {
        EntryKind::CoverArt
    } else {
        EntryKind::Other
    }
}

/// A song file found by the crawler, with what its metadata says.
#[derive(Debug, Clone)]
pub struct CrawledSong {
    pub path: String,
    pub tags: TagMap,
    /// The song's length in whole seconds.
    pub total_seconds: u64,
}

/// An album found by the crawler, as stored, with its songs in track order and its resized
/// art, when that was already on disk. `A` is the ui's representation of an image.
#[derive(Debug, Clone)]
pub struct CrawledAlbum<A> {
    pub album: Album,
    pub songs: Vec<Song>,
    pub cached_art: Option<A>,
}

/// What the crawler tells the ui.
#[derive(Debug, Clone)]
pub enum CrawlerMessage<A> {
    NoAudioDirectory,
    DbError,
    CrawledAlbum(Box<CrawledAlbum<A>>),
    Done,
}

/// Why the music directory could not be walked.
#[derive(Debug, Clone, Copy, PartialEq, Eq, Structural)]
pub enum MusicDirError {
    /// no audio directory found
    NoAudioDirectory,
    /// error walking audio directory
    WalkError,
}

/// Whether `k` is the position of the largest cover file, the last of equally large ones.
pub open spec fn largest_cover_at(covers: Seq<(String, u64)>, k: int) -> bool {
    &&& 0 <= k < covers.len()
    &&& forall|j: int| 0 <= j < k ==> (#[trigger] covers[j]).1 <= covers[k].1
    &&& forall|j: int| k < j < covers.len() ==> (#[trigger] covers[j]).1 < covers[k].1
}

/// The original art of an album among its cover files, each with its size in bytes: the
/// largest, and of equally large ones the last. None when there are no covers.
pub fn original_art(covers: &Vec<(String, u64)>) -> (r: Option<String>)
    ensures
        match r {
            None => covers@.len() == 0,
            Some(path) => exists|k: int| largest_cover_at(covers@, k) && path == covers@[k].0,
        },
{
    let n = covers.len();
    if n == 0 {
        return None;
    }
    let mut best: usize = 0;
    let mut i: usize = 1;
    while i < n
        invariant
            n == covers@.len(),
            1 <= i <= n,
            best < i,
            largest_cover_at(covers@.take(i as int), best as int),
        decreases n - i,
    {
        if covers[i].1 >= covers[best].1 {
            best = i;
        }
        i = i + 1;
    }
    proof {
        assert(covers@.take(n as int) =~= covers@);
    }
    Some(covers[best].0.clone())
}

/// The value of a tag, if the song has it.
pub open spec fn tag_value(tags: Map<TagKey, String>, key: TagKey) -> Option<String> {
    if tags.contains_key(key) {
        Some(tags[key])
    } else {
        None
    }
}

/// The value of a tag of the first song, if there is a first song and it has the tag.
pub open spec fn first_song_tag(songs: Seq<CrawledSong>, key: TagKey) -> Option<String> {
    if songs.len() > 0 {
        tag_value(songs[0].tags@, key)
    } else {
        None
    }
}

/// The track number of a song: its track number tag read as an `i32`, if that works.
pub open spec fn track_number_of(tags: Map<TagKey, String>) -> Option<i32> {
    match tag_value(tags, TagKey::TrackNumber) {
        Some(t) => i32_of(t@),
        None => None,
    }
}

fn get_tag(tags: &TagMap, key: TagKey) -> (v: Option<String>)
    ensures
        v == tag_value(tags@, key),
{
    match tags.get(&key) {
        Some(value) => Some(value.clone()),
        None => None,
    }
}

/// The album to store for a directory of songs: its title, artist and date from the tags of
/// the first song, and its original art.
pub fn new_album(directory: &str, songs: &Vec<CrawledSong>, original_art: Option<String>) -> (a:
    NewAlbum)
    ensures
        a.directory@ == directory@,
        a.title == first_song_tag(songs@, TagKey::Album),
        a.artist == first_song_tag(songs@, TagKey::Artist),
        a.release_date == first_song_tag(songs@, TagKey::Date),
        a.original_art == original_art,
        a.resized_art is None,
{
    let (title, artist, release_date) = if songs.len() > 0 {
        let tags = &songs[0].tags;
        (get_tag(tags, TagKey::Album), get_tag(tags, TagKey::Artist), get_tag(tags, TagKey::Date))
    } else {
        (None, None, None)
    };
    NewAlbum {
        directory: directory.to_owned(),
        title,
        artist,
        release_date,
        original_art,
        resized_art: None,
    }
}

/// The song to store for a crawled song of the album `album_id`: its title, artist and track
/// number from its tags. Its length is stored as an `i64`, as `as` converts it.
pub fn new_song(album_id: AlbumId, crawled: &CrawledSong) -> (s: NewSong)
    ensures
        s.album_id == album_id,
        s.file == crawled.path,
        s.total_seconds == crawled.total_seconds as i64,
        s.title == tag_value(crawled.tags@, TagKey::TrackTitle),
        s.artist == tag_value(crawled.tags@, TagKey::Artist),
        s.track_number == track_number_of(crawled.tags@),
{
    let track_number = match crawled.tags.get(&TagKey::TrackNumber) {
        Some(t) => parse_i32(t.as_str()),
        None => None,
    };
    NewSong {
        album_id,
        file: crawled.path.clone(),
        title: get_tag(&crawled.tags, TagKey::TrackTitle),
        artist: get_tag(&crawled.tags, TagKey::Artist),
        track_number,
        total_seconds: crawled.total_seconds as i64,
    }
}

/// Whether track number `a` comes no later than `b`: songs without a track number first, then
/// by number.
pub open spec fn track_no_later(a: Option<i32>, b: Option<i32>) -> bool {
    match (a, b) {
        (None, _) => true,
        (Some(_), None) => false,
        (Some(x), Some(y)) => x <= y,
    }
}

/// Track order, as a relation.
pub open spec fn track_order() -> spec_fn(Option<i32>, Option<i32>) -> bool {
    |a: Option<i32>, b: Option<i32>| track_no_later(a, b)
}

/// The track number of a song, as a sort key.
pub open spec fn by_track() -> spec_fn(Song) -> Option<i32> {
    |s: Song| s.track_number
}

fn track_le(a: Option<i32>, b: Option<i32>) -> (r: bool)
    ensures
        r == track_no_later(a, b),
{
    match (a, b) {
        (None, _) => true,
        (Some(_), None) => false,
        (Some(x), Some(y)) => x <= y,
    }
}

/// The songs in track order, songs with equal track numbers in the order given.
pub fn sort_by_track_number(songs: Vec<Song>) -> (r: Vec<Song>)
    ensures
        stably_sorted(songs@, r@, by_track(), track_order()),
{
    assert(total_preorder(track_order()));
    let mut sorted: Vec<Song> = Vec::new();
    let n = songs.len();
    let mut i: usize = 0;
    proof {
        assert(songs@.take(0) =~= Seq::<Song>::empty());
    }
    while i < n
        invariant
            n == songs@.len(),
            i <= n,
            total_preorder(track_order()),
            stably_sorted(songs@.take(i as int), sorted@, by_track(), track_order()),
        decreases n - i,
    {
        let song = songs[i].clone();
        let mut pos = sorted.len();
        while pos > 0
            invariant
                pos <= sorted@.len(),
                forall|j: int|
                    pos <= j < sorted@.len() ==> !track_order()(
                        #[trigger] by_track()(sorted@[j]),
                        by_track()(song),
                    ),
            ensures
                pos == 0 || track_order()(by_track()(sorted@[pos - 1]), by_track()(song)),
            decreases pos,
        {
            if track_le(sorted[pos - 1].track_number, song.track_number) {
                break;
            }
            pos = pos - 1;
        }
        proof {
            lemma_stable_insert(
                songs@.take(i as int),
                sorted@,
                song,
                pos as int,
                by_track(),
                track_order(),
            );
            assert(songs@.take(i + 1) =~= songs@.take(i as int).push(song));
        }
        sorted.insert(pos, song);
        i = i + 1;
    }
    proof {
        assert(songs@.take(n as int) =~= songs@);
    }
    sorted
}

/// The name of a directory: its last component.
pub open spec fn dir_name(dir: Seq<char>) -> Seq<char> {
    match last_component_of(dir) {
        Some(name) => name,
        None => Seq::empty(),
    }
}

/// The name of a directory, as a sort key.
pub open spec fn by_name() -> spec_fn(String) -> Seq<char> {
    |d: String| dir_name(d@)
}

/// Whether every directory has a name.
pub open spec fn all_named(dirs: Seq<String>) -> bool {
    forall|i: int| 0 <= i < dirs.len() ==> (last_component_of(#[trigger] dirs[i]@) is Some)
}

/// The directories in order of name, directories of equal names in the order given.
fn sort_album_dirs(dirs: Vec<String>) -> (r: Vec<String>)
    requires
        all_named(dirs@),
    ensures
        stably_sorted(dirs@, r@, by_name(), text_order()),
{
    proof {
        lemma_text_order();
    }
    let mut sorted: Vec<String> = Vec::new();
    let n = dirs.len();
    let mut i: usize = 0;
    proof {
        assert(dirs@.take(0) =~= Seq::<String>::empty());
    }
    while i < n
        invariant
            n == dirs@.len(),
            i <= n,
            all_named(dirs@),
            all_named(sorted@),
            total_preorder(text_order()),
            stably_sorted(dirs@.take(i as int), sorted@, by_name(), text_order()),
        decreases n - i,
    {
        let dir = dirs[i].clone();
        assert(last_component_of(dirs@[i as int]@) is Some);
        let name = match last_component(dir.as_str()) {
            Some(name) => name,
            None => {
                proof {
                    assert(false);
                }
                ""
            },
        };
        let mut pos = sorted.len();
        while pos > 0
            invariant
                pos <= sorted@.len(),
                all_named(sorted@),
                name@ == by_name()(dir),
                forall|j: int|
                    pos <= j < sorted@.len() ==> !text_order()(
                        #[trigger] by_name()(sorted@[j]),
                        by_name()(dir),
                    ),
            ensures
                pos == 0 || text_order()(by_name()(sorted@[pos - 1]), by_name()(dir)),
            decreases pos,
        {
            assert(last_component_of(sorted@[pos - 1]@) is Some);
            let other = match last_component(sorted[pos - 1].as_str()) {
                Some(other) => other,
                None => {
                    proof {
                        assert(false);
                    }
                    ""
                },
            };
            if text_le(other, name) {
                break;
            }
            pos = pos - 1;
        }
        proof {
            lemma_stable_insert(
                dirs@.take(i as int),
                sorted@,
                dir,
                pos as int,
                by_name(),
                text_order(),
            );
            assert(dirs@.take(i + 1) =~= dirs@.take(i as int).push(dir));
        }
        sorted.insert(pos, dir);
        i = i + 1;
    }
    proof {
        assert(dirs@.take(n as int) =~= dirs@);
    }
    sorted
}

/// The album directories in the order they are crawled: by name, directories of equal names
/// in the order given. None when a directory has no name.
pub fn album_dir_order(dirs: Vec<String>) -> (r: Option<Vec<String>>)
    ensures
        match r {
            Some(sorted) => all_named(dirs@) && stably_sorted(dirs@, sorted@, by_name(), text_order()),
            None => !all_named(dirs@),
        },
{
    let n = dirs.len();
    let mut i: usize = 0;
    while i < n
        invariant
            n == dirs@.len(),
            i <= n,
            forall|j: int| 0 <= j < i ==> (last_component_of(#[trigger] dirs@[j]@) is Some),
        decreases n - i,
    {
        if last_component(dirs[i].as_str()).is_none() {
            return None;
        }
        i = i + 1;
    }
    Some(sort_album_dirs(dirs))
}


/// Where the crawler is. `C` is the database connection that it stores albums with.
#[derive(Debug)]
pub enum CrawlerState<C> {
    Initial,
    /// The album directories still to crawl, the next one last, and the connection.
    AlbumDirectories(Vec<String>, C),
    Final,
}

fn reversed(v: Vec<String>) -> (r: Vec<String>)
    ensures
        r@ == v@.reverse(),
{
    let n = v.len();
    let mut r: Vec<String> = Vec::new();
    let mut i: usize = n;
    while i > 0
        invariant
            n == v@.len(),
            i <= n,
            r@ == v@.subrange(i as int, n as int).reverse(),
        decreases i,
    {
        i = i - 1;
        let d = v[i].clone();
        proof {
            assert(v@.subrange(i as int, n as int).reverse() =~= v@.subrange(
                i + 1,
                n as int,
            ).reverse().push(d));
        }
        r.push(d);
    }
    proof {
        assert(v@.subrange(0, n as int) =~= v@);
    }
    r
}

/// The message after crawling one directory: the album it found, or the message, if any,
/// that says why it found none.
pub open spec fn message_after<A>(
    crawled: Result<CrawledAlbum<A>, Option<CrawlerMessage<A>>>,
) -> Option<CrawlerMessage<A>> {
    match crawled {
        Ok(album) => Some(CrawlerMessage::CrawledAlbum(Box::new(album))),
        Err(message) => message,
    }
}

/// One step of the crawler: the message to send, if any, and the next state. `list_dirs`
/// lists the album directories of the music directory (none when it cannot be read),
/// `connect` checks out a database connection (none when that fails), and `crawl` crawls one
/// album directory with the connection, handing the connection back.
///
/// At the start, the directories are listed first; only when that worked is a connection
/// checked out; then the directories are kept to crawl in order of name, the first one last.
/// While crawling, the next directory is crawled and the rest kept; when none is left the
/// crawl is done. The end stays the end. None when a listed directory has no name.
pub fn step<A, C, L, G, K>(state: CrawlerState<C>, list_dirs: L, connect: G, crawl: K) -> (r: Option<
    (Option<CrawlerMessage<A>>, CrawlerState<C>),
>) where
    L: FnOnce() -> Option<Vec<String>>,
    G: FnOnce() -> Option<C>,
    K: FnOnce(String, C) -> (Result<CrawledAlbum<A>, Option<CrawlerMessage<A>>>, C),

    requires
        call_requires(list_dirs, ()),
        call_requires(connect, ()),
        forall|dir: String, conn: C| call_requires(crawl, (dir, conn)),
    ensures
        match state {
            CrawlerState::Final => r == Some(
                (None::<CrawlerMessage<A>>, CrawlerState::<C>::Final),
            ),
            CrawlerState::AlbumDirectories(dirs, conn) => if dirs@.len() == 0 {
                r == Some((Some(CrawlerMessage::<A>::Done), CrawlerState::<C>::Final))
            } else {
                exists|crawled: Result<CrawledAlbum<A>, Option<CrawlerMessage<A>>>, conn_after: C|
                    {
                        &&& call_ensures(crawl, (dirs@.last(), conn), (crawled, conn_after))
                        &&& r matches Some((message, CrawlerState::AlbumDirectories(rest, c)))
                        &&& message == message_after(crawled)
                        &&& rest@ == dirs@.drop_last()
                        &&& c == conn_after
                    }
            },
            CrawlerState::Initial => exists|listed: Option<Vec<String>>|
                {
                    &&& call_ensures(list_dirs, (), listed)
                    &&& match listed {
                        None => r == Some(
                            (Some(CrawlerMessage::<A>::NoAudioDirectory), CrawlerState::<C>::Final),
                        ),
                        Some(dirs) => exists|conn: Option<C>|
                            {
                                &&& call_ensures(connect, (), conn)
                                &&& match conn {
                                    None => r == Some(
                                        (Some(CrawlerMessage::<A>::DbError), CrawlerState::<C>::Final),
                                    ),
                                    Some(c) => if all_named(dirs@) {
                                        &&& r matches Some((message, CrawlerState::AlbumDirectories(remaining, c2)))
                                        &&& message is None
                                        &&& c2 == c
                                        &&& stably_sorted(dirs@, remaining@.reverse(), by_name(), text_order())
                                    } else {
                                        r is None
                                    },
                                }
                            },
                    }
                },
        },
{
    match state {
        CrawlerState::Initial => {
            let listed = list_dirs();
            match listed {
                None => Some((Some(CrawlerMessage::NoAudioDirectory), CrawlerState::Final)),
                Some(dirs) => {
                    let conn = connect();
                    match conn {
                        None => Some((Some(CrawlerMessage::DbError), CrawlerState::Final)),
                        Some(c) => match album_dir_order(dirs) {
                            None => None,
                            Some(sorted) => {
                                let remaining = reversed(sorted);
                                proof {
                                    assert(remaining@.reverse() =~= sorted@);
                                }
                                Some((None, CrawlerState::AlbumDirectories(remaining, c)))
                            },
                        },
                    }
                },
            }
        },
        CrawlerState::AlbumDirectories(dirs, conn) => {
            let mut rest = dirs;
            match rest.pop() {
                None => Some((Some(CrawlerMessage::Done), CrawlerState::Final)),
                Some(dir) => {
                    let (crawled, conn_after) = crawl(dir, conn);
                    let message = match crawled {
                        Ok(album) => Some(CrawlerMessage::CrawledAlbum(Box::new(album))),
                        Err(message) => message,
                    };
                    Some((message, CrawlerState::AlbumDirectories(rest, conn_after)))
                },
            }
        },
        CrawlerState::Final => Some((None, CrawlerState::Final)),
    }
}

/// The directories left to crawl, kept with the first one last, are crawled in order: the
/// next one is the first of the sorted directories, and the ones left after it are the rest.
pub proof fn lemma_crawl_order(remaining: Seq<String>, sorted: Seq<String>)
    requires
        remaining.reverse() == sorted,
        remaining.len() > 0,
    ensures
        remaining.last() == sorted[0],
        remaining.drop_last().reverse() == sorted.drop_first(),
{
    assert(remaining.drop_last().reverse() =~= sorted.drop_first());
}

} // verus!
