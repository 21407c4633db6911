//! The records kept in the music database, and how connections to it are set up.
use vstd::prelude::*;

use crate::ids::{AlbumId, SongId};
use crate::paths::{file_stem, file_stem_of, last_component, last_component_of};
use crate::text::{clone_text, concat, decimal, decimal_of};

verus! {

#[derive(Debug, Clone, Copy, PartialEq, Eq, Structural)]
pub enum ConnectionError {
    /// no user config dir available
    NoConfigDir,
    /// database connection error
    ConnectionError,
}

/// How each new database connection is set up.
#[derive(Debug, Clone, Copy, PartialEq, Eq, Structural)]
pub struct ConnectionOptions {
    pub enable_wal: bool,
    pub enable_foreign_keys: bool,
    /// How long to wait on a locked database, in milliseconds.
    pub busy_timeout: Option<u64>,
}

/// The statements that set up a connection with `options`, in the order they run: the busy
/// timeout first, then write-ahead logging, then foreign keys.
pub open spec fn pragmas_for(options: ConnectionOptions) -> Seq<Seq<char>> {
    let timeout = match options.busy_timeout {
        Some(ms) => seq![
            "PRAGMA busy_timeout = "@ + decimal_of(ms as nat) + ";"@,
        ],
        None => Seq::empty(),
    };
    let wal = if options.enable_wal {
        seq!["PRAGMA journal_mode = WAL;"@, "PRAGMA synchronous = NORMAL;"@]
    } else {
        Seq::empty()
    };
    let foreign_keys = if options.enable_foreign_keys {
        seq!["PRAGMA foreign_keys = ON;"@]
    } else {
        Seq::empty()
    };
    timeout + wal + foreign_keys
}

impl ConnectionOptions {
    /// The statements to run on each new connection, in order.
    /// NOTE the busy timeout needs to be first
    pub fn pragma_statements(&self) -> (stmts: Vec<String>)
        ensures
            stmts@.map_values(|s: String| s@) == pragmas_for(*self),
    {
        let mut stmts: Vec<String> = Vec::new();
        let ghost timeout: Seq<Seq<char>> = Seq::empty();
        if let Some(ms) = self.busy_timeout {
            let text = concat("PRAGMA busy_timeout = ", decimal(ms).as_str());
            let text = concat(text.as_str(), ";");
            stmts.push(text);
            proof {
                timeout = seq!["PRAGMA busy_timeout = "@ + decimal_of(ms as nat) + ";"@];
            }
        }
        let ghost after_timeout = stmts@.map_values(|s: String| s@);
        proof {
            assert(after_timeout =~= timeout);
        }
        let ghost wal: Seq<Seq<char>> = Seq::empty();
        if self.enable_wal {
            stmts.push(String::from_str("PRAGMA journal_mode = WAL;"));
            stmts.push(String::from_str("PRAGMA synchronous = NORMAL;"));
            proof {
                wal = seq!["PRAGMA journal_mode = WAL;"@, "PRAGMA synchronous = NORMAL;"@];
            }
        }
        let ghost after_wal = stmts@.map_values(|s: String| s@);
        proof {
            assert(after_wal =~= timeout + wal);
        }
        if self.enable_foreign_keys {
            stmts.push(String::from_str("PRAGMA foreign_keys = ON;"));
        }
        proof {
            assert(stmts@.map_values(|s: String| s@) =~= pragmas_for(*self));
        }
        stmts
    }
}

/// An album, as stored.
#[derive(Debug, PartialEq, Eq)]
pub struct Album {
    pub id: AlbumId,
    pub directory: String,
    pub title: Option<String>,
    pub artist: Option<String>,
    pub release_date: Option<String>,
    pub original_art: Option<String>,
    pub resized_art: Option<String>,
}

impl Clone for Album {
    fn clone(&self) -> (c: Album)
        ensures
            c == *self,
    {
        Album {
            id: self.id,
            directory: self.directory.clone(),
            title: clone_text(&self.title),
            artist: clone_text(&self.artist),
            release_date: clone_text(&self.release_date),
            original_art: clone_text(&self.original_art),
            resized_art: clone_text(&self.resized_art),
        }
    }
}

/// The title shown for an album: its title, or else the name of its directory.
pub open spec fn album_display_title(album: Album) -> Option<Seq<char>> {
    match album.title {
        Some(t) => Some(t@),
        None => last_component_of(album.directory@),
    }
}

impl Album {
    pub fn display_title(&self) -> (t: Option<&str>)
        ensures
            match t {
                Some(t) => album_display_title(*self) == Some(t@),
                None => album_display_title(*self) is None,
            },
    {
        match &self.title {
            Some(title) => Some(title.as_str()),
            None => last_component(self.directory.as_str()),
        }
    }
}

/// A song, as stored.
#[derive(Debug, PartialEq, Eq)]
pub struct Song {
    pub id: SongId,
    pub album_id: AlbumId,
    pub file: String,
    pub title: Option<String>,
    pub artist: Option<String>,
    pub track_number: Option<i32>,
    pub total_seconds: i64,
}

impl Clone for Song {
    fn clone(&self) -> (c: Song)
        ensures
            c == *self,
    {
        Song {
            id: self.id,
            album_id: self.album_id,
            file: self.file.clone(),
            title: clone_text(&self.title),
            artist: clone_text(&self.artist),
            track_number: self.track_number,
            total_seconds: self.total_seconds,
        }
    }
}

/// The title shown for a song: its title, or else the stem of its file name.
pub open spec fn song_display_title(song: Song) -> Option<Seq<char>> {
    match song.title {
        Some(t) => Some(t@),
        None => file_stem_of(song.file@),
    }
}

impl Song {
    pub fn display_title(&self) -> (t: Option<&str>)
        ensures
            match t {
                Some(t) => song_display_title(*self) == Some(t@),
                None => song_display_title(*self) is None,
            },
    {
        match &self.title {
            Some(title) => Some(title.as_str()),
            None => file_stem(self.file.as_str()),
        }
    }
}

/// An album to store.
#[derive(Debug, Clone, PartialEq, Eq)]
pub struct NewAlbum {
    pub directory: String,
    pub title: Option<String>,
    pub artist: Option<String>,
    pub release_date: Option<String>,
    pub original_art: Option<String>,
    pub resized_art: Option<String>,
}

/// A song to store.
#[derive(Debug, Clone, PartialEq, Eq)]
pub struct NewSong {
    pub album_id: AlbumId,
    pub file: String,
    pub title: Option<String>,
    pub artist: Option<String>,
    pub track_number: Option<i32>,
    pub total_seconds: i64,
}

} // verus!
