//! Identifiers of albums and songs, as the database hands them out.
use vstd::prelude::*;

verus! {

/// The database id of an album.
#[derive(Debug, Clone, Copy, PartialEq, Eq, Hash, Structural)]
pub struct AlbumId(i32);

impl AlbumId {
    pub closed spec fn id(self) -> i32 {
        self.0
    }

    pub fn new(id: i32) -> (a: AlbumId)
        ensures
            a.id() == id,
    {
        AlbumId(id)
    }

    /// The raw database id.
    pub fn unpack(self) -> (id: i32)
        ensures
            id == self.id(),
    {
        self.0
    }

    /// Ids are equal exactly when their raw ids are: an id wraps its raw id unchanged.
    pub proof fn lemma_id_equal(a: AlbumId, b: AlbumId)
        ensures
            (a == b) <==> (a.id() == b.id()),
    {
    }
}

/// The database id of a song.
#[derive(Debug, Clone, Copy, PartialEq, Eq, Hash, Structural)]
pub struct SongId(i32);

impl SongId {
    pub closed spec fn id(self) -> i32 {
        self.0
    }

    pub fn new(id: i32) -> (s: SongId)
        ensures
            s.id() == id,
    {
        SongId(id)
    }

    /// The raw database id.
    pub fn unpack(self) -> (id: i32)
        ensures
            id == self.id(),
    {
        self.0
    }

    /// Ids are equal exactly when their raw ids are: an id wraps its raw id unchanged.
    pub proof fn lemma_id_equal(a: SongId, b: SongId)
        ensures
            (a == b) <==> (a.id() == b.id()),
    {
    }
}

} // verus!
