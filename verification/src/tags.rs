//! The tags read from audio files that the application uses.
use std::collections::HashMap;
use vstd::prelude::*;

use crate::track::TrackInfo;

verus! {

broadcast use vstd::std_specs::hash::group_hash_axioms;

/// The standard tag keys that a tag reader may assign to a tag
/// (the same set as symphonia's `StandardTagKey`).
#[derive(Debug, Clone, Copy, PartialEq, Eq, Hash, Structural)]
pub enum StandardTagKey {
    AcoustidFingerprint,
    AcoustidId,
    Album,
    AlbumArtist,
    Arranger,
    Artist,
    Bpm,
    Comment,
    Compilation,
    Composer,
    Conductor,
    ContentGroup,
    Copyright,
    Date,
    Description,
    DiscNumber,
    DiscSubtitle,
    DiscTotal,
    EncodedBy,
    Encoder,
    EncoderSettings,
    EncodingDate,
    Engineer,
    Ensemble,
    Genre,
    IdentAsin,
    IdentBarcode,
    IdentCatalogNumber,
    IdentEanUpn,
    IdentIsrc,
    IdentPn,
    IdentPodcast,
    IdentUpc,
    Label,
    Language,
    License,
    Lyricist,
    Lyrics,
    MediaFormat,
    MixDj,
    MixEngineer,
    Mood,
    MovementName,
    MovementNumber,
    MusicBrainzAlbumArtistId,
    MusicBrainzAlbumId,
    MusicBrainzArtistId,
    MusicBrainzDiscId,
    MusicBrainzGenreId,
    MusicBrainzLabelId,
    MusicBrainzOriginalAlbumId,
    MusicBrainzOriginalArtistId,
    MusicBrainzRecordingId,
    MusicBrainzReleaseGroupId,
    MusicBrainzReleaseStatus,
    MusicBrainzReleaseTrackId,
    MusicBrainzReleaseType,
    MusicBrainzTrackId,
    MusicBrainzWorkId,
    Opus,
    OriginalAlbum,
    OriginalArtist,
    OriginalDate,
    OriginalFile,
    OriginalWriter,
    Owner,
    Part,
    PartTotal,
    Performer,
    Podcast,
    PodcastCategory,
    PodcastDescription,
    PodcastKeywords,
    Producer,
    PurchaseDate,
    Rating,
    ReleaseCountry,
    ReleaseDate,
    Remixer,
    ReplayGainAlbumGain,
    ReplayGainAlbumPeak,
    ReplayGainTrackGain,
    ReplayGainTrackPeak,
    Script,
    SortAlbum,
    SortAlbumArtist,
    SortArtist,
    SortComposer,
    SortTrackTitle,
    TaggingDate,
    TrackNumber,
    TrackSubtitle,
    TrackTitle,
    TrackTotal,
    TvEpisode,
    TvEpisodeTitle,
    TvNetwork,
    TvSeason,
    TvShowTitle,
    Url,
    UrlArtist,
    UrlCopyright,
    UrlInternetRadio,
    UrlLabel,
    UrlOfficial,
    UrlPayment,
    UrlPodcast,
    UrlPurchase,
    UrlSource,
    Version,
    Writer,
}

/// A limited set of standard tag keys used by the application
#[derive(Debug, Clone, Copy, PartialEq, Eq, Hash, Structural)]
pub enum TagKey {
    Album,
    AlbumArtist,
    Artist,
    Composer,
    Conductor,
    Date,
    Description,
    Genre,
    Label,
    Language,
    Lyrics,
    Mood,
    MovementName,
    MovementNumber,
    Part,
    PartTotal,
    Producer,
    ReleaseDate,
    Remixer,
    TrackNumber,
    TrackSubtitle,
    TrackTitle,
    TrackTotal,
}

/// A standard tag key that the application does not use.
#[derive(Debug, Clone, Copy, PartialEq, Eq, Structural)]
pub enum IgnoredTagError {
    Ignored,
}

/// The application's key for a standard key, or `Ignored`.
pub open spec fn tag_key_for(value: StandardTagKey) -> Result<TagKey, IgnoredTagError> {
    match value {
        StandardTagKey::Album => Ok(TagKey::Album),
        StandardTagKey::AlbumArtist => Ok(TagKey::AlbumArtist),
        StandardTagKey::Artist => Ok(TagKey::Artist),
        StandardTagKey::Composer => Ok(TagKey::Composer),
        StandardTagKey::Conductor => Ok(TagKey::Conductor),
        StandardTagKey::Date => Ok(TagKey::Date),
        StandardTagKey::Description => Ok(TagKey::Description),
        StandardTagKey::Genre => Ok(TagKey::Genre),
        StandardTagKey::Label => Ok(TagKey::Label),
        StandardTagKey::Language => Ok(TagKey::Language),
        StandardTagKey::Lyrics => Ok(TagKey::Lyrics),
        StandardTagKey::Mood => Ok(TagKey::Mood),
        StandardTagKey::MovementName => Ok(TagKey::MovementName),
        StandardTagKey::MovementNumber => Ok(TagKey::MovementNumber),
        StandardTagKey::Part => Ok(TagKey::Part),
        StandardTagKey::PartTotal => Ok(TagKey::PartTotal),
        StandardTagKey::Producer => Ok(TagKey::Producer),
        StandardTagKey::ReleaseDate => Ok(TagKey::ReleaseDate),
        StandardTagKey::Remixer => Ok(TagKey::Remixer),
        StandardTagKey::TrackNumber => Ok(TagKey::TrackNumber),
        StandardTagKey::TrackSubtitle => Ok(TagKey::TrackSubtitle),
        StandardTagKey::TrackTitle => Ok(TagKey::TrackTitle),
        StandardTagKey::TrackTotal => Ok(TagKey::TrackTotal),
        _ => Err(IgnoredTagError::Ignored),
    }
}

impl TryFrom<StandardTagKey> for TagKey {
    type Error = IgnoredTagError;

    fn try_from(value: StandardTagKey) -> (r: Result<Self, Self::Error>) {
        match value {
            StandardTagKey::Album => Ok(TagKey::Album),
            StandardTagKey::AlbumArtist => Ok(TagKey::AlbumArtist),
            StandardTagKey::Artist => Ok(TagKey::Artist),
            StandardTagKey::Composer => Ok(TagKey::Composer),
            StandardTagKey::Conductor => Ok(TagKey::Conductor),
            StandardTagKey::Date => Ok(TagKey::Date),
            StandardTagKey::Description => Ok(TagKey::Description),
            StandardTagKey::Genre => Ok(TagKey::Genre),
            StandardTagKey::Label => Ok(TagKey::Label),
            StandardTagKey::Language => Ok(TagKey::Language),
            StandardTagKey::Lyrics => Ok(TagKey::Lyrics),
            StandardTagKey::Mood => Ok(TagKey::Mood),
            StandardTagKey::MovementName => Ok(TagKey::MovementName),
            StandardTagKey::MovementNumber => Ok(TagKey::MovementNumber),
            StandardTagKey::Part => Ok(TagKey::Part),
            StandardTagKey::PartTotal => Ok(TagKey::PartTotal),
            StandardTagKey::Producer => Ok(TagKey::Producer),
            StandardTagKey::ReleaseDate => Ok(TagKey::ReleaseDate),
            StandardTagKey::Remixer => Ok(TagKey::Remixer),
            StandardTagKey::TrackNumber => Ok(TagKey::TrackNumber),
            StandardTagKey::TrackSubtitle => Ok(TagKey::TrackSubtitle),
            StandardTagKey::TrackTitle => Ok(TagKey::TrackTitle),
            StandardTagKey::TrackTotal => Ok(TagKey::TrackTotal),
            _ => Err(IgnoredTagError::Ignored),
        }
    }
}

impl vstd::std_specs::convert::TryFromSpecImpl<StandardTagKey> for TagKey {
    open spec fn obeys_try_from_spec() -> bool {
        true
    }

    open spec fn try_from_spec(value: StandardTagKey) -> Result<Self, Self::Error> {
        tag_key_for(value)
    }
}

} // verus!
verus! {

/// The number of keys in `TagKey`.
pub const TAG_KEY_COUNT: usize = 23;

/// The position of a key in `TagKey`'s declaration.
pub open spec fn key_index(key: TagKey) -> nat {
    match key {
        TagKey::Album => 0,
        TagKey::AlbumArtist => 1,
        TagKey::Artist => 2,
        TagKey::Composer => 3,
        TagKey::Conductor => 4,
        TagKey::Date => 5,
        TagKey::Description => 6,
        TagKey::Genre => 7,
        TagKey::Label => 8,
        TagKey::Language => 9,
        TagKey::Lyrics => 10,
        TagKey::Mood => 11,
        TagKey::MovementName => 12,
        TagKey::MovementNumber => 13,
        TagKey::Part => 14,
        TagKey::PartTotal => 15,
        TagKey::Producer => 16,
        TagKey::ReleaseDate => 17,
        TagKey::Remixer => 18,
        TagKey::TrackNumber => 19,
        TagKey::TrackSubtitle => 20,
        TagKey::TrackTitle => 21,
        TagKey::TrackTotal => 22,
    }
}

/// The key at a position of `TagKey`'s declaration.
pub open spec fn key_at(i: nat) -> TagKey {
    if i == 0 {
        TagKey::Album
    } else if i == 1 {
        TagKey::AlbumArtist
    } else if i == 2 {
        TagKey::Artist
    } else if i == 3 {
        TagKey::Composer
    } else if i == 4 {
        TagKey::Conductor
    } else if i == 5 {
        TagKey::Date
    } else if i == 6 {
        TagKey::Description
    } else if i == 7 {
        TagKey::Genre
    } else if i == 8 {
        TagKey::Label
    } else if i == 9 {
        TagKey::Language
    } else if i == 10 {
        TagKey::Lyrics
    } else if i == 11 {
        TagKey::Mood
    } else if i == 12 {
        TagKey::MovementName
    } else if i == 13 {
        TagKey::MovementNumber
    } else if i == 14 {
        TagKey::Part
    } else if i == 15 {
        TagKey::PartTotal
    } else if i == 16 {
        TagKey::Producer
    } else if i == 17 {
        TagKey::ReleaseDate
    } else if i == 18 {
        TagKey::Remixer
    } else if i == 19 {
        TagKey::TrackNumber
    } else if i == 20 {
        TagKey::TrackSubtitle
    } else if i == 21 {
        TagKey::TrackTitle
    } else {
        TagKey::TrackTotal
    }
}

proof fn lemma_key_index(key: TagKey)
    ensures
        key_index(key) < TAG_KEY_COUNT,
        key_at(key_index(key)) == key,
{
}

fn index_of_key(key: TagKey) -> (i: usize)
    ensures
        i == key_index(key),
{
    match key {
            TagKey::Album => 0,
            TagKey::AlbumArtist => 1,
            TagKey::Artist => 2,
            TagKey::Composer => 3,
            TagKey::Conductor => 4,
            TagKey::Date => 5,
            TagKey::Description => 6,
            TagKey::Genre => 7,
            TagKey::Label => 8,
            TagKey::Language => 9,
            TagKey::Lyrics => 10,
            TagKey::Mood => 11,
            TagKey::MovementName => 12,
            TagKey::MovementNumber => 13,
            TagKey::Part => 14,
            TagKey::PartTotal => 15,
            TagKey::Producer => 16,
            TagKey::ReleaseDate => 17,
            TagKey::Remixer => 18,
            TagKey::TrackNumber => 19,
            TagKey::TrackSubtitle => 20,
            TagKey::TrackTitle => 21,
            TagKey::TrackTotal => 22,
    }
}

/// The tags of a song: at most one value for each key, kept under the key's index.
#[derive(Debug, PartialEq, Eq)]
pub struct TagMap {
    values: HashMap<usize, String>,
}

impl TagMap {
    pub closed spec fn tags(self) -> Map<TagKey, String> {
        Map::new(
            |k: TagKey| self.values@.contains_key(key_index(k) as usize),
            |k: TagKey| self.values@[key_index(k) as usize],
        )
    }

    /// No tags.
    pub fn new() -> (m: TagMap)
        ensures
            m@ == Map::<TagKey, String>::empty(),
    {
        let m = TagMap { values: HashMap::new() };
        proof {
            assert(m.tags() =~= Map::<TagKey, String>::empty());
        }
        m
    }

    /// Sets the value of `key`, replacing any earlier one.
    pub fn insert(&mut self, key: TagKey, value: String)
        ensures
            final(self)@ == old(self)@.insert(key, value),
    {
        proof {
            lemma_key_index(key);
        }
        let i = index_of_key(key);
        let ghost before = self.tags();
        self.values.insert(i, value);
        proof {
            assert forall|k: TagKey| k != key implies key_index(k) as usize != key_index(
                key,
            ) as usize by {
                lemma_key_index(k);
            }
            assert(self.tags() =~= before.insert(key, value));
        }
    }

    /// The value of `key`, if there is one.
    pub fn get(&self, key: &TagKey) -> (v: Option<&String>)
        ensures
            v == (if self@.contains_key(*key) {
                Some(&self@[*key])
            } else {
                None
            }),
    {
        proof {
            lemma_key_index(*key);
        }
        let i = index_of_key(*key);
        self.values.get(&i)
    }
}

impl Clone for TagMap {
    fn clone(&self) -> (c: TagMap)
        ensures
            c@ == self@,
    {
        let c = TagMap { values: self.values.clone() };
        proof {
            assert(c.tags() =~= self.tags());
        }
        c
    }
}

impl View for TagMap {
    type V = Map<TagKey, String>;

    open spec fn view(&self) -> Map<TagKey, String> {
        self.tags()
    }
}

/// A tag as a tag reader gives it: its standard key, if it has one, and its value as text.
#[derive(Debug, Clone, PartialEq, Eq)]
pub struct RawTag {
    pub std_key: Option<StandardTagKey>,
    pub value: String,
}

/// The tags kept from a list of raw tags: those with a standard key that the application
/// uses; of several with the same key, the last.
pub open spec fn gathered(tags: Seq<RawTag>) -> Map<TagKey, String>
    decreases tags.len(),
{
    if tags.len() == 0 {
        Map::empty()
    } else {
        let rest = gathered(tags.drop_last());
        let last = tags.last();
        match last.std_key {
            Some(std_key) => match tag_key_for(std_key) {
                Ok(key) => rest.insert(key, last.value),
                Err(_) => rest,
            },
            None => rest,
        }
    }
}

/// Collects the tags that the application uses.
pub fn gather_tags(tags: Vec<RawTag>) -> (m: TagMap)
    ensures
        m@ == gathered(tags@),
{
    let mut result = TagMap::new();
    let mut remaining = tags;
    let ghost all = remaining@;
    let mut done: Vec<RawTag> = Vec::new();
    // take the tags in order
    let mut reversed: Vec<RawTag> = Vec::new();
    while remaining.len() > 0
        invariant
            reversed@.len() + remaining@.len() == all.len(),
            forall|j: int| 0 <= j < reversed@.len() ==> reversed@[j] == all[all.len() - 1 - j],
            remaining@ == all.subrange(0, remaining@.len() as int),
        decreases remaining@.len(),
    {
        let t = remaining.pop().unwrap();
        reversed.push(t);
    }
    while reversed.len() > 0
        invariant
            done@.len() + reversed@.len() == all.len(),
            done@ == all.subrange(0, done@.len() as int),
            forall|j: int| 0 <= j < reversed@.len() ==> reversed@[j] == all[all.len() - 1 - j],
            result@ == gathered(done@),
        decreases reversed@.len(),
    {
        let tag = reversed.pop().unwrap();
        proof {
            assert(tag == all[done@.len() as int]);
        }
        let ghost before = done@;
        match tag.std_key {
            Some(std_key) => match TagKey::try_from(std_key) {
                Ok(key) => {
                    let v = tag.value.clone();
                    result.insert(key, v);
                },
                Err(_) => {},
            },
            None => {},
        }
        done.push(tag);
        proof {
            assert(done@.drop_last() =~= before);
        }
    }
    proof {
        assert(done@ =~= all);
    }
    result
}

/// What the crawler learns from an audio file.
#[derive(Debug, Clone, PartialEq, Eq)]
pub struct DecodedMetadata {
    pub tags: TagMap,
    pub total_seconds: u64,
}

/// The metadata of a file whose first playable track has `track_info`, from the tags that
/// the format reader found (`format_tags`) or, without those, the tags found while probing
/// (`probe_tags`). None when the track has no timing information.
pub fn decoded_metadata(
    track_info: &TrackInfo,
    format_tags: Option<Vec<RawTag>>,
    probe_tags: Option<Vec<RawTag>>,
) -> (d: Option<DecodedMetadata>)
    ensures
        match track_info.progress_at(0) {
            None => d is None,
            Some(times) => d matches Some(m) && m.total_seconds == times.total && m.tags@ == (
            match format_tags {
                Some(t) => gathered(t@),
                None => match probe_tags {
                    Some(t) => gathered(t@),
                    None => Map::empty(),
                },
            }),
        },
{
    let times = match track_info.progress_times(0) {
        Some(times) => times,
        None => {
            return None;
        },
    };
    let tags = match format_tags {
        Some(t) => gather_tags(t),
        None => match probe_tags {
            Some(t) => gather_tags(t),
            None => TagMap::new(),
        },
    };
    Some(DecodedMetadata { tags, total_seconds: times.total })
}

} // verus!
