//! Resizing album art: the requests, where a resized image is stored, and the resizer's steps.
use vstd::prelude::*;

use crate::ids::AlbumId;
use crate::paths::{join, joined};
use crate::text::{concat, decimal, decimal_of, push_char, signed_decimal, signed_decimal_of};

verus! {

/// The size that album art gets resized (down) to.
pub const IMAGE_SIZE: u16 = 256;

/// A request to resize the original art of an album.
#[derive(Debug, Clone, PartialEq, Eq)]
pub struct ResizeRequest {
    pub album_id: AlbumId,
    pub album_title: String,
    pub source_path: String,
}

/// Art of an album, resized and stored in `file`. `A` is the ui's representation of an image.
#[derive(Debug, Clone)]
pub struct ResizedImage<A> {
    pub album_id: AlbumId,
    pub file: String,
    pub bytes: A,
}

/// What the resizer tells the ui.
#[derive(Debug, Clone)]
pub enum ResizerMessage<A> {
    ResizedImage(ResizedImage<A>),
    // either the thread disconnected,
    // or there is no local data dir
    NonActionableError,
}

/// Whether a character may stand in a file name: it is no path separator.
pub open spec fn keeps_char(c: char) -> bool {
    c != '\\' && c != '/'
}

/// The name of the file that holds an album's resized art: the album's title without path
/// separators, the album's id and the image size, joined by underscores, as a bitmap.
pub open spec fn resized_file_name_of(album_title: Seq<char>, album_id: i32) -> Seq<char> {
    album_title.filter(|c: char| keeps_char(c)) + "_"@ + signed_decimal_of(album_id as int) + "_"@
        + decimal_of(IMAGE_SIZE as nat) + ".bmp"@
}

fn without_separators(title: &str) -> (r: String)
    ensures
        r@ == title@.filter(|c: char| keeps_char(c)),
{
    broadcast use vstd::seq_lib::group_seq_properties;

    let n = title.unicode_len();
    let mut kept = String::new();
    let mut i: usize = 0;
    while i < n
        invariant
            n == title@.len(),
            i <= n,
            kept@ == title@.take(i as int).filter(|c: char| keeps_char(c)),
        decreases n - i,
    {
        let c = title.get_char(i);
        proof {
            let pred = |c: char| keeps_char(c);
            assert(title@.take(i + 1) =~= title@.take(i as int).push(c));
            title@.take(i as int).lemma_filter_push(c, pred);
            assert(title@.take(i + 1).filter(pred) == title@.take(i + 1).filter(
                |c: char| keeps_char(c),
            ));
            assert(title@.take(i as int).filter(pred) == title@.take(i as int).filter(
                |c: char| keeps_char(c),
            ));
        }
        if c != '\\' && c != '/' {
            push_char(&mut kept, c);
        }
        i = i + 1;
    }
    proof {
        assert(title@.take(n as int) =~= title@);
    }
    kept
}

/// The name of the file that holds an album's resized art.
pub fn resized_file_name(album_title: &str, album_id: AlbumId) -> (r: String)
    ensures
        r@ == resized_file_name_of(album_title@, album_id.id()),
{
    let title = without_separators(album_title);
    let name = concat(title.as_str(), "_");
    let name = concat(name.as_str(), signed_decimal(album_id.unpack()).as_str());
    let name = concat(name.as_str(), "_");
    let name = concat(name.as_str(), decimal(IMAGE_SIZE as u64).as_str());
    concat(name.as_str(), ".bmp")
}

/// Where an album's resized art is stored: its file name in the images directory.
pub fn resized_image_path(images_directory: &str, album_title: &str, album_id: AlbumId) -> (r:
    String)
    ensures
        r@ == joined(images_directory@, resized_file_name_of(album_title@, album_id.id())),
{
    let name = resized_file_name(album_title, album_id);
    join(images_directory, name.as_str())
}

/// Whether the resizer still takes requests.
#[derive(Debug, Clone, Copy, PartialEq, Eq, Structural)]
pub enum ResizerState {
    Working,
    Stopped,
}

/// What the resizer found in its inbox.
#[derive(Debug)]
pub enum Inbox {
    Request(ResizeRequest),
    Empty,
    /// The ui is gone.
    Disconnected,
}

/// The resizer's step after looking in its inbox: the request to resize, or the message, if
/// any, to send and the next state.
pub fn after_inbox<A>(inbox: Inbox) -> (r: Result<
    ResizeRequest,
    (Option<ResizerMessage<A>>, ResizerState),
>)
    ensures
        match inbox {
            Inbox::Request(request) => r == Ok::<ResizeRequest, (Option<ResizerMessage<A>>, ResizerState)>(request),
            Inbox::Empty => r == Err::<ResizeRequest, (Option<ResizerMessage<A>>, ResizerState)>((None, ResizerState::Working)),
            Inbox::Disconnected => r == Err::<ResizeRequest, (Option<ResizerMessage<A>>, ResizerState)>(
                (Some(ResizerMessage::NonActionableError), ResizerState::Stopped),
            ),
        },
{
    match inbox {
        Inbox::Request(request) => Ok(request),
        Inbox::Empty => Err((None, ResizerState::Working)),
        Inbox::Disconnected => Err((Some(ResizerMessage::NonActionableError), ResizerState::Stopped)),
    }
}

/// The resizer's step after resizing: the resized image, if resizing worked, and on with
/// the next request.
pub fn after_resize<A>(resized: Option<ResizedImage<A>>) -> (r: (
    Option<ResizerMessage<A>>,
    ResizerState,
))
    ensures
        r.1 == ResizerState::Working,
        match resized {
            Some(image) => r.0 == Some(ResizerMessage::ResizedImage(image)),
            None => r.0 is None,
        },
{
    match resized {
        Some(image) => (Some(ResizerMessage::ResizedImage(image)), ResizerState::Working),
        None => (None, ResizerState::Working),
    }
}

} // verus!
