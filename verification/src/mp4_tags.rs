//! Reading the iTunes metadata of an MP4 container.

use vstd::prelude::*;

verus! {

/// What the `meta` box under `udta` says of a track, as far as the catalogue reads it.
/// Texts are kept as the bytes that the box holds.
#[derive(Debug)]
pub struct Mp4Tags {
    pub artist: Option<Vec<u8>>,
    pub album: Option<Vec<u8>>,
    pub album_artist: Option<Vec<u8>>,
    pub year: Option<Vec<u8>>,
    pub title: Option<Vec<u8>>,
    pub track_number: Option<u8>,
}

/// The fields of a `meta` box with their texts as sequences of bytes.
pub struct Mp4TagsView {
    pub artist: Option<Seq<u8>>,
    pub album: Option<Seq<u8>>,
    pub album_artist: Option<Seq<u8>>,
    pub year: Option<Seq<u8>>,
    pub title: Option<Seq<u8>>,
    pub track_number: Option<u8>,
}

/// The bytes of a text that may be absent.
pub open spec fn bytes_of(text: Option<Vec<u8>>) -> Option<Seq<u8>> {
    match text {
        Some(t) => Some(t@),
        None => None,
    }
}

impl View for Mp4Tags {
    type V = Mp4TagsView;

    open spec fn view(&self) -> Mp4TagsView {
        Mp4TagsView {
            artist: bytes_of(self.artist),
            album: bytes_of(self.album),
            album_artist: bytes_of(self.album_artist),
            year: bytes_of(self.year),
            title: bytes_of(self.title),
            track_number: self.track_number,
        }
    }
}

/// What `mp4parse::read_mp4` finds in the `meta` box under `udta`, given the memory it
/// asks for; `None` where it reports an error, or the container has no such box, or the
/// box could not be read.
pub uninterp spec fn mp4_tags(bytes: Seq<u8>) -> Option<Mp4TagsView>;

/// Decodes a container with `mp4parse::read_mp4` and copies the fields of its `meta`
/// box out.
///
/// Trusted: what comes out is a function of the bytes alone, and comes only out of a
/// stream with room for the eight-byte header of a box. The decoder reports an error
/// where it is refused memory, so nothing may come out where something could.
#[verifier::external_body]
pub(crate) fn read_tags(bytes: &[u8]) -> (tags: Option<Mp4Tags>)
    ensures
        tags matches Some(found) ==> mp4_tags(bytes@) == Some(found@),
        tags is Some ==> bytes@.len() >= 8,
{
    let meta = match mp4parse::read_mp4(&mut std::io::Cursor::new(bytes)) {
        Ok(mp4parse::MediaContext { userdata: Some(Ok(user_data)), .. }) => user_data.meta,
        _ => None,
    };
    meta.map(|meta| Mp4Tags {
        artist: meta.artist.map(|value| value.to_vec()),
        album: meta.album.map(|value| value.to_vec()),
        album_artist: meta.album_artist.map(|value| value.to_vec()),
        year: meta.year.map(|value| value.to_vec()),
        title: meta.title.map(|value| value.to_vec()),
        track_number: meta.track_number,
    })
}

} // verus!
