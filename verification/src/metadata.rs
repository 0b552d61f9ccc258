//! The canonical record of a track, and how it is read out of a file's bytes.

use vstd::prelude::*;
use vstd::utf8::{decode_utf8, valid_utf8};
use crate::decimal::{decimal_text, format_usize, parse_usize, parse_usize_spec};
use crate::flac_tags::{
    blocks_complete, check_blocks, flac_decodes, flac_values, get_vorbis, vorbis_values,
};
use crate::mp3_tags::{check_frames, frames_complete, id3_tags, Id3Tags, Id3TagsView};
use crate::mp4_tags::{bytes_of, mp4_tags, Mp4Tags, Mp4TagsView};

verus! {

/// What the tags of a file say of its track. A text that the tags do not hold is `None`;
/// a track number that they do not hold, or that cannot be read, is `0`.
#[derive(Debug)]
pub struct Metadata {
    pub artist: Option<String>,
    pub album: Option<String>,
    pub album_artist: Option<String>,
    pub year: Option<String>,
    pub track_name: Option<String>,
    pub track_number: usize,
}

/// A record with its texts as sequences of characters.
pub struct MetadataView {
    pub artist: Option<Seq<char>>,
    pub album: Option<Seq<char>>,
    pub album_artist: Option<Seq<char>>,
    pub year: Option<Seq<char>>,
    pub track_name: Option<Seq<char>>,
    pub track_number: usize,
}

/// The characters of a text that may be absent.
pub open spec fn text_view(text: Option<String>) -> Option<Seq<char>> {
    match text {
        Some(t) => Some(t@),
        None => None,
    }
}

impl View for Metadata {
    type V = MetadataView;

    open spec fn view(&self) -> MetadataView {
        MetadataView {
            artist: text_view(self.artist),
            album: text_view(self.album),
            album_artist: text_view(self.album_artist),
            year: text_view(self.year),
            track_name: text_view(self.track_name),
            track_number: self.track_number,
        }
    }
}

/// The first of the values that a tag holds under a key.
pub open spec fn first_value(values: Option<Seq<Seq<char>>>) -> Option<Seq<char>> {
    match values {
        Some(v) => if v.len() > 0 {
            Some(v[0])
        } else {
            None
        },
        None => None,
    }
}

/// The track number that a text spells: the number where the text is an unsigned
/// decimal that fits, `0` where it is anything else or absent.
pub open spec fn track_number_of(text: Option<Seq<char>>) -> usize {
    match text {
        Some(t) => match parse_usize_spec(t) {
            Ok(n) => n,
            Err(_) => 0,
        },
        None => 0,
    }
}

/// The decimal notation of a year, with `-` in front where it is negative.
pub open spec fn year_text(year: i32) -> Seq<char> {
    if year < 0 {
        seq!['-'] + decimal_text((-(year as int)) as nat)
    } else {
        decimal_text(year as nat)
    }
}

/// The text that bytes spell in UTF-8, `None` where they spell none.
pub open spec fn utf8_text(bytes: Option<Seq<u8>>) -> Option<Seq<char>> {
    match bytes {
        Some(b) => if valid_utf8(b) {
            Some(decode_utf8(b))
        } else {
            None
        },
        None => None,
    }
}

/// The record that the first values under six keys make.
pub open spec fn vorbis_metadata(
    artist: Option<Seq<Seq<char>>>,
    album: Option<Seq<Seq<char>>>,
    album_artist: Option<Seq<Seq<char>>>,
    date: Option<Seq<Seq<char>>>,
    title: Option<Seq<Seq<char>>>,
    number: Option<Seq<Seq<char>>>,
) -> MetadataView {
    MetadataView {
        artist: first_value(artist),
        album: first_value(album),
        album_artist: first_value(album_artist),
        year: first_value(date),
        track_name: first_value(title),
        track_number: track_number_of(first_value(number)),
    }
}

/// The record that the Vorbis comments of a FLAC tag make.
pub open spec fn tag_metadata(tag: metaflac::Tag) -> MetadataView {
    vorbis_metadata(
        vorbis_values(tag, "ARTIST"@),
        vorbis_values(tag, "ALBUM"@),
        vorbis_values(tag, "ALBUMARTIST"@),
        vorbis_values(tag, "DATE"@),
        vorbis_values(tag, "TITLE"@),
        vorbis_values(tag, "TRACK_NUMBER"@),
    )
}

/// The record that the Vorbis comments of a FLAC stream make, where it decodes.
pub open spec fn flac_metadata(bytes: Seq<u8>) -> MetadataView {
    vorbis_metadata(
        flac_values(bytes, "ARTIST"@)->0,
        flac_values(bytes, "ALBUM"@)->0,
        flac_values(bytes, "ALBUMARTIST"@)->0,
        flac_values(bytes, "DATE"@)->0,
        flac_values(bytes, "TITLE"@)->0,
        flac_values(bytes, "TRACK_NUMBER"@)->0,
    )
}

/// The record that the fields of an ID3 tag make.
pub open spec fn id3_metadata(tags: Id3TagsView) -> MetadataView {
    MetadataView {
        artist: tags.artist,
        album: tags.album,
        album_artist: tags.album_artist,
        year: match tags.year {
            Some(y) => Some(year_text(y)),
            None => None,
        },
        track_name: tags.title,
        track_number: match tags.track {
            Some(n) => n as usize,
            None => 0,
        },
    }
}

/// The record that the fields of an MP4 `meta` box make.
pub open spec fn mp4_metadata(tags: Mp4TagsView) -> MetadataView {
    MetadataView {
        artist: utf8_text(tags.artist),
        album: utf8_text(tags.album),
        album_artist: utf8_text(tags.album_artist),
        year: utf8_text(tags.year),
        track_name: utf8_text(tags.title),
        track_number: match tags.track_number {
            Some(n) => n as usize,
            None => 0,
        },
    }
}

/// Whether the FLAC reader or the ID3 reader finds its tags in the bytes. A FLAC stream
/// with a block cut short counts as not FLAC, and an ID3 tag with a frame that cannot be
/// taken as no ID3 tag.
pub open spec fn tagged(bytes: Seq<u8>) -> bool {
    ||| blocks_complete(bytes) && flac_decodes(bytes)
    ||| frames_complete(bytes) && id3_tags(bytes) is Some
}

/// The record of a file: that of the first reader that finds its tags, FLAC before ID3
/// before MP4; `None` where none does.
pub open spec fn metadata_of(bytes: Seq<u8>) -> Option<MetadataView> {
    if blocks_complete(bytes) && flac_decodes(bytes) {
        Some(flac_metadata(bytes))
    } else if frames_complete(bytes) && id3_tags(bytes) is Some {
        Some(id3_metadata(id3_tags(bytes)->0))
    } else if mp4_tags(bytes) is Some {
        Some(mp4_metadata(mp4_tags(bytes)->0))
    } else {
        None
    }
}

#[verifier::external_type_specification]
#[verifier::external_body]
pub struct ExFromUtf8Error(std::string::FromUtf8Error);

/// `String::from_utf8` gives the text that the bytes spell, and fails on bytes that are
/// not UTF-8.
pub assume_specification[ String::from_utf8 ](vec: Vec<u8>) -> (r: Result<
    String,
    std::string::FromUtf8Error,
>)
    ensures
        r is Ok <==> valid_utf8(vec@),
        r matches Ok(text) ==> text@ == decode_utf8(vec@),
;

fn clone_text(text: &Option<String>) -> (copy: Option<String>)
    ensures
        text_view(copy) == text_view(*text),
{
    match text {
        Some(t) => Some(t.clone()),
        None => None,
    }
}

/// Writes a year in decimal notation.
pub fn format_year(year: i32) -> (text: String)
    ensures
        text@ == year_text(year),
{
    if year < 0 {
        let magnitude: usize = (-(year as i64)) as usize;
        let mut text = "-".to_owned();
        proof {
            reveal_strlit("-");
            assert("-"@ =~= seq!['-']);
        }
        let digits = format_usize(magnitude);
        vstd::string::StringExecFns::append(&mut text, digits.as_str());
        text
    } else {
        format_usize(year as usize)
    }
}

impl Metadata {
    /// The first value that a FLAC tag holds under a Vorbis comment key.
    pub fn get_vorbis_comment(tag: &metaflac::Tag, key: &'static str) -> (value: Option<String>)
        ensures
            text_view(value) == first_value(vorbis_values(*tag, key@)),
    {
        match get_vorbis(tag, key) {
            Some(values) => {
                if values.len() > 0 {
                    assert(values.deep_view()[0] == values@[0]@);
                    Some(values[0].clone())
                } else {
                    assert(values.deep_view().len() == 0);
                    None
                }
            },
            None => None,
        }
    }

    /// The text of an MP4 field: its bytes read as UTF-8, absent where they are not.
    pub fn get_mp4_string(value_opt: Option<Vec<u8>>) -> (value: Option<String>)
        ensures
            text_view(value) == utf8_text(bytes_of(value_opt)),
    {
        match value_opt {
            Some(value) => match String::from_utf8(value) {
                Ok(data) => Some(data),
                Err(_) => None,
            },
            None => None,
        }
    }

    /// The track number that a text spells, `0` where it spells none.
    pub fn track_number_from(text: &Option<String>) -> (number: usize)
        ensures
            number == track_number_of(text_view(*text)),
    {
        match text {
            Some(t) => match parse_usize(t.as_str()) {
                Ok(n) => n,
                Err(_) => 0,
            },
            None => 0,
        }
    }

    /// The record of a FLAC tag.
    pub fn from_flac(tag: &metaflac::Tag) -> (md: Metadata)
        ensures
            md@ == tag_metadata(*tag),
    {
        let number = Metadata::get_vorbis_comment(tag, "TRACK_NUMBER");
        Metadata {
            artist: Metadata::get_vorbis_comment(tag, "ARTIST"),
            album: Metadata::get_vorbis_comment(tag, "ALBUM"),
            album_artist: Metadata::get_vorbis_comment(tag, "ALBUMARTIST"),
            year: Metadata::get_vorbis_comment(tag, "DATE"),
            track_name: Metadata::get_vorbis_comment(tag, "TITLE"),
            track_number: Metadata::track_number_from(&number),
        }
    }

    /// The record of an ID3 tag.
    pub fn from_id3(tags: &Id3Tags) -> (md: Metadata)
        ensures
            md@ == id3_metadata(tags@),
    {
        Metadata {
            artist: clone_text(&tags.artist),
            album: clone_text(&tags.album),
            album_artist: clone_text(&tags.album_artist),
            year: match tags.year {
                Some(y) => Some(format_year(y)),
                None => None,
            },
            track_name: clone_text(&tags.title),
            track_number: match tags.track {
                Some(n) => n as usize,
                None => 0,
            },
        }
    }

    /// The record of an MP4 `meta` box.
    pub fn from_mp4(tags: Mp4Tags) -> (md: Metadata)
        ensures
            md@ == mp4_metadata(tags@),
    {
        Metadata {
            artist: Metadata::get_mp4_string(tags.artist),
            album: Metadata::get_mp4_string(tags.album),
            album_artist: Metadata::get_mp4_string(tags.album_artist),
            year: Metadata::get_mp4_string(tags.year),
            track_name: Metadata::get_mp4_string(tags.title),
            track_number: match tags.track_number {
                Some(n) => n as usize,
                None => 0,
            },
        }
    }

    /// Reads the record of a file out of its bytes.
    ///
    /// The readers are tried in the order FLAC, ID3, MP4, each on the bytes from their
    /// start, and the first that finds its tags gives the record. A file in none of the
    /// three formats gives `None`, and so does a file of fewer than four bytes. A file
    /// with FLAC or ID3 tags always gives its record; an MP4 container gives none where
    /// its reader is refused the memory it asks for.
    pub fn read_from_bytes(bytes: &[u8]) -> (md: Option<Metadata>)
        ensures
            md matches Some(m) ==> Some(m@) == metadata_of(bytes@),
            md is None ==> !tagged(bytes@),
            bytes@.len() < 4 ==> md is None,
    {
        if check_blocks(bytes) {
            let decoded = crate::flac_tags::read_tag(bytes);
            proof {
                assert(flac_values(bytes@, Seq::<char>::empty()) is Some <==> decoded is Some);
                assert(flac_values(bytes@, "ARTIST"@) is Some <==> decoded is Some);
                assert(flac_values(bytes@, "ALBUM"@) is Some <==> decoded is Some);
                assert(flac_values(bytes@, "ALBUMARTIST"@) is Some <==> decoded is Some);
                assert(flac_values(bytes@, "DATE"@) is Some <==> decoded is Some);
                assert(flac_values(bytes@, "TITLE"@) is Some <==> decoded is Some);
                assert(flac_values(bytes@, "TRACK_NUMBER"@) is Some <==> decoded is Some);
            }
            if let Some(tag) = decoded {
                return Some(Metadata::from_flac(&tag));
            }
        }
        if check_frames(bytes) {
            if let Some(tags) = crate::mp3_tags::read_tags(bytes) {
                return Some(Metadata::from_id3(&tags));
            }
        }
        if let Some(tags) = crate::mp4_tags::read_tags(bytes) {
            return Some(Metadata::from_mp4(tags));
        }
        None
    }
}

} // verus!
