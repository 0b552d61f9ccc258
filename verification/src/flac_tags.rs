//! Reading Vorbis comments out of FLAC metadata.
//!
//! The metadata of a FLAC stream is a chain of blocks behind the marker `fLaC`. Each
//! block starts with four bytes: a kind (the high bit tells whether the block is the last
//! one) and the length of its body. Before a stream is handed to the decoder this module
//! walks the chain and makes sure that every body is as long as its kind needs: the
//! decoder indexes into the bodies without looking at their length.

use vstd::prelude::*;
use vstd::slice::slice_subrange;
use crate::bytes::{be24, be32, le32, read_be24, read_be32, read_le32};

verus! {

/// Whether `d` holds, from `at` on, `count` comments that are each complete and hold the
/// `=` that parts key from value. A comment is four bytes of length, first byte least
/// significant, and then that many bytes of text.
pub open spec fn comments_complete(d: Seq<u8>, at: int, count: int) -> bool
    decreases count,
{
    count <= 0 || {
        &&& at + 4 <= d.len()
        &&& at + 4 + le32(d, at) <= d.len()
        &&& d.subrange(at + 4, at + 4 + le32(d, at)).contains(0x3d)
        &&& comments_complete(d, at + 4 + le32(d, at), count - 1)
    }
}

/// Whether the body of a Vorbis comment block is complete: the vendor text, the number
/// of comments, and that many comments.
pub open spec fn vorbis_complete(d: Seq<u8>) -> bool {
    &&& 4 <= d.len()
    &&& 8 + le32(d, 0) <= d.len()
    &&& comments_complete(d, 8 + le32(d, 0), le32(d, 4 + le32(d, 0)))
}

/// Whether the body of a picture block is complete: the type, the media type, the
/// description, four numbers, and the picture itself, each text and the picture behind
/// its own length.
pub open spec fn picture_complete(d: Seq<u8>) -> bool {
    &&& 8 <= d.len()
    &&& 12 + be32(d, 4) <= d.len()
    &&& 32 + be32(d, 4) + be32(d, 8 + be32(d, 4)) <= d.len()
    &&& 32 + be32(d, 4) + be32(d, 8 + be32(d, 4)) + be32(
        d,
        28 + be32(d, 4) + be32(d, 8 + be32(d, 4)),
    ) <= d.len()
}

/// Whether `d` holds, from `at` on, `count` cue sheet tracks as far as the decoder reads
/// them. A track is 36 bytes, the last of which counts its index points; an index point
/// is 12 bytes, of which the decoder reads the first nine.
pub open spec fn tracks_complete(d: Seq<u8>, at: int, count: int) -> bool
    decreases count,
{
    count <= 0 || {
        &&& at + 36 <= d.len()
        &&& (d[at + 35] > 0 ==> at + 36 + 12 * (d[at + 35] - 1) + 9 <= d.len())
        &&& tracks_complete(d, at + 36 + 12 * d[at + 35], count - 1)
    }
}

/// Whether the body of a cue sheet block is complete: 396 bytes of header, the last of
/// which counts the tracks, and then the tracks.
pub open spec fn cue_sheet_complete(d: Seq<u8>) -> bool {
    &&& 396 <= d.len()
    &&& tracks_complete(d, 396, d[395] as int)
}

/// Whether the body `d` of a block of the given kind is as long as the decoder reads.
pub open spec fn body_complete(kind: u8, d: Seq<u8>) -> bool {
    if kind == 0 {
        34 <= d.len()
    } else if kind == 2 {
        4 <= d.len()
    } else if kind == 4 {
        vorbis_complete(d)
    } else if kind == 5 {
        cue_sheet_complete(d)
    } else if kind == 6 {
        picture_complete(d)
    } else {
        true
    }
}

fn check_comments(d: &[u8], start: usize, count: u64) -> (ok: bool)
    requires
        start <= d@.len(),
    ensures
        ok == comments_complete(d@, start as int, count as int),
{
    let mut at = start;
    let mut left = count;
    while left > 0
        invariant
            at <= d@.len(),
            comments_complete(d@, start as int, count as int) == comments_complete(
                d@,
                at as int,
                left as int,
            ),
        decreases left,
    {
        if d.len() - at < 4 {
            return false;
        }
        let length = read_le32(d, at);
        if length > (d.len() - at - 4) as u64 {
            return false;
        }
        let end = at + 4 + length as usize;
        let ghost text = d@.subrange(at + 4, end as int);
        let mut i = at + 4;
        let mut found = false;
        while i < end && !found
            invariant
                at + 4 <= i <= end <= d@.len(),
                text == d@.subrange(at + 4, end as int),
                found ==> text.contains(0x3d),
                !found ==> forall|j: int| 0 <= j < i - (at + 4) ==> text[j] != 0x3d,
            decreases end - i, if found { 0int } else { 1int },
        {
            if d[i] == 0x3d {
                found = true;
                assert(text[i - (at + 4)] == 0x3d);
            } else {
                i = i + 1;
            }
        }
        if !found {
            return false;
        }
        at = end;
        left = left - 1;
    }
    true
}

fn check_vorbis(d: &[u8]) -> (ok: bool)
    ensures
        ok == vorbis_complete(d@),
{
    if d.len() < 4 {
        return false;
    }
    let vendor = read_le32(d, 0);
    if d.len() < 8 || vendor > (d.len() - 8) as u64 {
        return false;
    }
    let at = 4 + vendor as usize;
    let count = read_le32(d, at);
    check_comments(d, at + 4, count)
}

fn check_picture(d: &[u8]) -> (ok: bool)
    ensures
        ok == picture_complete(d@),
{
    if d.len() < 8 {
        return false;
    }
    let mime = read_be32(d, 4);
    if d.len() < 12 || mime > (d.len() - 12) as u64 {
        return false;
    }
    let at = 8 + mime as usize;
    let description = read_be32(d, at);
    if d.len() - at < 24 || description > (d.len() - at - 24) as u64 {
        return false;
    }
    let at = at + 20 + description as usize;
    let picture = read_be32(d, at);
    picture <= (d.len() - at - 4) as u64
}

fn check_tracks(d: &[u8], start: usize, count: u8) -> (ok: bool)
    requires
        start <= d@.len(),
    ensures
        ok == tracks_complete(d@, start as int, count as int),
{
    let mut at = start;
    let mut left = count;
    while left > 0
        invariant
            at <= d@.len(),
            tracks_complete(d@, start as int, count as int) == tracks_complete(
                d@,
                at as int,
                left as int,
            ),
        decreases left,
    {
        if d.len() - at < 36 {
            return false;
        }
        let points = d[at + 35] as usize;
        if points > 0 && d.len() - at - 36 < 12 * (points - 1) + 9 {
            return false;
        }
        if d.len() - at - 36 < 12 * points {
            // The last index point of the last track may lack its three closing bytes,
            // which the decoder skips without reading them. Nothing may follow then.
            assert(points > 0);
            assert(at + 36 + 12 * points > d@.len());
            if left > 1 {
                assert(!tracks_complete(d@, at + 36 + 12 * points, left - 1));
                return false;
            }
            assert(tracks_complete(d@, at + 36 + 12 * points, 0));
            return true;
        }
        at = at + 36 + 12 * points;
        left = left - 1;
    }
    true
}

fn check_cue_sheet(d: &[u8]) -> (ok: bool)
    ensures
        ok == cue_sheet_complete(d@),
{
    if d.len() < 396 {
        return false;
    }
    check_tracks(d, 396, d[395])
}

fn check_body(kind: u8, d: &[u8]) -> (ok: bool)
    ensures
        ok == body_complete(kind, d@),
{
    if kind == 0 {
        d.len() >= 34
    } else if kind == 2 {
        d.len() >= 4
    } else if kind == 4 {
        check_vorbis(d)
    } else if kind == 5 {
        check_cue_sheet(d)
    } else if kind == 6 {
        check_picture(d)
    } else {
        true
    }
}

/// Whether the four bytes from `at` on are the marker `fLaC`.
pub open spec fn marker_at(b: Seq<u8>, at: int) -> bool {
    &&& at + 4 <= b.len()
    &&& b[at] == 0x66
    &&& b[at + 1] == 0x4c
    &&& b[at + 2] == 0x61
    &&& b[at + 3] == 0x43
}

/// Whether the stream opens with the header of an ID3v2 tag of version 2, 3 or 4.
pub open spec fn id3_prefix(b: Seq<u8>) -> bool {
    &&& 4 <= b.len()
    &&& b[0] == 0x49
    &&& b[1] == 0x44
    &&& b[2] == 0x33
    &&& (b[3] == 2 || b[3] == 3 || b[3] == 4)
}

/// The length that such a header declares for its tag: seven bits from each of its last
/// four bytes, and ten bytes more where a footer is flagged.
pub open spec fn id3_skip(b: Seq<u8>) -> int {
    (b[6] & 0x7f) as int * 2097152 + (b[7] & 0x7f) as int * 16384 + (b[8] & 0x7f) as int * 128 + (
    b[9] & 0x7f) as int + (if b[5] & 0x10 != 0 {
        10int
    } else {
        0int
    })
}

/// Where the chain of blocks starts: behind the marker, which stands at the start of the
/// stream or behind a leading ID3v2 tag. `None` where no marker stands there.
pub open spec fn chain_start(b: Seq<u8>) -> Option<int> {
    if id3_prefix(b) {
        if b.len() < 10 {
            None
        } else {
            let at = if 10 + id3_skip(b) <= b.len() {
                10 + id3_skip(b)
            } else {
                b.len() as int
            };
            if marker_at(b, at) {
                Some(at + 4)
            } else {
                None
            }
        }
    } else if marker_at(b, 0) {
        Some(4)
    } else {
        None
    }
}

/// Where the body of the block whose header stands at `at` ends: behind its declared
/// length, or at the end of the stream where that comes first.
pub open spec fn body_end(b: Seq<u8>, at: int) -> int {
    if at + 4 + be24(b, at + 1) <= b.len() {
        at + 4 + be24(b, at + 1)
    } else {
        b.len() as int
    }
}

/// Whether every block of the chain that starts at `at` has a complete body, and the
/// declared sizes of the blocks, headers included, add up to no more than `u32::MAX`
/// together with the `total` of the blocks before. The chain ends with the block whose
/// high bit is set, or where the stream has no room for another header.
pub open spec fn chain_complete(b: Seq<u8>, at: int, total: int) -> bool
    decreases b.len() - at,
{
    if at < 0 || at + 4 > b.len() {
        true
    } else {
        &&& body_complete(b[at] & 0x7f, b.subrange(at + 4, body_end(b, at)))
        &&& total + be24(b, at + 1) + 4 <= u32::MAX
        &&& (b[at] & 0x80 != 0 || chain_complete(b, body_end(b, at), total + be24(b, at + 1) + 4))
    }
}

/// Whether the stream can be handed to the decoder: it holds no FLAC marker, or every
/// block behind the marker is complete.
pub open spec fn blocks_complete(b: Seq<u8>) -> bool {
    match chain_start(b) {
        Some(at) => chain_complete(b, at, 0),
        None => true,
    }
}

fn marker_found(b: &[u8], at: usize) -> (found: bool)
    requires
        at <= b@.len(),
    ensures
        found == marker_at(b@, at as int),
{
    b.len() - at >= 4 && b[at] == 0x66 && b[at + 1] == 0x4c && b[at + 2] == 0x61 && b[at + 3]
        == 0x43
}

fn find_chain(b: &[u8]) -> (start: Option<usize>)
    ensures
        start matches Some(at) ==> chain_start(b@) == Some(at as int) && at <= b@.len(),
        start is None ==> chain_start(b@) is None,
{
    if b.len() >= 4 && b[0] == 0x49 && b[1] == 0x44 && b[2] == 0x33 && (b[3] == 2 || b[3] == 3
        || b[3] == 4) {
        if b.len() < 10 {
            return None;
        }
        let mut skip: u64 = ((b[6] & 0x7f) as u64) * 2097152 + ((b[7] & 0x7f) as u64) * 16384 + ((
        b[8] & 0x7f) as u64) * 128 + ((b[9] & 0x7f) as u64);
        if b[5] & 0x10 != 0 {
            skip = skip + 10;
        }
        let at = if skip <= (b.len() - 10) as u64 {
            10 + skip as usize
        } else {
            b.len()
        };
        if marker_found(b, at) {
            Some(at + 4)
        } else {
            None
        }
    } else if marker_found(b, 0) {
        Some(4)
    } else {
        None
    }
}

/// Tells whether the decoder can read the stream without reaching past the end of a
/// block.
pub fn check_blocks(b: &[u8]) -> (ok: bool)
    ensures
        ok == blocks_complete(b@),
{
    let start = match find_chain(b) {
        Some(at) => at,
        None => {
            return true;
        },
    };
    let mut at = start;
    let mut total: u64 = 0;
    loop
        invariant
            at <= b@.len(),
            total <= u32::MAX,
            blocks_complete(b@) == chain_complete(b@, at as int, total as int),
        decreases b@.len() - at,
    {
        if b.len() - at < 4 {
            return true;
        }
        let head = b[at];
        let length = read_be24(b, at + 1);
        let end = if length <= b.len() - at - 4 {
            at + 4 + length
        } else {
            b.len()
        };
        assert(end == body_end(b@, at as int));
        if !check_body(head & 0x7f, slice_subrange(b, at + 4, end)) {
            return false;
        }
        if total + length as u64 + 4 > u32::MAX as u64 {
            return false;
        }
        if head & 0x80 != 0 {
            return true;
        }
        total = total + length as u64 + 4;
        at = end;
    }
}

#[verifier::external_type_specification]
#[verifier::external_body]
pub struct ExFlacTag(metaflac::Tag);

/// The values that `metaflac::Tag::get_vorbis` finds in a tag under a key, in the order
/// in which the tag holds them; `None` where the tag has no comment of that key.
pub uninterp spec fn vorbis_values(tag: metaflac::Tag, key: Seq<char>) -> Option<Seq<Seq<char>>>;

/// What decoding a stream with `metaflac::Tag::read_from` and looking a key up in the
/// tag gives: `None` where the decoder reports an error, and else the values under the
/// key.
pub uninterp spec fn flac_values(bytes: Seq<u8>, key: Seq<char>) -> Option<Option<Seq<Seq<char>>>>;

/// Whether the decoder finds a tag in the stream.
pub open spec fn flac_decodes(bytes: Seq<u8>) -> bool {
    flac_values(bytes, Seq::<char>::empty()) is Some
}

/// Decodes the metadata blocks of a stream with `metaflac::Tag::read_from`.
///
/// Trusted: whether a tag comes out, and what it holds under each key, is a function
/// of the bytes alone; and a tag comes out only where the marker `fLaC` stands where
/// `chain_start` looks for it. The decoder slices block bodies at fixed offsets and
/// panics where a body is too short; `requires` keeps those streams away.
#[verifier::external_body]
pub(crate) fn read_tag(bytes: &[u8]) -> (tag: Option<metaflac::Tag>)
    requires
        blocks_complete(bytes@),
    ensures
        forall|key: Seq<char>| #[trigger]
            flac_values(bytes@, key) == match tag {
                Some(t) => Some(vorbis_values(t, key)),
                None => None,
            },
        tag is Some ==> chain_start(bytes@) is Some,
{
    metaflac::Tag::read_from(&mut std::io::Cursor::new(bytes)).ok()
}

/// Looks a key up with `metaflac::Tag::get_vorbis` and copies the values out.
///
/// Trusted: the values are those that the tag holds under the key, in its order.
#[verifier::external_body]
pub(crate) fn get_vorbis(tag: &metaflac::Tag, key: &str) -> (values: Option<Vec<String>>)
    ensures
        values.deep_view() == vorbis_values(*tag, key@),
{
    tag.get_vorbis(key).map(|values| values.map(|value| value.to_owned()).collect())
}

} // verus!
