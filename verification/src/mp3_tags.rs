//! Reading the ID3v2 tag that opens an MP3 stream.
//!
//! A tag is a ten-byte header and then frames, each behind a header of its own: six
//! bytes in version 2, ten in versions 3 and 4. Before a stream is handed to the decoder
//! this module walks the frames and keeps away those that the decoder cannot take: a
//! frame whose length is too short for what its flags announce, a frame of synchronised
//! lyrics that is cut short, and a text frame of version 4 whose two-byte characters do
//! not come out even. A compressed frame is kept away where it holds lyrics or such a
//! text, which cannot be looked into, or is too long for the walk to follow.

use vstd::prelude::*;
use vstd::slice::slice_subrange;
use crate::bytes::{be24, be32, read_be24, read_be32};

verus! {

/// What an ID3 tag says of a track, as far as the catalogue reads it.
#[derive(Debug)]
pub struct Id3Tags {
    pub artist: Option<String>,
    pub album: Option<String>,
    pub album_artist: Option<String>,
    pub year: Option<i32>,
    pub title: Option<String>,
    pub track: Option<u32>,
}

/// The fields of an ID3 tag with their texts as sequences of characters.
pub struct Id3TagsView {
    pub artist: Option<Seq<char>>,
    pub album: Option<Seq<char>>,
    pub album_artist: Option<Seq<char>>,
    pub year: Option<i32>,
    pub title: Option<Seq<char>>,
    pub track: Option<u32>,
}

/// The characters of a text that may be absent.
pub open spec fn chars_of(text: Option<String>) -> Option<Seq<char>> {
    match text {
        Some(t) => Some(t@),
        None => None,
    }
}

impl View for Id3Tags {
    type V = Id3TagsView;

    open spec fn view(&self) -> Id3TagsView {
        Id3TagsView {
            artist: chars_of(self.artist),
            album: chars_of(self.album),
            album_artist: chars_of(self.album_artist),
            year: self.year,
            title: chars_of(self.title),
            track: self.track,
        }
    }
}

/// What was read, if anything, by its view.
pub open spec fn read_view(tags: Option<Id3Tags>) -> Option<Id3TagsView> {
    match tags {
        Some(t) => Some(t@),
        None => None,
    }
}

/// Whether the stream opens with the ten-byte header of an ID3v2 tag.
pub open spec fn id3_header(b: Seq<u8>) -> bool {
    &&& 10 <= b.len()
    &&& b[0] == 0x49
    &&& b[1] == 0x44
    &&& b[2] == 0x33
}

/// The number that the tag format packs into 32 bits, seven to a byte, as the decoder
/// unpacks it: each byte is shifted onto the one below, and a high bit that should not
/// be set lands on the lowest bit of the byte above.
pub open spec fn unpack(n: u32) -> u32 {
    (n & 0xFF) | ((n & 0xFF00) >> 1) | ((n & 0xFF_0000) >> 2) | ((n & 0xFF00_0000) >> 3)
}

/// Whether the decoder takes the header: a version of 2, 3 or 4, no unknown flag, and
/// no compression flag in version 2.
pub open spec fn header_accepted(b: Seq<u8>) -> bool {
    &&& id3_header(b)
    &&& (b[3] == 2 || b[3] == 3 || b[3] == 4)
    &&& b[5] & 0x0f == 0
    &&& !(b[3] == 2 && b[5] & 0x40 != 0)
}

/// The length that the header declares for the frames.
pub open spec fn declared_size(b: Seq<u8>) -> int {
    unpack(be32(b, 6) as u32) as int
}

/// Where the frames start: behind the header, and behind the extended header where one
/// is flagged. `None` where the decoder refuses the header or the extended header.
pub open spec fn frames_start(b: Seq<u8>) -> Option<int> {
    if !header_accepted(b) {
        None
    } else if b[5] & 0x40 != 0 {
        if b.len() < 14 || unpack(be32(b, 10) as u32) < 6 {
            None
        } else if 10 + unpack(be32(b, 10) as u32) <= b.len() {
            Some(10 + unpack(be32(b, 10) as u32))
        } else {
            Some(b.len() as int)
        }
    } else {
        Some(10)
    }
}

/// Where the first end mark stands in `d` from `at` on: a zero byte, or two of them
/// where `wide`. `None` where none stands there.
pub open spec fn end_mark(d: Seq<u8>, at: int, wide: bool) -> Option<int>
    decreases d.len() - at,
{
    if at < 0 || at + (if wide { 2int } else { 1int }) > d.len() {
        None
    } else if d[at] == 0 && (!wide || d[at + 1] == 0) {
        Some(at)
    } else {
        end_mark(d, at + 1, wide)
    }
}

/// Whether each text that stands in `d` from `at` on is followed by its four bytes of
/// time stamp. A text ends with an end mark; what follows the last mark is ignored.
pub open spec fn lyrics_lines_complete(d: Seq<u8>, at: int, wide: bool) -> bool
    decreases d.len() - at,
{
    match end_mark(d, at, wide) {
        None => true,
        Some(mark) => {
            let next = mark + (if wide { 2int } else { 1int }) + 4;
            &&& next <= d.len()
            &&& (at < next ==> lyrics_lines_complete(d, next, wide))
        },
    }
}

/// Whether the decoder can take the body `d` of a frame of synchronised lyrics: one
/// byte of encoding, three of language, one of time stamp format, one of content type,
/// and then the lines. Where the decoder refuses a byte before it reads on, the rest
/// need not be there.
pub open spec fn lyrics_complete(d: Seq<u8>) -> bool {
    if d.len() == 0 {
        false
    } else if d[0] > 1 || d.len() <= 4 || d[4] > 1 {
        true
    } else if d.len() == 5 {
        false
    } else if d[5] > 6 {
        true
    } else {
        lyrics_lines_complete(d, 6, d[0] == 1)
    }
}

/// What is left of `d` from `at` on once the unsynchronisation scheme is undone: each
/// zero byte that follows a byte `0xff` is dropped. `after_ff` tells whether the byte
/// before `at` was a `0xff` that was kept.
pub open spec fn plain_from(d: Seq<u8>, at: int, after_ff: bool) -> Seq<u8>
    decreases d.len() - at,
{
    if at < 0 || at >= d.len() {
        Seq::<u8>::empty()
    } else if after_ff && d[at] == 0 {
        plain_from(d, at + 1, false)
    } else {
        seq![d[at]] + plain_from(d, at + 1, d[at] == 0xff)
    }
}

/// The bytes of `d` with the unsynchronisation scheme undone.
pub open spec fn plain(d: Seq<u8>) -> Seq<u8> {
    plain_from(d, 0, false)
}

/// Whether the decoder can take the body `d` of a text frame of version 4. It cannot
/// where the text is in two-byte characters, the body has an even length of six or more
/// (so that the text is odd by one byte), and the last whole character is not zero.
pub open spec fn text_complete(d: Seq<u8>) -> bool {
    !(d.len() >= 6 && d.len() % 2 == 0 && (d[0] == 1 || d[0] == 2) && (d[d.len() - 3] != 0
        || d[d.len() - 2] != 0))
}

/// Where the body of the version 2 frame at `at` ends.
pub open spec fn short_body_end(s: Seq<u8>, at: int) -> int {
    if at + 6 + be24(s, at + 3) <= s.len() {
        at + 6 + be24(s, at + 3)
    } else {
        s.len() as int
    }
}

/// Whether the decoder can take the version 2 frames that stand in `s` from `at` on.
/// The frames end where fewer than six bytes are left or a header starts with zero.
pub open spec fn short_frames_complete(s: Seq<u8>, at: int) -> bool
    decreases s.len() - at,
{
    if at < 0 || at + 6 > s.len() || s[at] == 0 {
        true
    } else {
        &&& (s[at] == 0x53 && s[at + 1] == 0x4c && s[at + 2] == 0x54 ==> lyrics_complete(
            s.subrange(at + 6, short_body_end(s, at)),
        ))
        &&& short_frames_complete(s, short_body_end(s, at))
    }
}

/// Whether the decoder goes on to the body of the frame at `at`: its two bytes of flags
/// hold no flag that the version does not know, and none for encryption or grouping.
pub open spec fn flags_accepted(b: Seq<u8>, at: int) -> bool {
    if b[3] == 3 {
        b[at + 8] & 0x1f == 0 && b[at + 9] & 0x7f == 0
    } else {
        b[at + 8] & 0x8f == 0 && b[at + 9] & 0xf4 == 0
    }
}

/// Whether four bytes of length stand between the header of the frame at `at` and its
/// body.
pub open spec fn length_precedes(b: Seq<u8>, at: int) -> bool {
    if b[3] == 3 {
        b[at + 9] & 0x80 != 0
    } else {
        b[at + 9] & 0x01 != 0
    }
}

/// Whether the body of the frame at `at` is compressed.
pub open spec fn compressed(b: Seq<u8>, at: int) -> bool {
    if b[3] == 3 {
        b[at + 9] & 0x80 != 0
    } else {
        b[at + 9] & 0x08 != 0
    }
}

/// Whether the body of the frame at `at` is under the unsynchronisation scheme.
pub open spec fn unsynchronised(b: Seq<u8>, at: int) -> bool {
    if b[3] == 3 {
        b[5] & 0x80 != 0
    } else {
        b[at + 9] & 0x02 != 0
    }
}

/// The length that the header of the frame at `at` declares.
pub open spec fn frame_size(b: Seq<u8>, at: int) -> int {
    if b[3] == 3 {
        be32(b, at + 4)
    } else {
        unpack(be32(b, at + 4) as u32) as int
    }
}

/// Where the body of the frame at `at` starts.
pub open spec fn body_start(b: Seq<u8>, at: int) -> int {
    if length_precedes(b, at) {
        at + 14
    } else {
        at + 10
    }
}

/// Where the body of the frame at `at` ends: behind its length, or at the end of the
/// stream where that comes first.
pub open spec fn long_body_end(b: Seq<u8>, at: int) -> int {
    if at + 10 + frame_size(b, at) <= b.len() {
        at + 10 + frame_size(b, at)
    } else {
        b.len() as int
    }
}

/// The body of the frame at `at` as the decoder reads it.
pub open spec fn long_body(b: Seq<u8>, at: int) -> Seq<u8> {
    if unsynchronised(b, at) {
        plain(b.subrange(body_start(b, at), long_body_end(b, at)))
    } else {
        b.subrange(body_start(b, at), long_body_end(b, at))
    }
}

/// Whether the frame at `at` holds synchronised lyrics: its name is `SYLT`.
pub open spec fn names_lyrics(b: Seq<u8>, at: int) -> bool {
    b[at] == 0x53 && b[at + 1] == 0x59 && b[at + 2] == 0x4c && b[at + 3] == 0x54
}

/// Whether the frame at `at` is read as a text frame: its name starts with `T` and is
/// not `TXXX`, or it is `GRP1`.
pub open spec fn names_text(b: Seq<u8>, at: int) -> bool {
    ||| b[at] == 0x54 && !(b[at + 1] == 0x58 && b[at + 2] == 0x58 && b[at + 3] == 0x58)
    ||| b[at] == 0x47 && b[at + 1] == 0x52 && b[at + 2] == 0x50 && b[at + 3] == 0x31
}

/// Whether the decoder can take the frames of version 3 or 4 that stand from `at` on,
/// where the frames before declared `offset` bytes of the `size` that the tag has. The
/// frames end where the declared bytes reach the size, where fewer than ten bytes are
/// left, where a header starts with zero, and where the decoder refuses the flags or
/// finds no room for the four bytes of length.
///
/// A compressed body cannot be looked into. It is taken where it is neither
/// synchronised lyrics nor a text of version 4, and where it is no longer than the
/// 32768 bytes that the decoder fetches at once: of a longer one the decoder may leave
/// a part unread, and the next frame is then looked for in that part.
pub open spec fn long_frames_complete(b: Seq<u8>, at: int, offset: int, size: int) -> bool
    decreases b.len() - at,
{
    if at < 0 || offset >= size || at + 10 > b.len() || b[at] == 0 || !flags_accepted(b, at) {
        true
    } else if length_precedes(b, at) && at + 14 > b.len() {
        true
    } else if length_precedes(b, at) && frame_size(b, at) < 4 {
        false
    } else if compressed(b, at) {
        &&& !names_lyrics(b, at)
        &&& !(b[3] == 4 && names_text(b, at))
        &&& long_body_end(b, at) - body_start(b, at) <= 32768
        &&& long_frames_complete(b, long_body_end(b, at), offset + 10 + frame_size(b, at), size)
    } else {
        &&& (names_lyrics(b, at) ==> lyrics_complete(long_body(b, at)))
        &&& (b[3] == 4 && names_text(b, at) ==> text_complete(long_body(b, at)))
        &&& long_frames_complete(b, long_body_end(b, at), offset + 10 + frame_size(b, at), size)
    }
}

/// Where the frames of a version 2 tag end: behind the declared size, or at the end of
/// the stream where that comes first.
pub open spec fn short_frames_end(b: Seq<u8>) -> int {
    if 10 + declared_size(b) <= b.len() {
        10 + declared_size(b)
    } else {
        b.len() as int
    }
}

/// The frames of a version 2 tag as the decoder reads them.
pub open spec fn short_frames(b: Seq<u8>) -> Seq<u8> {
    if b[5] & 0x80 != 0 {
        plain(b.subrange(10, short_frames_end(b)))
    } else {
        b.subrange(10, short_frames_end(b))
    }
}

/// Whether the stream can be handed to the decoder: it refuses the header, or it can
/// take every frame.
pub open spec fn frames_complete(b: Seq<u8>) -> bool {
    match frames_start(b) {
        None => true,
        Some(at) => if b[3] == 2 {
            short_frames_complete(short_frames(b), 0)
        } else {
            long_frames_complete(b, at, 0, declared_size(b))
        },
    }
}

fn unpack_u32(n: u32) -> (m: u32)
    ensures
        m == unpack(n),
{
    (n & 0xFF) | ((n & 0xFF00) >> 1) | ((n & 0xFF_0000) >> 2) | ((n & 0xFF00_0000) >> 3)
}

fn find_end_mark(d: &[u8], start: usize, wide: bool) -> (mark: Option<usize>)
    requires
        start <= d@.len(),
    ensures
        mark matches Some(m) ==> end_mark(d@, start as int, wide) == Some(m as int) && start <= m
            && m + (if wide { 2int } else { 1int }) <= d@.len(),
        mark is None ==> end_mark(d@, start as int, wide) is None,
{
    let width: usize = if wide { 2 } else { 1 };
    let mut at = start;
    while d.len() - at >= width
        invariant
            start <= at <= d@.len(),
            width == (if wide { 2int } else { 1int }),
            end_mark(d@, start as int, wide) == end_mark(d@, at as int, wide),
        decreases d@.len() - at,
    {
        if d[at] == 0 && (!wide || d[at + 1] == 0) {
            return Some(at);
        }
        at = at + 1;
    }
    None
}

fn check_lyrics_lines(d: &[u8], start: usize, wide: bool) -> (ok: bool)
    requires
        start <= d@.len(),
    ensures
        ok == lyrics_lines_complete(d@, start as int, wide),
{
    let width: usize = if wide { 2 } else { 1 };
    let mut at = start;
    loop
        invariant
            at <= d@.len(),
            width == (if wide { 2int } else { 1int }),
            lyrics_lines_complete(d@, start as int, wide) == lyrics_lines_complete(
                d@,
                at as int,
                wide,
            ),
        decreases d@.len() - at,
    {
        match find_end_mark(d, at, wide) {
            None => {
                return true;
            },
            Some(mark) => {
                if d.len() - mark - width < 4 {
                    return false;
                }
                at = mark + width + 4;
            },
        }
    }
}

fn check_lyrics(d: &[u8]) -> (ok: bool)
    ensures
        ok == lyrics_complete(d@),
{
    if d.len() == 0 {
        false
    } else if d[0] > 1 || d.len() <= 4 || d[4] > 1 {
        true
    } else if d.len() == 5 {
        false
    } else if d[5] > 6 {
        true
    } else {
        check_lyrics_lines(d, 6, d[0] == 1)
    }
}

/// Undoes the unsynchronisation scheme.
fn undo_scheme(d: &[u8]) -> (out: Vec<u8>)
    ensures
        out@ == plain(d@),
{
    let mut out: Vec<u8> = Vec::new();
    let mut after_ff = false;
    let mut at: usize = 0;
    while at < d.len()
        invariant
            at <= d@.len(),
            plain(d@) == out@ + plain_from(d@, at as int, after_ff),
        decreases d@.len() - at,
    {
        let byte = d[at];
        if after_ff && byte == 0 {
            after_ff = false;
        } else {
            proof {
                assert(out@.push(byte) + plain_from(d@, at + 1, byte == 0xff) =~= out@ + (seq![byte]
                    + plain_from(d@, at + 1, byte == 0xff)));
            }
            out.push(byte);
            after_ff = byte == 0xff;
        }
        at = at + 1;
    }
    assert(out@ + Seq::<u8>::empty() =~= out@);
    out
}

fn check_text(d: &[u8]) -> (ok: bool)
    ensures
        ok == text_complete(d@),
{
    !(d.len() >= 6 && d.len() % 2 == 0 && (d[0] == 1 || d[0] == 2) && (d[d.len() - 3] != 0
        || d[d.len() - 2] != 0))
}

fn check_short_frames(s: &[u8]) -> (ok: bool)
    ensures
        ok == short_frames_complete(s@, 0),
{
    let mut at: usize = 0;
    loop
        invariant
            at <= s@.len(),
            short_frames_complete(s@, 0) == short_frames_complete(s@, at as int),
        decreases s@.len() - at,
    {
        if s.len() - at < 6 || s[at] == 0 {
            return true;
        }
        let size = read_be24(s, at + 3);
        let body_end = if size <= s.len() - at - 6 {
            at + 6 + size
        } else {
            s.len()
        };
        assert(body_end == short_body_end(s@, at as int));
        if s[at] == 0x53 && s[at + 1] == 0x4c && s[at + 2] == 0x54 {
            if !check_lyrics(slice_subrange(s, at + 6, body_end)) {
                return false;
            }
        }
        at = body_end;
    }
}

/// Checks the body of a frame that holds lyrics or text; other bodies need no check.
fn check_long_body(b: &[u8], at: usize, lyrics: bool, text: bool, body: &[u8]) -> (ok: bool)
    requires
        at + 10 <= b@.len(),
        lyrics == names_lyrics(b@, at as int),
        text == (b@[3] == 4 && names_text(b@, at as int)),
    ensures
        ok == ((names_lyrics(b@, at as int) ==> lyrics_complete(body@)) && (b@[3] == 4
            && names_text(b@, at as int) ==> text_complete(body@))),
{
    (!lyrics || check_lyrics(body)) && (!text || check_text(body))
}

fn check_long_frames(b: &[u8], start: usize, size: u32) -> (ok: bool)
    requires
        10 <= start <= b@.len(),
        b@[3] == 3 || b@[3] == 4,
    ensures
        ok == long_frames_complete(b@, start as int, 0, size as int),
{
    let third = b[3] == 3;
    let tag_unsynchronised = b[5] & 0x80 != 0;
    let mut at = start;
    let mut offset: u64 = 0;
    loop
        invariant
            10 <= start <= at <= b@.len(),
            b@[3] == 3 || b@[3] == 4,
            third == (b@[3] == 3),
            tag_unsynchronised == (b@[5] & 0x80 != 0),
            offset <= 0x3_0000_0000,
            long_frames_complete(b@, start as int, 0, size as int) == long_frames_complete(
                b@,
                at as int,
                offset as int,
                size as int,
            ),
        decreases b@.len() - at,
    {
        if offset >= size as u64 || b.len() - at < 10 || b[at] == 0 {
            return true;
        }
        let high = b[at + 8];
        let low = b[at + 9];
        let accepted = if third {
            high & 0x1f == 0 && low & 0x7f == 0
        } else {
            high & 0x8f == 0 && low & 0xf4 == 0
        };
        if !accepted {
            return true;
        }
        let length_first = if third {
            low & 0x80 != 0
        } else {
            low & 0x01 != 0
        };
        let packed = if third {
            low & 0x80 != 0
        } else {
            low & 0x08 != 0
        };
        let scheme = if third {
            tag_unsynchronised
        } else {
            low & 0x02 != 0
        };
        let raw = read_be32(b, at + 4) as u32;
        let frame: u32 = if third {
            raw
        } else {
            unpack_u32(raw)
        };
        assert(frame == frame_size(b@, at as int));
        if length_first && b.len() - at < 14 {
            return true;
        }
        if length_first && frame < 4 {
            return false;
        }
        let body_end = if frame as u64 <= (b.len() - at - 10) as u64 {
            at + 10 + frame as usize
        } else {
            b.len()
        };
        assert(body_end == long_body_end(b@, at as int));
        let body_start = if length_first {
            at + 14
        } else {
            at + 10
        };
        let lyrics = b[at] == 0x53 && b[at + 1] == 0x59 && b[at + 2] == 0x4c && b[at + 3] == 0x54;
        let text = !third && ((b[at] == 0x54 && !(b[at + 1] == 0x58 && b[at + 2] == 0x58 && b[at
            + 3] == 0x58)) || (b[at] == 0x47 && b[at + 1] == 0x52 && b[at + 2] == 0x50 && b[at
            + 3] == 0x31));
        if packed {
            if lyrics || text || body_end - body_start > 32768 {
                return false;
            }
        } else if lyrics || text {
            let raw_body = slice_subrange(b, body_start, body_end);
            let ok = if scheme {
                let body = undo_scheme(raw_body);
                check_long_body(b, at, lyrics, text, body.as_slice())
            } else {
                check_long_body(b, at, lyrics, text, raw_body)
            };
            if !ok {
                return false;
            }
        }
        offset = offset + 10 + frame as u64;
        at = body_end;
    }
}

/// Tells whether the decoder can read the stream: whether it holds no frame that the
/// decoder cannot take.
pub fn check_frames(b: &[u8]) -> (ok: bool)
    ensures
        ok == frames_complete(b@),
{
    if b.len() < 10 || b[0] != 0x49 || b[1] != 0x44 || b[2] != 0x33 {
        return true;
    }
    let version = b[3];
    let flags = b[5];
    if !(version == 2 || version == 3 || version == 4) || flags & 0x0f != 0 || (version == 2
        && flags & 0x40 != 0) {
        return true;
    }
    let size = unpack_u32(read_be32(b, 6) as u32);
    if version == 2 {
        let end = if size as u64 <= (b.len() - 10) as u64 {
            10 + size as usize
        } else {
            b.len()
        };
        let frames = slice_subrange(b, 10, end);
        if flags & 0x80 != 0 {
            check_short_frames(undo_scheme(frames).as_slice())
        } else {
            check_short_frames(frames)
        }
    } else {
        let start = if flags & 0x40 != 0 {
            if b.len() < 14 {
                return true;
            }
            let extended = unpack_u32(read_be32(b, 10) as u32);
            if extended < 6 {
                return true;
            }
            if extended as u64 <= (b.len() - 10) as u64 {
                10 + extended as usize
            } else {
                b.len()
            }
        } else {
            10
        };
        check_long_frames(b, start, size)
    }
}

/// What `id3::Tag::read_from` and the accessors of the tag it decodes yield for a
/// stream, `None` where the decoder reports an error.
pub uninterp spec fn id3_tags(bytes: Seq<u8>) -> Option<Id3TagsView>;

/// Decodes a tag with `id3::Tag::read_from` and copies out the artist, the album, the
/// album artist, the year, the title and the track number, each through the accessor of
/// that name.
///
/// Trusted: the outcome is a function of the bytes alone, and a tag comes out only
/// where the stream opens with an ID3v2 header. The decoder subtracts four from the
/// length of a frame that announces its length, indexes into the body of a frame of
/// synchronised lyrics, and steps over the end mark of a text in two-byte characters,
/// each without looking at what is there; `requires` keeps those streams away. It
/// inflates a compressed body through a buffer of 32768 bytes, which it fills from the
/// body at once; `requires` keeps away the longer bodies, behind which the decoder may
/// go on in the wrong place, and the compressed lyrics and texts, which could not be
/// looked into.
#[verifier::external_body]
pub(crate) fn read_tags(bytes: &[u8]) -> (tags: Option<Id3Tags>)
    requires
        frames_complete(bytes@),
    ensures
        read_view(tags) == id3_tags(bytes@),
        tags is Some ==> id3_header(bytes@),
{
    match id3::Tag::read_from(std::io::Cursor::new(bytes)) {
        Ok(tag) => Some(Id3Tags {
            artist: tag.artist().map(|value| value.to_owned()),
            album: tag.album().map(|value| value.to_owned()),
            album_artist: tag.album_artist().map(|value| value.to_owned()),
            year: tag.year(),
            title: tag.title().map(|value| value.to_owned()),
            track: tag.track(),
        }),
        Err(_) => None,
    }
}

} // verus!
