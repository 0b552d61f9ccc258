use zik::flac_tags::check_blocks;
use zik::metadata::Metadata;
use zik::mp3_tags::{check_frames, Id3Tags};
use zik::mp4_tags::Mp4Tags;

fn flac_bytes(comments: &[(&str, &[&str])]) -> Vec<u8> {
    let mut tag = metaflac::Tag::new();
    for (key, values) in comments {
        tag.set_vorbis(*key, values.to_vec());
    }
    let mut bytes = Vec::new();
    tag.write_to(&mut bytes).unwrap();
    bytes
}

fn mp4_box(name: &[u8; 4], body: &[u8]) -> Vec<u8> {
    let mut bytes = Vec::new();
    bytes.extend_from_slice(&((body.len() + 8) as u32).to_be_bytes());
    bytes.extend_from_slice(name);
    bytes.extend_from_slice(body);
    bytes
}

fn mp4_item(name: &[u8; 4], payload: &[u8]) -> Vec<u8> {
    let mut data = vec![0, 0, 0, 1, 0, 0, 0, 0];
    data.extend_from_slice(payload);
    mp4_box(name, &mp4_box(b"data", &data))
}

fn mp4_bytes(items: &[Vec<u8>]) -> Vec<u8> {
    let ilst = mp4_box(b"ilst", &items.concat());
    let mut meta_body = vec![0, 0, 0, 0];
    meta_body.extend_from_slice(&ilst);
    let meta = mp4_box(b"meta", &meta_body);
    let udta = mp4_box(b"udta", &meta);
    let moov = mp4_box(b"moov", &udta);
    let mut bytes = mp4_box(b"ftyp", b"M4A \0\0\0\0");
    bytes.extend_from_slice(&moov);
    bytes
}

#[test]
fn flac_single_file() {
    let bytes = flac_bytes(&[
        ("ARTIST", &["Boards of Canada"]),
        ("ALBUM", &["Geogaddi"]),
        ("DATE", &["2002"]),
        ("TITLE", &["Music is Math"]),
        ("TRACK_NUMBER", &["5"]),
    ]);
    let md = Metadata::read_from_bytes(&bytes).unwrap();
    assert_eq!(md.artist.as_deref(), Some("Boards of Canada"));
    assert_eq!(md.album.as_deref(), Some("Geogaddi"));
    assert_eq!(md.album_artist, None);
    assert_eq!(md.year.as_deref(), Some("2002"));
    assert_eq!(md.track_name.as_deref(), Some("Music is Math"));
    assert_eq!(md.track_number, 5);
}

#[test]
fn flac_takes_the_first_of_several_values() {
    let bytes = flac_bytes(&[("ARTIST", &["First", "Second"]), ("ALBUMARTIST", &["Various"])]);
    let md = Metadata::read_from_bytes(&bytes).unwrap();
    assert_eq!(md.artist.as_deref(), Some("First"));
    assert_eq!(md.album_artist.as_deref(), Some("Various"));
}

#[test]
fn flac_track_number_that_is_no_number_is_zero() {
    for text in ["five", "5/12", "", "-1", " 5"] {
        let bytes = flac_bytes(&[("TITLE", &["t"]), ("TRACK_NUMBER", &[text])]);
        let md = Metadata::read_from_bytes(&bytes).unwrap();
        assert_eq!(md.track_number, 0, "{:?}", text);
    }
    let bytes = flac_bytes(&[("TITLE", &["t"]), ("TRACK_NUMBER", &["012"])]);
    assert_eq!(Metadata::read_from_bytes(&bytes).unwrap().track_number, 12);
}

#[test]
fn flac_without_comments_gives_an_empty_record() {
    let mut tag = metaflac::Tag::new();
    tag.push_block(metaflac::Block::Padding(4));
    let mut bytes = Vec::new();
    tag.write_to(&mut bytes).unwrap();
    let md = Metadata::read_from_bytes(&bytes).unwrap();
    assert_eq!(md.artist, None);
    assert_eq!(md.album, None);
    assert_eq!(md.album_artist, None);
    assert_eq!(md.year, None);
    assert_eq!(md.track_name, None);
    assert_eq!(md.track_number, 0);
}

#[test]
fn flac_behind_an_id3_tag_is_read_as_flac() {
    let mut id3_tag = id3::Tag::new();
    id3_tag.set_artist("From ID3");
    let mut bytes = Vec::new();
    id3_tag.write_to(&mut bytes, id3::Version::Id3v24).unwrap();
    bytes.extend_from_slice(&flac_bytes(&[("ARTIST", &["From FLAC"])]));
    let md = Metadata::read_from_bytes(&bytes).unwrap();
    assert_eq!(md.artist.as_deref(), Some("From FLAC"));
}

#[test]
fn flac_with_picture_and_stream_info_is_read() {
    let mut tag = metaflac::Tag::new();
    let mut info = metaflac::block::StreamInfo::new();
    info.sample_rate = 44100;
    info.num_channels = 2;
    info.bits_per_sample = 16;
    info.md5 = vec![0; 16];
    tag.set_streaminfo(info);
    tag.set_vorbis("TITLE", vec!["With cover"]);
    tag.add_picture("image/png", metaflac::block::PictureType::CoverFront, vec![1, 2, 3, 4]);
    let mut bytes = Vec::new();
    tag.write_to(&mut bytes).unwrap();
    assert!(check_blocks(&bytes));
    let md = Metadata::read_from_bytes(&bytes).unwrap();
    assert_eq!(md.track_name.as_deref(), Some("With cover"));
}

#[test]
fn flac_cut_short_is_not_flac() {
    let bytes = flac_bytes(&[("ARTIST", &["Boards of Canada"]), ("TITLE", &["Music is Math"])]);
    for keep in 0..bytes.len() {
        let cut = &bytes[..keep];
        assert!(Metadata::read_from_bytes(cut).is_none(), "{}", keep);
    }
}

#[test]
fn flac_stream_info_cut_short_is_refused() {
    // marker, then a last stream-info block that declares 34 bytes and holds three
    let bytes = [b'f', b'L', b'a', b'C', 0x80, 0, 0, 34, 1, 2, 3];
    assert!(!check_blocks(&bytes));
    assert!(Metadata::read_from_bytes(&bytes).is_none());
}

#[test]
fn flac_comment_without_equals_sign_is_refused() {
    let mut body = Vec::new();
    body.extend_from_slice(&0u32.to_le_bytes());
    body.extend_from_slice(&1u32.to_le_bytes());
    body.extend_from_slice(&6u32.to_le_bytes());
    body.extend_from_slice(b"ARTIST");
    let mut bytes = b"fLaC".to_vec();
    bytes.push(0x84);
    bytes.extend_from_slice(&(body.len() as u32).to_be_bytes()[1..]);
    bytes.extend_from_slice(&body);
    assert!(!check_blocks(&bytes));
    assert!(Metadata::read_from_bytes(&bytes).is_none());
}

#[test]
fn streams_without_marker_pass_the_block_check() {
    assert!(check_blocks(b""));
    assert!(check_blocks(b"hello world"));
    assert!(check_blocks(b"ID3"));
}

#[test]
fn mp3_with_partial_tags() {
    let mut tag = id3::Tag::new();
    tag.set_artist("Aphex Twin");
    tag.set_title("Xtal");
    let mut bytes = Vec::new();
    tag.write_to(&mut bytes, id3::Version::Id3v24).unwrap();
    bytes.extend_from_slice(&[0xff, 0xfb, 0x90, 0x00]);
    let md = Metadata::read_from_bytes(&bytes).unwrap();
    assert_eq!(md.artist.as_deref(), Some("Aphex Twin"));
    assert_eq!(md.album, None);
    assert_eq!(md.album_artist, None);
    assert_eq!(md.year, None);
    assert_eq!(md.track_name.as_deref(), Some("Xtal"));
    assert_eq!(md.track_number, 0);
}

#[test]
fn mp3_with_all_tags() {
    let mut tag = id3::Tag::new();
    tag.set_artist("Aphex Twin");
    tag.set_album("Selected Ambient Works 85-92");
    tag.set_album_artist("Aphex Twin");
    tag.set_year(1992);
    tag.set_title("Tha");
    tag.set_track(2);
    tag.set_total_tracks(13);
    let mut bytes = Vec::new();
    tag.write_to(&mut bytes, id3::Version::Id3v23).unwrap();
    let md = Metadata::read_from_bytes(&bytes).unwrap();
    assert_eq!(md.artist.as_deref(), Some("Aphex Twin"));
    assert_eq!(md.album.as_deref(), Some("Selected Ambient Works 85-92"));
    assert_eq!(md.album_artist.as_deref(), Some("Aphex Twin"));
    assert_eq!(md.year.as_deref(), Some("1992"));
    assert_eq!(md.track_name.as_deref(), Some("Tha"));
    assert_eq!(md.track_number, 2);
}

#[test]
fn id3_record_from_fields() {
    let tags = Id3Tags {
        artist: Some("a".to_owned()),
        album: None,
        album_artist: Some("b".to_owned()),
        year: Some(-44),
        title: Some("t".to_owned()),
        track: Some(7),
    };
    let md = Metadata::from_id3(&tags);
    assert_eq!(md.artist.as_deref(), Some("a"));
    assert_eq!(md.album, None);
    assert_eq!(md.album_artist.as_deref(), Some("b"));
    assert_eq!(md.year.as_deref(), Some("-44"));
    assert_eq!(md.track_name.as_deref(), Some("t"));
    assert_eq!(md.track_number, 7);
}

#[test]
fn years_are_written_in_decimal() {
    for year in [0, 1, 1992, 2014, i32::MAX, -1, -2002, i32::MIN] {
        assert_eq!(zik::metadata::format_year(year), year.to_string());
    }
}

#[test]
fn mp4_file() {
    let bytes = mp4_bytes(&[
        mp4_item(b"\xa9ART", b"Caribou"),
        mp4_item(b"\xa9alb", b"Our Love"),
        mp4_item(b"aART", b"Caribou"),
        mp4_item(b"\xa9nam", b"Silver"),
        mp4_item(b"trkn", &[0, 0, 0, 3, 0, 10, 0, 0]),
        mp4_item(b"\xa9day", b"2014"),
    ]);
    let md = Metadata::read_from_bytes(&bytes).unwrap();
    assert_eq!(md.artist.as_deref(), Some("Caribou"));
    assert_eq!(md.album.as_deref(), Some("Our Love"));
    assert_eq!(md.album_artist.as_deref(), Some("Caribou"));
    assert_eq!(md.year.as_deref(), Some("2014"));
    assert_eq!(md.track_name.as_deref(), Some("Silver"));
    assert_eq!(md.track_number, 3);
}

#[test]
fn mp4_text_that_is_not_utf8_is_absent() {
    let bytes = mp4_bytes(&[mp4_item(b"\xa9ART", &[0xff, 0xfe, 0x41]), mp4_item(b"\xa9nam", b"ok")]);
    let md = Metadata::read_from_bytes(&bytes).unwrap();
    assert_eq!(md.artist, None);
    assert_eq!(md.track_name.as_deref(), Some("ok"));
    assert_eq!(md.track_number, 0);
}

#[test]
fn mp4_record_from_fields() {
    let tags = Mp4Tags {
        artist: Some("Björk".as_bytes().to_vec()),
        album: Some(vec![0xc3]),
        album_artist: None,
        year: Some(b"1997-09-22".to_vec()),
        title: Some(Vec::new()),
        track_number: Some(255),
    };
    let md = Metadata::from_mp4(tags);
    assert_eq!(md.artist.as_deref(), Some("Björk"));
    assert_eq!(md.album, None);
    assert_eq!(md.album_artist, None);
    assert_eq!(md.year.as_deref(), Some("1997-09-22"));
    assert_eq!(md.track_name.as_deref(), Some(""));
    assert_eq!(md.track_number, 255);
}

#[test]
fn mp4_without_metadata_is_unsupported() {
    let mut bytes = mp4_box(b"ftyp", b"M4A \0\0\0\0");
    bytes.extend_from_slice(&mp4_box(b"moov", &[]));
    assert!(Metadata::read_from_bytes(&bytes).is_none());
}

#[test]
fn get_mp4_string_decodes_utf8() {
    assert_eq!(Metadata::get_mp4_string(None), None);
    assert_eq!(Metadata::get_mp4_string(Some(b"abc".to_vec())).as_deref(), Some("abc"));
    assert_eq!(Metadata::get_mp4_string(Some(vec![0x80])), None);
}

#[test]
fn get_vorbis_comment_takes_the_first_value() {
    let mut tag = metaflac::Tag::new();
    tag.set_vorbis("ARTIST", vec!["one", "two"]);
    assert_eq!(Metadata::get_vorbis_comment(&tag, "ARTIST").as_deref(), Some("one"));
    assert_eq!(Metadata::get_vorbis_comment(&tag, "artist").as_deref(), Some("one"));
    assert_eq!(Metadata::get_vorbis_comment(&tag, "ALBUM"), None);
    tag.set_vorbis("ALBUM", Vec::<String>::new());
    assert_eq!(Metadata::get_vorbis_comment(&tag, "ALBUM"), None);
}

#[test]
fn plain_text_is_unsupported() {
    assert!(Metadata::read_from_bytes(b"Just some notes about my records.\n").is_none());
    assert!(Metadata::read_from_bytes(b"fLaC is a codec, ID3 is a tag.\n").is_none());
    assert!(Metadata::read_from_bytes(b"ID3 tags are found in MP3 files.\n").is_none());
}

#[test]
fn empty_file_is_unsupported() {
    assert!(Metadata::read_from_bytes(b"").is_none());
    assert!(Metadata::read_from_bytes(b"fLa").is_none());
}

fn id3_bytes(version: u8, flags: u8, frames: &[u8]) -> Vec<u8> {
    let size = frames.len() as u32;
    let mut bytes = vec![b'I', b'D', b'3', version, 0, flags];
    bytes.extend_from_slice(&[
        ((size >> 21) & 0x7f) as u8,
        ((size >> 14) & 0x7f) as u8,
        ((size >> 7) & 0x7f) as u8,
        (size & 0x7f) as u8,
    ]);
    bytes.extend_from_slice(frames);
    bytes
}

fn id3_frame(id: &[u8; 4], flags: [u8; 2], body: &[u8]) -> Vec<u8> {
    let mut bytes = id.to_vec();
    bytes.extend_from_slice(&(body.len() as u32).to_be_bytes());
    bytes.extend_from_slice(&flags);
    bytes.extend_from_slice(body);
    bytes
}

fn text_frame(id: &[u8; 4], text: &str) -> Vec<u8> {
    let mut body = vec![3];
    body.extend_from_slice(text.as_bytes());
    id3_frame(id, [0, 0], &body)
}

#[test]
fn id3_by_hand_is_read() {
    let mut frames = text_frame(b"TPE1", "Aphex Twin");
    frames.extend_from_slice(&text_frame(b"TIT2", "Xtal"));
    frames.extend_from_slice(&text_frame(b"TRCK", "1/13"));
    frames.extend_from_slice(&text_frame(b"TYER", "1992"));
    let bytes = id3_bytes(3, 0, &frames);
    assert!(check_frames(&bytes));
    let md = Metadata::read_from_bytes(&bytes).unwrap();
    assert_eq!(md.artist.as_deref(), Some("Aphex Twin"));
    assert_eq!(md.track_name.as_deref(), Some("Xtal"));
    assert_eq!(md.year.as_deref(), Some("1992"));
    assert_eq!(md.track_number, 1);
}

#[test]
fn id3_with_synchronised_lyrics_is_read() {
    let mut lyrics = vec![0, b'e', b'n', b'g', 1, 1];
    lyrics.extend_from_slice(b"first line\0");
    lyrics.extend_from_slice(&1000u32.to_be_bytes());
    lyrics.extend_from_slice(b"second line\0");
    lyrics.extend_from_slice(&2000u32.to_be_bytes());
    let mut frames = id3_frame(b"SYLT", [0, 0], &lyrics);
    frames.extend_from_slice(&text_frame(b"TIT2", "Sung"));
    for version in [3, 4] {
        let bytes = id3_bytes(version, 0, &frames);
        assert!(check_frames(&bytes));
        let md = Metadata::read_from_bytes(&bytes).unwrap();
        assert_eq!(md.track_name.as_deref(), Some("Sung"));
    }
}

#[test]
fn id3_with_lyrics_cut_short_is_refused() {
    let bodies: [&[u8]; 4] = [
        &[],
        &[0, b'e', b'n', b'g', 1],
        &[0, b'e', b'n', b'g', 1, 1, b'a', 0, 0, 0],
        &[1, b'e', b'n', b'g', 1, 1, b'a', 0, 0, 0, 0, 0],
    ];
    for body in bodies {
        for version in [3, 4] {
            let mut frames = text_frame(b"TIT2", "Sung");
            frames.extend_from_slice(&id3_frame(b"SYLT", [0, 0], body));
            let bytes = id3_bytes(version, 0, &frames);
            assert!(!check_frames(&bytes), "{:?}", body);
            assert!(Metadata::read_from_bytes(&bytes).is_none());
        }
    }
}

#[test]
fn id3_version_two_with_lyrics_cut_short_is_refused() {
    let mut frames = b"TT2".to_vec();
    frames.extend_from_slice(&[0, 0, 5, 0]);
    frames.extend_from_slice(b"Sung");
    let valid = id3_bytes(2, 0, &frames);
    assert!(check_frames(&valid));
    assert_eq!(Metadata::read_from_bytes(&valid).unwrap().track_name.as_deref(), Some("Sung"));
    frames.extend_from_slice(b"SLT");
    frames.extend_from_slice(&[0, 0, 0]);
    let cut = id3_bytes(2, 0, &frames);
    assert!(!check_frames(&cut));
    assert!(Metadata::read_from_bytes(&cut).is_none());
    let scrambled = id3_bytes(2, 0x80, &frames);
    assert!(!check_frames(&scrambled));
    assert!(Metadata::read_from_bytes(&scrambled).is_none());
}

#[test]
fn id3_frame_too_short_for_its_length_field_is_refused() {
    let mut frame = b"TIT2".to_vec();
    frame.extend_from_slice(&[0, 0, 0, 3, 0, 0x80, 0, 0, 0, 0]);
    let third = id3_bytes(3, 0, &frame);
    assert!(!check_frames(&third));
    assert!(Metadata::read_from_bytes(&third).is_none());
    let mut frame = b"TIT2".to_vec();
    frame.extend_from_slice(&[0, 0, 0, 3, 0, 0x01, 0, 0, 0, 0]);
    let fourth = id3_bytes(4, 0, &frame);
    assert!(!check_frames(&fourth));
    assert!(Metadata::read_from_bytes(&fourth).is_none());
}

#[test]
fn streams_without_id3_header_pass_the_frame_check() {
    assert!(check_frames(b""));
    assert!(check_frames(b"ID3"));
    assert!(check_frames(b"plain text, nothing more"));
    assert!(check_frames(&[b'I', b'D', b'3', 9, 0, 0, 0, 0, 0, 20, b'S', b'Y', b'L', b'T', 0, 0, 0, 0, 0, 0]));
}

#[test]
fn id3_text_in_two_byte_characters_must_come_out_even() {
    // encoding 1, byte order mark, then "ab" in two-byte characters
    let even: &[u8] = &[1, 0xff, 0xfe, b'a', 0, b'b', 0];
    let odd: &[u8] = &[1, 0xff, 0xfe, b'a', 0, b'b'];
    let bytes = id3_bytes(4, 0, &{
        let mut frame = b"TIT2".to_vec();
        frame.extend_from_slice(&[0, 0, 0, even.len() as u8, 0, 0]);
        frame.extend_from_slice(even);
        frame
    });
    assert!(check_frames(&bytes));
    assert_eq!(Metadata::read_from_bytes(&bytes).unwrap().track_name.as_deref(), Some("ab"));
    let bytes = id3_bytes(4, 0, &{
        let mut frame = b"TIT2".to_vec();
        frame.extend_from_slice(&[0, 0, 0, odd.len() as u8, 0, 0]);
        frame.extend_from_slice(odd);
        frame
    });
    assert!(!check_frames(&bytes));
    assert!(Metadata::read_from_bytes(&bytes).is_none());
    let bytes = id3_bytes(3, 0, &id3_frame(b"TIT2", [0, 0], odd));
    assert!(check_frames(&bytes));
    assert!(Metadata::read_from_bytes(&bytes).is_some());
}

#[test]
fn id3_under_the_unsynchronisation_scheme_is_read() {
    let mut tag = id3::Tag::new();
    tag.set_title("\u{ff}\u{0} marks");
    tag.set_artist("Aphex Twin");
    for version in [id3::Version::Id3v23, id3::Version::Id3v24] {
        let mut bytes = Vec::new();
        id3::Encoder::new().version(version).unsynchronisation(true).encode(&tag, &mut bytes).unwrap();
        assert!(check_frames(&bytes));
        let md = Metadata::read_from_bytes(&bytes).unwrap();
        assert_eq!(md.artist.as_deref(), Some("Aphex Twin"));
    }
}

fn zlib_stored(data: &[u8]) -> Vec<u8> {
    let mut out = vec![0x78, 0x01, 0x01];
    out.extend_from_slice(&(data.len() as u16).to_le_bytes());
    out.extend_from_slice(&(!(data.len() as u16)).to_le_bytes());
    out.extend_from_slice(data);
    let (mut a, mut b) = (1u32, 0u32);
    for byte in data {
        a = (a + *byte as u32) % 65521;
        b = (b + a) % 65521;
    }
    out.extend_from_slice(&((b << 16) | a).to_be_bytes());
    out
}

fn packed_frame(version: u8, id: &[u8; 4], body: &[u8], pack: bool) -> Vec<u8> {
    let mut content = Vec::new();
    let mut low = 0u8;
    if pack {
        let packed = zlib_stored(body);
        low = if version == 3 { 0x80 } else { 0x09 };
        if version == 3 {
            content.extend_from_slice(&(body.len() as u32).to_be_bytes());
        } else {
            let n = body.len() as u32;
            content.extend_from_slice(&[((n >> 21) & 0x7f) as u8, ((n >> 14) & 0x7f) as u8, ((n >> 7) & 0x7f) as u8, (n & 0x7f) as u8]);
        }
        content.extend_from_slice(&packed);
    } else {
        content.extend_from_slice(body);
    }
    let n = content.len() as u32;
    let mut out = id.to_vec();
    if version == 3 {
        out.extend_from_slice(&n.to_be_bytes());
    } else {
        out.extend_from_slice(&[((n >> 21) & 0x7f) as u8, ((n >> 14) & 0x7f) as u8, ((n >> 7) & 0x7f) as u8, (n & 0x7f) as u8]);
    }
    out.extend_from_slice(&[0, low]);
    out.extend_from_slice(&content);
    out
}

fn packed_tag(version: u8, frames: &[Vec<u8>]) -> Vec<u8> {
    let body = frames.concat();
    let n = body.len() as u32;
    let mut out = vec![b'I', b'D', b'3', version, 0, 0, ((n >> 21) & 0x7f) as u8, ((n >> 14) & 0x7f) as u8, ((n >> 7) & 0x7f) as u8, (n & 0x7f) as u8];
    out.extend_from_slice(&body);
    out.extend_from_slice(&[0; 16]);
    out
}

fn packed_picture(len: usize) -> Vec<u8> {
    let mut body = b"\0image/png\0\x03front\0".to_vec();
    body.extend((0..len).map(|i| (i * 7 + i / 251) as u8));
    body
}


#[test]
fn id3_with_compressed_frames_is_read() {
    let sample = packed_tag(3, &[
        packed_frame(3, b"TIT2", b"\0Xtal", false),
        packed_frame(3, b"APIC", &packed_picture(40), true),
        packed_frame(3, b"TALB", b"\0Packed album", true),
        packed_frame(3, b"COMM", b"\0eng\0a comment", true),
        packed_frame(3, b"TPE1", b"\0Aphex Twin", false),
    ]);
    assert!(check_frames(&sample));
    let md = Metadata::read_from_bytes(&sample).unwrap();
    assert_eq!(md.track_name.as_deref(), Some("Xtal"));
    assert_eq!(md.album.as_deref(), Some("Packed album"));
    assert_eq!(md.artist.as_deref(), Some("Aphex Twin"));
    let sample = packed_tag(4, &[
        packed_frame(4, b"TIT2", b"\x03Xtal", false),
        packed_frame(4, b"APIC", &packed_picture(30000), true),
        packed_frame(4, b"TPE1", b"\x03Aphex Twin", false),
    ]);
    assert!(check_frames(&sample));
    let md = Metadata::read_from_bytes(&sample).unwrap();
    assert_eq!(md.track_name.as_deref(), Some("Xtal"));
    assert_eq!(md.artist.as_deref(), Some("Aphex Twin"));
}

#[test]
fn id3_with_compressed_frames_that_cannot_be_followed_is_refused() {
    let lyrics = packed_tag(3, &[
        packed_frame(3, b"TIT2", b"\0Xtal", false),
        packed_frame(3, b"SYLT", b"\0eng\x01\x01one\0\0\0\0\x01", true),
    ]);
    assert!(!check_frames(&lyrics));
    assert!(Metadata::read_from_bytes(&lyrics).is_none());
    let text = packed_tag(4, &[packed_frame(4, b"TIT2", b"\x03Xtal", true)]);
    assert!(!check_frames(&text));
    assert!(Metadata::read_from_bytes(&text).is_none());
    let long = packed_tag(3, &[
        packed_frame(3, b"APIC", &packed_picture(40000), true),
        packed_frame(3, b"TIT2", b"\0Xtal", false),
    ]);
    assert!(!check_frames(&long));
    assert!(Metadata::read_from_bytes(&long).is_none());
}
