use m64_editor::layout::AUTHOR_OFFSET;
use m64_editor::layout::AUTHOR_WIDTH;
use m64_editor::layout::HEADER_SIZE;
use m64_editor::layout::MAGIC;
use m64_editor::layout::MOVIE_DESC_OFFSET;
use m64_editor::layout::MOVIE_DESC_WIDTH;
use m64_editor::Input;
use m64_editor::M64Error;
use m64_editor::M64File;

fn sample_header() -> M64File {
    let mut movie = M64File::new();
    movie.version = 3;
    movie.uid = -2;
    movie.vi_count = 0x0102_0304;
    movie.rerecord_count = 0x0A0B_0C0D;
    movie.vi_per_second = 60;
    movie.controller_count = 2;
    movie.num_samples = 0x0000_1234;
    movie.movie_start_type = 0x0201;
    movie.controller_flags = 0x0000_0005;
    movie.internal_name = b"SUPER MARIO 64".to_vec();
    movie.crc32 = 0xDEAD_BEEF;
    movie.country_code = 0x0045;
    movie.video_plugin = b"video".to_vec();
    movie.sound_plugin = b"sound".to_vec();
    movie.input_plugin = b"input".to_vec();
    movie.rsp_plugin = b"rsp".to_vec();
    movie.author = b"somebody".to_vec();
    movie.movie_desc = b"a run".to_vec();
    movie
}

fn padded(text: &[u8], width: usize) -> Vec<u8> {
    let mut field = text.to_vec();
    field.resize(width, 0);
    field
}

#[test]
fn header_is_1024_bytes() {
    assert_eq!(HEADER_SIZE, 0x400);
    assert_eq!(sample_header().encode_header().unwrap().len(), 0x400);
    assert_eq!(M64File::new().encode_header().unwrap().len(), 1024);
}

#[test]
fn every_field_stands_at_its_offset() {
    let bytes = sample_header().encode_header().unwrap();
    assert_eq!(bytes[0x00..0x04], [0x4D, 0x36, 0x34, 0x1A]);
    assert_eq!(bytes[0x04..0x08], [0x03, 0x00, 0x00, 0x00]);
    assert_eq!(bytes[0x08..0x0C], [0xFE, 0xFF, 0xFF, 0xFF]);
    assert_eq!(bytes[0x0C..0x10], [0x04, 0x03, 0x02, 0x01]);
    assert_eq!(bytes[0x10..0x14], [0x0D, 0x0C, 0x0B, 0x0A]);
    assert_eq!(bytes[0x14], 60);
    assert_eq!(bytes[0x15], 2);
    assert_eq!(bytes[0x18..0x1C], [0x34, 0x12, 0x00, 0x00]);
    assert_eq!(bytes[0x1C..0x1E], [0x01, 0x02]);
    assert_eq!(bytes[0x20..0x24], [0x05, 0x00, 0x00, 0x00]);
    assert_eq!(bytes[0xC4..0xE4], padded(b"SUPER MARIO 64", 32)[..]);
    assert_eq!(bytes[0xE4..0xE8], [0xEF, 0xBE, 0xAD, 0xDE]);
    assert_eq!(bytes[0xE8..0xEA], [0x45, 0x00]);
    assert_eq!(bytes[0x122..0x162], padded(b"video", 64)[..]);
    assert_eq!(bytes[0x162..0x1A2], padded(b"sound", 64)[..]);
    assert_eq!(bytes[0x1A2..0x1E2], padded(b"input", 64)[..]);
    assert_eq!(bytes[0x1E2..0x222], padded(b"rsp", 64)[..]);
    assert_eq!(bytes[0x222..0x300], padded(b"somebody", 222)[..]);
    assert_eq!(bytes[0x300..0x400], padded(b"a run", 256)[..]);
}

#[test]
fn reserved_bytes_are_zero() {
    let mut movie = sample_header();
    movie.version = u32::MAX;
    movie.uid = -1;
    movie.vi_count = u32::MAX;
    movie.rerecord_count = u32::MAX;
    movie.vi_per_second = 0xFF;
    movie.controller_count = 0xFF;
    movie.num_samples = u32::MAX;
    movie.movie_start_type = u16::MAX;
    movie.controller_flags = u32::MAX;
    movie.crc32 = u32::MAX;
    movie.country_code = u16::MAX;
    movie.signature = [0xFF; 4];
    movie.internal_name = vec![0xFF; 32];
    movie.video_plugin = vec![0xFF; 64];
    movie.sound_plugin = vec![0xFF; 64];
    movie.input_plugin = vec![0xFF; 64];
    movie.rsp_plugin = vec![0xFF; 64];
    movie.author = vec![0xFF; 222];
    movie.movie_desc = vec![0xFF; 256];
    let bytes = movie.encode_header().unwrap();
    let reserved = [0x16..0x18, 0x1E..0x20, 0x24..0xC4, 0xEA..0x122];
    for (i, byte) in bytes.iter().enumerate() {
        let expected = if reserved.iter().any(|gap| gap.contains(&i)) { 0x00 } else { 0xFF };
        assert_eq!(*byte, expected, "offset {:#x}", i);
    }
}

#[test]
fn fields_are_read_at_their_offsets() {
    let mut buf: Vec<u8> = (0..0x400).map(|i| (i % 251) as u8).collect();
    buf[0x08..0x0C].copy_from_slice(&[0xFF, 0xFF, 0xFF, 0x7F]);
    let movie = M64File::decode_header(&buf, false).unwrap();
    let at = |i: usize| (i % 251) as u8;
    assert_eq!(movie.signature, [at(0), at(1), at(2), at(3)]);
    assert_eq!(movie.version, u32::from_le_bytes([at(4), at(5), at(6), at(7)]));
    assert_eq!(movie.uid, i32::MAX);
    assert_eq!(movie.vi_count, u32::from_le_bytes([at(12), at(13), at(14), at(15)]));
    assert_eq!(movie.rerecord_count, u32::from_le_bytes([at(16), at(17), at(18), at(19)]));
    assert_eq!(movie.vi_per_second, at(0x14));
    assert_eq!(movie.controller_count, at(0x15));
    assert_eq!(movie.num_samples, u32::from_le_bytes([at(24), at(25), at(26), at(27)]));
    assert_eq!(movie.movie_start_type, u16::from_le_bytes([at(0x1C), at(0x1D)]));
    assert_eq!(movie.controller_flags, u32::from_le_bytes([at(32), at(33), at(34), at(35)]));
    assert_eq!(movie.internal_name, buf[0xC4..0xE4].to_vec());
    assert_eq!(movie.crc32, u32::from_le_bytes([at(0xE4), at(0xE5), at(0xE6), at(0xE7)]));
    assert_eq!(movie.country_code, u16::from_le_bytes([at(0xE8), at(0xE9)]));
    assert_eq!(movie.video_plugin, buf[0x122..0x162].to_vec());
    assert_eq!(movie.sound_plugin, buf[0x162..0x1A2].to_vec());
    assert_eq!(movie.input_plugin, buf[0x1A2..0x1E2].to_vec());
    assert_eq!(movie.rsp_plugin, buf[0x1E2..0x222].to_vec());
    assert_eq!(movie.author, buf[0x222..0x300].to_vec());
    assert_eq!(movie.movie_desc, buf[0x300..0x400].to_vec());
    assert!(movie.inputs.iter().all(|lane| lane.is_empty()));
}

#[test]
fn negative_uid_is_read_back() {
    let mut buf = vec![0u8; 0x400];
    buf[0x08..0x0C].copy_from_slice(&[0xFE, 0xFF, 0xFF, 0xFF]);
    assert_eq!(M64File::decode_header(&buf, false).unwrap().uid, -2);
    buf[0x08..0x0C].copy_from_slice(&[0x00, 0x00, 0x00, 0x80]);
    assert_eq!(M64File::decode_header(&buf, true).unwrap().uid, i32::MIN);
}

#[test]
fn reserved_bytes_are_not_read() {
    let plain = sample_header().encode_header().unwrap();
    let mut noisy = plain.clone();
    for gap in [0x16..0x18, 0x1E..0x20, 0x24..0xC4, 0xEA..0x122] {
        for i in gap {
            noisy[i] = 0xA5;
        }
    }
    assert_eq!(M64File::decode_header(&noisy, true), M64File::decode_header(&plain, true));
}

#[test]
fn a_short_header_is_refused() {
    assert_eq!(M64File::decode_header(&[], false), Err(M64Error::BufferTooSmall));
    assert_eq!(M64File::decode_header(&vec![0u8; 0x3FF], false), Err(M64Error::BufferTooSmall));
    assert_eq!(M64File::decode_header(&vec![0xFFu8; 0x3FF], true), Err(M64Error::BufferTooSmall));
    assert!(M64File::decode_header(&vec![0u8; 0x400], false).is_ok());
    assert!(M64File::decode_header(&vec![0u8; 0x401], true).is_ok());
}

#[test]
fn text_that_is_not_ascii_is_refused_only_on_demand() {
    let mut buf = sample_header().encode_header().unwrap();
    assert!(M64File::decode_header(&buf, true).is_ok());
    buf[AUTHOR_OFFSET + 5] = 0x80;
    assert_eq!(M64File::decode_header(&buf, true), Err(M64Error::InvalidTextEncoding));
    assert_eq!(M64File::decode_header(&buf, false).unwrap().author[5], 0x80);
    buf[AUTHOR_OFFSET + 5] = 0x7F;
    assert!(M64File::decode_header(&buf, true).is_ok());
    for offset in [0xC4, 0xE3, 0x122, 0x162, 0x1A2, 0x1E2, 0x221, 0x222, 0x2FF, 0x300, 0x3FF] {
        let mut buf = sample_header().encode_header().unwrap();
        buf[offset] = 0xE9;
        assert_eq!(M64File::decode_header(&buf, true), Err(M64Error::InvalidTextEncoding));
        assert!(M64File::decode_header(&buf, false).is_ok());
    }
}

#[test]
fn bytes_outside_text_fields_need_not_be_ascii() {
    let mut buf = sample_header().encode_header().unwrap();
    for offset in [0x00, 0x07, 0x14, 0x20, 0x30, 0xC3, 0xE4, 0xE9, 0x121] {
        buf[offset] = 0xFF;
    }
    assert!(M64File::decode_header(&buf, true).is_ok());
}

#[test]
fn an_author_of_223_bytes_is_refused() {
    let mut movie = sample_header();
    movie.author = vec![b'a'; AUTHOR_WIDTH + 1];
    assert_eq!(movie.encode_header(), Err(M64Error::FieldTooLong));
    movie.inputs[0].push(Input::new());
    movie.inputs[2].push(Input::new());
    assert_eq!(movie.to_bytes(), Err(M64Error::FieldTooLong));
    movie.author = vec![b'a'; AUTHOR_WIDTH];
    let bytes = movie.encode_header().unwrap();
    assert_eq!(bytes[AUTHOR_OFFSET..AUTHOR_OFFSET + AUTHOR_WIDTH], vec![b'a'; 222][..]);
    assert_eq!(bytes[MOVIE_DESC_OFFSET..MOVIE_DESC_OFFSET + 5], b"a run"[..]);
}

#[test]
fn every_text_field_has_its_own_width() {
    let widths = [32usize, 64, 64, 64, 64, 222, 256];
    for (field, width) in widths.iter().enumerate() {
        for (len, fits) in [(*width, true), (*width + 1, false), (0, true)] {
            let mut movie = sample_header();
            let text = vec![b'x'; len];
            match field {
                0 => movie.internal_name = text,
                1 => movie.video_plugin = text,
                2 => movie.sound_plugin = text,
                3 => movie.input_plugin = text,
                4 => movie.rsp_plugin = text,
                5 => movie.author = text,
                _ => movie.movie_desc = text,
            }
            assert_eq!(movie.has_fitting_texts(), fits);
            match movie.encode_header() {
                Ok(bytes) => assert!(fits && bytes.len() == 0x400),
                Err(e) => assert!(!fits && e == M64Error::FieldTooLong),
            }
        }
    }
    assert_eq!(MOVIE_DESC_WIDTH, 256);
}

#[test]
fn header_fields_come_back_padded() {
    let movie = sample_header();
    let back = M64File::decode_header(&movie.encode_header().unwrap(), true).unwrap();
    assert_eq!(back.signature, MAGIC);
    assert_eq!(back.version, 3);
    assert_eq!(back.uid, -2);
    assert_eq!(back.vi_count, 0x0102_0304);
    assert_eq!(back.rerecord_count, 0x0A0B_0C0D);
    assert_eq!(back.vi_per_second, 60);
    assert_eq!(back.controller_count, 2);
    assert_eq!(back.num_samples, 0x1234);
    assert_eq!(back.movie_start_type, 0x0201);
    assert_eq!(back.controller_flags, 5);
    assert_eq!(back.internal_name, padded(b"SUPER MARIO 64", 32));
    assert_eq!(back.crc32, 0xDEAD_BEEF);
    assert_eq!(back.country_code, 0x45);
    assert_eq!(back.video_plugin, padded(b"video", 64));
    assert_eq!(back.sound_plugin, padded(b"sound", 64));
    assert_eq!(back.input_plugin, padded(b"input", 64));
    assert_eq!(back.rsp_plugin, padded(b"rsp", 64));
    assert_eq!(back.author, padded(b"somebody", 222));
    assert_eq!(back.movie_desc, padded(b"a run", 256));
    assert_eq!(back.encode_header(), movie.encode_header());
}

#[test]
fn ascii_and_magic_are_told() {
    let mut movie = sample_header();
    assert!(movie.has_magic());
    assert!(movie.has_ascii_texts());
    movie.signature[3] = 0x1B;
    assert!(!movie.has_magic());
    movie.rsp_plugin.push(0xC3);
    assert!(!movie.has_ascii_texts());
}
