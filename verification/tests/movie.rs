use m64_editor::layout::CONTROLLER_FLAGS_OFFSET;
use m64_editor::layout::HEADER_SIZE;
use m64_editor::layout::MAGIC;
use m64_editor::Input;
use m64_editor::M64Error;
use m64_editor::M64File;

fn header_with_flags(flags: u32) -> Vec<u8> {
    let mut buf = vec![0u8; HEADER_SIZE];
    buf[..4].copy_from_slice(&MAGIC);
    buf[CONTROLLER_FLAGS_OFFSET..CONTROLLER_FLAGS_OFFSET + 4].copy_from_slice(&flags.to_le_bytes());
    buf
}

fn sample_movie() -> M64File {
    let mut movie = M64File::new();
    movie.uid = -123_456;
    movie.vi_count = 4;
    movie.rerecord_count = 17;
    movie.vi_per_second = 60;
    movie.controller_count = 2;
    movie.num_samples = 2;
    movie.movie_start_type = 2;
    movie.controller_flags = 0b0101;
    movie.crc32 = 0x635A_2BFF;
    movie.country_code = 0x45;
    movie.inputs[0] = vec![Input::from_word(0x00FF_0081), Input::from_word(0x1200_2000)];
    movie.inputs[2] = vec![Input::from_word(0x8080_0010), Input::from_word(0x7F7F_0001)];
    movie
}

#[test]
fn fresh_movie() {
    let movie = M64File::new();
    assert_eq!(movie.signature, [0x4D, 0x36, 0x34, 0x1A]);
    assert_eq!(movie.version, 3);
    assert_eq!(movie.uid, 0);
    assert_eq!(movie.vi_count, 0);
    assert_eq!(movie.rerecord_count, 0);
    assert_eq!(movie.vi_per_second, 0);
    assert_eq!(movie.controller_count, 0);
    assert_eq!(movie.num_samples, 0);
    assert_eq!(movie.movie_start_type, 0);
    assert_eq!(movie.controller_flags, 0);
    assert_eq!(movie.crc32, 0);
    assert_eq!(movie.country_code, 0);
    assert_eq!(movie.internal_name, vec![0u8; 32]);
    assert_eq!(movie.video_plugin, vec![0u8; 64]);
    assert_eq!(movie.sound_plugin, vec![0u8; 64]);
    assert_eq!(movie.input_plugin, vec![0u8; 64]);
    assert_eq!(movie.rsp_plugin, vec![0u8; 64]);
    assert_eq!(movie.author, vec![0u8; 222]);
    assert_eq!(movie.movie_desc, vec![0u8; 256]);
    assert!(movie.inputs.iter().all(|lane| lane.is_empty()));
    assert!(movie.has_magic());
}

#[test]
fn fresh_movie_names_no_controller() {
    assert_eq!(M64File::new().to_bytes(), Err(M64Error::NoActiveControllers));
}

#[test]
fn buffer_below_the_header_size_is_too_small() {
    for len in [0usize, 1, 4, 0x200, 0x3FF] {
        assert_eq!(M64File::from_bytes(&vec![0xFFu8; len]), Err(M64Error::BufferTooSmall));
        assert_eq!(M64File::from_bytes_strict(&vec![0x01u8; len]), Err(M64Error::BufferTooSmall));
    }
}

#[test]
fn bare_header_decodes_exactly_if_a_controller_is_active() {
    for flags in 0u32..32 {
        let result = M64File::from_bytes(&header_with_flags(flags));
        if flags & 0xF != 0 {
            let movie = result.unwrap();
            assert_eq!(movie.controller_flags, flags);
            assert!(movie.inputs.iter().all(|lane| lane.is_empty()));
        } else {
            assert_eq!(result, Err(M64Error::NoActiveControllers));
        }
    }
    assert_eq!(
        M64File::from_bytes(&header_with_flags(0xFFFF_FFF0)),
        Err(M64Error::NoActiveControllers)
    );
}

#[test]
fn bare_header_of_anything_decodes_with_an_active_controller() {
    let mut buf = vec![0xFFu8; HEADER_SIZE];
    assert!(M64File::from_bytes(&buf).is_ok());
    assert_eq!(M64File::from_bytes_strict(&buf), Err(M64Error::InvalidTextEncoding));
    buf[CONTROLLER_FLAGS_OFFSET] = 0xF0;
    assert_eq!(M64File::from_bytes(&buf), Err(M64Error::NoActiveControllers));
    assert_eq!(M64File::from_bytes_strict(&buf), Err(M64Error::InvalidTextEncoding));
}

#[test]
fn samples_that_are_cut_short_are_refused() {
    for extra in [1usize, 2, 3, 5, 6, 7] {
        let mut buf = header_with_flags(0b0011);
        buf.extend_from_slice(&vec![0u8; extra]);
        assert_eq!(M64File::from_bytes(&buf), Err(M64Error::TruncatedSampleData));
    }
    let mut buf = header_with_flags(0b0011);
    buf.extend_from_slice(&[0u8; 8]);
    assert!(M64File::from_bytes(&buf).is_ok());
}

#[test]
fn no_controller_comes_before_cut_samples() {
    let mut buf = header_with_flags(0);
    buf.extend_from_slice(&[0u8; 3]);
    assert_eq!(M64File::from_bytes(&buf), Err(M64Error::NoActiveControllers));
}

#[test]
fn samples_behind_the_header_go_to_the_active_controllers() {
    let mut buf = header_with_flags(0b0101);
    for word in [0x0000_0001u32, 0x0000_0002, 0x0000_0004, 0x0000_0008] {
        buf.extend_from_slice(&word.to_le_bytes());
    }
    let movie = M64File::from_bytes(&buf).unwrap();
    assert_eq!(movie.inputs[0], vec![Input::from_word(1), Input::from_word(4)]);
    assert_eq!(movie.inputs[2], vec![Input::from_word(2), Input::from_word(8)]);
    assert!(movie.inputs[1].is_empty());
    assert!(movie.inputs[3].is_empty());
    assert!(movie.inputs[0][0].r_dpad);
    assert!(movie.inputs[2][1].u_dpad);
}

#[test]
fn x_axis_ff_is_minus_one_in_a_file() {
    let mut buf = header_with_flags(0b0001);
    buf.extend_from_slice(&[0x00, 0x00, 0xFF, 0x00]);
    let movie = M64File::from_bytes(&buf).unwrap();
    assert_eq!(movie.inputs[0][0].x, -1);
    assert_eq!(movie.inputs[0][0].y, 0);
    let bytes = movie.to_bytes().unwrap();
    assert_eq!(bytes[0x400..], [0x00, 0x00, 0xFF, 0x00]);
}

#[test]
fn file_is_header_then_samples() {
    let movie = sample_movie();
    let bytes = movie.to_bytes().unwrap();
    assert_eq!(bytes.len(), 0x400 + 4 * 4);
    assert_eq!(bytes[..0x400], movie.encode_header().unwrap()[..]);
    assert_eq!(
        bytes[0x400..],
        [
            0x81, 0x00, 0xFF, 0x00, 0x10, 0x00, 0x80, 0x80, 0x00, 0x20, 0x00, 0x12, 0x01, 0x00,
            0x7F, 0x7F
        ]
    );
}

#[test]
fn movie_comes_back_from_its_bytes() {
    let movie = sample_movie();
    let bytes = movie.to_bytes().unwrap();
    assert_eq!(M64File::from_bytes(&bytes), Ok(movie.clone()));
    assert_eq!(M64File::from_bytes_strict(&bytes), Ok(movie));
}

#[test]
fn short_text_comes_back_filled_up_with_zeros() {
    let mut movie = sample_movie();
    movie.author = b"me".to_vec();
    movie.internal_name = Vec::new();
    movie.movie_desc = b"120 stars".to_vec();
    let back = M64File::from_bytes(&movie.to_bytes().unwrap()).unwrap();
    let mut author = b"me".to_vec();
    author.resize(222, 0);
    let mut desc = b"120 stars".to_vec();
    desc.resize(256, 0);
    assert_eq!(back.author, author);
    assert_eq!(back.internal_name, vec![0u8; 32]);
    assert_eq!(back.movie_desc, desc);
    let mut expected = movie.clone();
    expected.author = author;
    expected.internal_name = vec![0u8; 32];
    expected.movie_desc = desc;
    assert_eq!(back, expected);
    assert_eq!(back.to_bytes(), movie.to_bytes());
}

#[test]
fn movies_of_every_set_of_controllers_come_back() {
    for flags in 1u32..16 {
        let mut movie = sample_movie();
        movie.controller_flags = flags | 0xABCD_0000;
        for slot in 0..4 {
            movie.inputs[slot] = if flags & (1 << slot) != 0 {
                (0..3).map(|frame| Input::from_word(0x0101_0101 * (slot as u32 + 4 * frame))).collect()
            } else {
                Vec::new()
            };
        }
        let bytes = movie.to_bytes().unwrap();
        assert_eq!(bytes.len(), 0x400 + 4 * 3 * flags.count_ones() as usize);
        assert_eq!(M64File::from_bytes(&bytes), Ok(movie));
    }
}

#[test]
fn unequal_controllers_cannot_be_encoded() {
    let mut movie = sample_movie();
    movie.inputs[0] = vec![Input::new(); 3];
    movie.inputs[2] = vec![Input::new(); 4];
    assert_eq!(movie.to_bytes(), Err(M64Error::MismatchedControllerLengths));
}

#[test]
fn samples_of_an_idle_controller_cannot_be_encoded() {
    let mut movie = sample_movie();
    movie.inputs[1] = vec![Input::new(); 2];
    assert_eq!(movie.to_bytes(), Err(M64Error::MismatchedControllerLengths));
    movie.controller_flags = 0b0111;
    assert!(movie.to_bytes().is_ok());
}

#[test]
fn errors_of_encoding_come_in_order() {
    let mut movie = sample_movie();
    movie.author = vec![b'a'; 223];
    assert_eq!(movie.to_bytes(), Err(M64Error::FieldTooLong));
    movie.inputs[0].push(Input::new());
    assert_eq!(movie.to_bytes(), Err(M64Error::MismatchedControllerLengths));
    movie.controller_flags = 0x10;
    assert_eq!(movie.to_bytes(), Err(M64Error::NoActiveControllers));
}

#[test]
fn an_odd_record_leaves_unequal_controllers() {
    let mut buf = header_with_flags(0b1001);
    for word in [1u32, 2, 4] {
        buf.extend_from_slice(&word.to_le_bytes());
    }
    let movie = M64File::from_bytes(&buf).unwrap();
    assert_eq!(movie.inputs[0].len(), 2);
    assert_eq!(movie.inputs[3].len(), 1);
    assert_eq!(movie.to_bytes(), Err(M64Error::MismatchedControllerLengths));
}

#[test]
fn text_outside_ascii_is_kept_as_bytes() {
    let mut movie = sample_movie();
    movie.author = vec![0xE9; 222];
    let bytes = movie.to_bytes().unwrap();
    assert_eq!(M64File::from_bytes(&bytes), Ok(movie));
    assert_eq!(M64File::from_bytes_strict(&bytes), Err(M64Error::InvalidTextEncoding));
}

#[test]
fn signature_is_not_judged() {
    let mut buf = header_with_flags(1);
    buf[0] = b'X';
    let movie = M64File::from_bytes(&buf).unwrap();
    assert_eq!(movie.signature, [b'X', 0x36, 0x34, 0x1A]);
    assert!(!movie.has_magic());
}
