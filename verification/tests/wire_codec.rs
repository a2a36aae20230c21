use screencast::wire::{
    chunk_count, decode_header, encode_header, pad_to_chunk, DecodeError, Header, PixelFormat,
    CHUNK_SIZE, HEADER_SIZE,
};

#[test]
fn constants_match_the_protocol() {
    assert_eq!(CHUNK_SIZE, 65536);
    assert_eq!(HEADER_SIZE, 16);
}

#[test]
fn header_new_sets_every_field() {
    let h = Header::new(7, 48, 4, 3);
    assert_eq!(h.frame_number, 7);
    assert_eq!(h.len, 48);
    assert_eq!(h.frame_width, 4);
    assert_eq!(h.frame_height, 3);
}

#[test]
fn default_header_is_all_zero() {
    assert_eq!(Header::default(), Header::new(0, 0, 0, 0));
}

#[test]
fn bytes_per_pixel_of_each_format() {
    assert_eq!(PixelFormat::Rgb.bytes_per_pixel(), 3);
    assert_eq!(PixelFormat::Rgba.bytes_per_pixel(), 4);
}

#[test]
fn header_encodes_as_four_little_endian_words() {
    let h = Header::new(0x0102_0304, 0x0000_0030, 4, 0x0001_0000);
    let bytes = encode_header(&h);
    assert_eq!(
        bytes,
        vec![0x04, 0x03, 0x02, 0x01, 0x30, 0x00, 0x00, 0x00, 4, 0, 0, 0, 0, 0, 1, 0]
    );
}

#[test]
fn encoded_header_has_the_fixed_size() {
    for h in [Header::new(0, 0, 0, 0), Header::new(u32::MAX, u32::MAX, u32::MAX, u32::MAX)] {
        assert_eq!(encode_header(&h).len(), HEADER_SIZE);
    }
}

#[test]
fn decode_reads_the_fields_back() {
    let bytes = vec![9, 0, 0, 0, 24, 0, 0, 0, 4, 0, 0, 0, 2, 0, 0, 0];
    assert_eq!(decode_header(&bytes), Ok(Header::new(9, 24, 4, 2)));
}

#[test]
fn header_round_trip_for_three_byte_pixels() {
    for (w, h) in [(0u32, 0u32), (1, 1), (4, 3), (1920, 1080), (65535, 21845)] {
        let header = Header::new(1, w * h * 3, w, h);
        assert_eq!(decode_header(&encode_header(&header)), Ok(header));
    }
}

#[test]
fn header_round_trip_for_four_byte_pixels() {
    for (w, h) in [(0u32, 7u32), (5, 5), (175, 100), (256, 128), (32768, 32767)] {
        let header = Header::new(u32::MAX, w * h * 4, w, h);
        assert_eq!(decode_header(&encode_header(&header)), Ok(header));
    }
}

#[test]
fn decode_refuses_a_block_of_the_wrong_size() {
    let good = encode_header(&Header::new(1, 12, 2, 2));
    assert_eq!(decode_header(&good[..15]), Err(DecodeError::WrongSize));
    assert_eq!(decode_header(&[]), Err(DecodeError::WrongSize));
    let mut long = good.clone();
    long.push(0);
    assert_eq!(decode_header(&long), Err(DecodeError::WrongSize));
}

#[test]
fn decode_refuses_a_length_that_contradicts_the_dimensions() {
    let bad = encode_header(&Header::new(1, 13, 2, 2));
    assert_eq!(decode_header(&bad), Err(DecodeError::InconsistentDimensions));
    let huge = encode_header(&Header::new(1, 0, 65536, 65536));
    assert_eq!(decode_header(&huge), Err(DecodeError::InconsistentDimensions));
    let garbage = vec![0xff; 16];
    assert_eq!(decode_header(&garbage), Err(DecodeError::InconsistentDimensions));
}

#[test]
fn chunk_count_rounds_up() {
    assert_eq!(chunk_count(0), 0);
    assert_eq!(chunk_count(1), 1);
    assert_eq!(chunk_count(100), 1);
    assert_eq!(chunk_count(65535), 1);
    assert_eq!(chunk_count(65536), 1);
    assert_eq!(chunk_count(65537), 2);
    assert_eq!(chunk_count(70000), 2);
    assert_eq!(chunk_count(131072), 2);
    assert_eq!(chunk_count(u32::MAX), 65536);
}

#[test]
fn padding_reaches_the_next_chunk_boundary() {
    for (len, padded) in [(1usize, 65536usize), (100, 65536), (65535, 65536), (70000, 131072)] {
        let payload: Vec<u8> = (0..len).map(|i| (i % 251) as u8 + 1).collect();
        let out = pad_to_chunk(payload.clone());
        assert_eq!(out.len(), padded);
        assert_eq!(out.len() % CHUNK_SIZE as usize, 0);
        assert_eq!(&out[..len], &payload[..]);
        assert!(out[len..].iter().all(|b| *b == 0));
    }
}

#[test]
fn padding_adds_nothing_on_a_chunk_boundary() {
    assert_eq!(pad_to_chunk(Vec::new()), Vec::<u8>::new());
    for len in [65536usize, 131072] {
        let payload: Vec<u8> = (0..len).map(|i| (i % 7) as u8).collect();
        assert_eq!(pad_to_chunk(payload.clone()), payload);
    }
}

#[test]
fn padding_amounts_of_the_three_frame_scenario() {
    assert_eq!(pad_to_chunk(vec![1; 100]).len() - 100, 65436);
    assert_eq!(pad_to_chunk(vec![1; 70000]).len() - 70000, 61072);
    assert_eq!(pad_to_chunk(vec![1; 131072]).len() - 131072, 0);
}

#[test]
fn a_header_is_valid_when_length_and_dimensions_agree() {
    assert!(Header::new(1, 12, 2, 2).check_valid());
    assert!(Header::new(1, 16, 2, 2).check_valid());
    assert!(Header::new(1, 0, 0, 0).check_valid());
    assert!(Header::new(1, 0, 0, 700).check_valid());
    assert!(!Header::new(1, 8, 2, 2).check_valid());
    assert!(!Header::new(1, 20, 2, 2).check_valid());
    assert!(!Header::new(1, 12, 65536, 65536).check_valid());
    assert!(!Header::new(1, 0, u32::MAX, u32::MAX).check_valid());
}
