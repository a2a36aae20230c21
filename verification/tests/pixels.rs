use screencast::frame::{
    bgra_rows_to_rgba, from_bgra_to_rgb, pixel_count, rows_fit, swap_red_blue, u8x4_crop, Area,
    ChannelFrame, Frame,
};

// A 3 x 2 image whose pixel at column c, row r holds the bytes
// [10 * r + c, 100 + 10 * r + c, 200 + 10 * r + c, 255].
fn sample_3x2() -> Vec<u8> {
    let mut data = Vec::new();
    for r in 0..2u8 {
        for c in 0..3u8 {
            data.extend_from_slice(&[10 * r + c, 100 + 10 * r + c, 200 + 10 * r + c, 255]);
        }
    }
    data
}

#[test]
fn frame_new_keeps_its_arguments() {
    let f = Frame::new(3, 2, vec![1, 2, 3]);
    assert_eq!((f.w, f.h), (3, 2));
    assert_eq!(f.data, vec![1, 2, 3]);
}

#[test]
fn frame_clone_is_equal() {
    let f = Frame::new(3, 2, sample_3x2());
    let g = f.clone();
    assert_eq!((g.w, g.h), (3, 2));
    assert_eq!(g.data, f.data);
}

#[test]
fn default_frame_is_empty() {
    let f = Frame::default();
    assert_eq!((f.w, f.h), (0, 0));
    assert!(f.data.is_empty());
}

#[test]
fn channel_frame_new_keeps_its_arguments() {
    let f = ChannelFrame::new(8, 9, vec![4, 5]);
    assert_eq!((f.w, f.h), (8, 9));
    assert_eq!(f.data, vec![4, 5]);
}

#[test]
fn area_new_keeps_its_arguments() {
    let a = Area::new(1, 2, 3, 4);
    assert_eq!((a.x, a.y, a.width, a.height), (1, 2, 3, 4));
    assert_eq!(Area::default(), Area::new(0, 0, 0, 0));
}

#[test]
fn pixel_count_does_not_overflow() {
    assert_eq!(pixel_count(1920, 1080), 2_073_600);
    assert_eq!(pixel_count(u32::MAX, u32::MAX), 18_446_744_065_119_617_025);
    assert_eq!(pixel_count(0, 9), 0);
}

#[test]
fn bgra_to_rgb_reverses_colours_and_drops_alpha() {
    let out = from_bgra_to_rgb(vec![1, 2, 3, 4, 5, 6, 7, 8]);
    assert_eq!(out, vec![3, 2, 1, 7, 6, 5]);
}

#[test]
fn bgra_to_rgb_ignores_an_incomplete_last_pixel() {
    assert_eq!(from_bgra_to_rgb(vec![1, 2, 3, 4, 5, 6, 7]), vec![3, 2, 1]);
    assert_eq!(from_bgra_to_rgb(vec![1, 2, 3]), Vec::<u8>::new());
    assert_eq!(from_bgra_to_rgb(Vec::new()), Vec::<u8>::new());
}

#[test]
fn crop_cuts_the_window_out() {
    let frame = Frame::new(3, 2, sample_3x2());
    let out = u8x4_crop(frame, &Area::new(1, 0, 2, 1));
    assert_eq!((out.w, out.h), (2, 1));
    assert_eq!(out.data, vec![1, 101, 201, 255, 2, 102, 202, 255]);
}

#[test]
fn crop_takes_rows_from_the_right_offset() {
    let frame = Frame::new(3, 2, sample_3x2());
    let out = u8x4_crop(frame, &Area::new(1, 1, 2, 1));
    assert_eq!((out.w, out.h), (2, 1));
    assert_eq!(out.data, vec![11, 111, 211, 255, 12, 112, 212, 255]);
    let frame = Frame::new(3, 2, sample_3x2());
    let out = u8x4_crop(frame, &Area::new(0, 0, 1, 2));
    assert_eq!(out.data, vec![0, 100, 200, 255, 10, 110, 210, 255]);
}

#[test]
fn crop_returns_a_frame_of_the_right_size_untouched() {
    let frame = Frame::new(3, 2, sample_3x2());
    let out = u8x4_crop(frame, &Area::new(5, 5, 3, 2));
    assert_eq!((out.w, out.h), (3, 2));
    assert_eq!(out.data, sample_3x2());
    let frame = Frame::new(3, 2, sample_3x2());
    let out = u8x4_crop(frame, &Area::new(0, 0, 6, 1));
    assert_eq!((out.w, out.h), (3, 2));
    assert_eq!(out.data, sample_3x2());
}

#[test]
fn crop_keeps_only_what_lies_inside_the_frame() {
    let frame = Frame::new(3, 2, sample_3x2());
    let out = u8x4_crop(frame, &Area::new(2, 1, 4, 4));
    assert_eq!((out.w, out.h), (4, 4));
    assert_eq!(out.data, vec![12, 112, 212, 255]);
    let frame = Frame::new(3, 2, sample_3x2());
    let out = u8x4_crop(frame, &Area::new(7, 7, 1, 1));
    assert_eq!((out.w, out.h), (1, 1));
    assert!(out.data.is_empty());
}

#[test]
fn crop_reads_a_longer_buffer_by_the_frame_width() {
    let mut data = sample_3x2();
    data.extend_from_slice(&[9, 9, 9, 9]);
    let out = u8x4_crop(Frame::new(3, 2, data), &Area::new(2, 0, 1, 2));
    assert_eq!(out.data, vec![2, 102, 202, 255, 12, 112, 212, 255]);
}

#[test]
fn swap_red_blue_exchanges_first_and_third_byte() {
    assert_eq!(swap_red_blue(vec![1, 2, 3, 4, 5, 6, 7, 8]), vec![3, 2, 1, 4, 7, 6, 5, 8]);
}

#[test]
fn swap_red_blue_leaves_an_incomplete_pixel_alone() {
    assert_eq!(swap_red_blue(vec![1, 2, 3, 4, 5, 6, 7]), vec![3, 2, 1, 4, 5, 6, 7]);
    assert_eq!(swap_red_blue(vec![1, 2, 3]), vec![1, 2, 3]);
}

#[test]
fn rows_become_opaque_rgba() {
    let out = bgra_rows_to_rgba(&[1, 2, 3, 4, 5, 6, 7, 8], 2, 1);
    assert_eq!(out, vec![3, 2, 1, 255, 7, 6, 5, 255]);
}

#[test]
fn rows_skip_the_padding_at_the_end_of_each_row() {
    // Two rows of twelve bytes that hold two pixels each.
    let buffer: Vec<u8> = (0..24).collect();
    let out = bgra_rows_to_rgba(&buffer, 2, 2);
    assert_eq!(
        out,
        vec![2, 1, 0, 255, 6, 5, 4, 255, 14, 13, 12, 255, 18, 17, 16, 255]
    );
}

#[test]
fn rows_need_no_alpha_byte_after_the_last_pixel() {
    let out = bgra_rows_to_rgba(&[1, 2, 3], 1, 1);
    assert_eq!(out, vec![3, 2, 1, 255]);
    assert_eq!(bgra_rows_to_rgba(&[], 0, 3), Vec::<u8>::new());
}

#[test]
fn rows_fit_tells_when_every_pixel_lies_inside() {
    let buffer: Vec<u8> = (0..24).collect();
    assert!(rows_fit(&buffer, 2, 2));
    assert!(rows_fit(&buffer, 3, 2));
    assert!(!rows_fit(&buffer, 4, 2));
    assert!(rows_fit(&buffer, 6, 1));
    assert!(!rows_fit(&buffer, 7, 1));
    assert!(rows_fit(&[1, 2, 3], 1, 1));
    assert!(!rows_fit(&[1, 2], 1, 1));
    assert!(rows_fit(&[], 0, 5));
}

#[test]
fn rows_fit_refuses_no_rows_and_sizes_beyond_memory() {
    let buffer: Vec<u8> = (0..24).collect();
    assert!(!rows_fit(&buffer, 2, 0));
    assert!(!rows_fit(&buffer, 0, 0));
    assert!(!rows_fit(&buffer, usize::MAX, 2));
    assert!(!rows_fit(&buffer, 1, usize::MAX));
    assert!(!rows_fit(&buffer, usize::MAX / 4, 2));
}
