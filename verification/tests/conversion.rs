use agon_libretro_core::audio::{convert_audio, sample_to_i16, AUDIO_FRAMES_PER_VIDEO_FRAME};
use agon_libretro_core::video::{
    convert_frame, frame_fits, pixels_to_bytes, rgb565, HEIGHT, WIDTH,
};

#[test]
fn sample_conversion_exact_values() {
    assert_eq!(sample_to_i16(127), 0);
    assert_eq!(sample_to_i16(128), 256);
    assert_eq!(sample_to_i16(126), -256);
    assert_eq!(sample_to_i16(0), -32512);
    assert_eq!(sample_to_i16(254), 32512);
}

#[test]
fn sample_255_wraps_to_most_negative() {
    assert_eq!(sample_to_i16(255), i16::MIN);
}

#[test]
fn sample_conversion_keeps_order_below_255() {
    let mut previous = sample_to_i16(0);
    for s in 1u8..255 {
        let current = sample_to_i16(s);
        assert!(current > previous);
        assert_eq!(current as i32 - previous as i32, 256);
        previous = current;
    }
}

#[test]
fn audio_block_is_interleaved_stereo() {
    let samples = vec![127u8, 128, 0, 255];
    let mut out = vec![7i16; 10];
    convert_audio(&samples, &mut out);
    assert_eq!(out, vec![0, 0, 256, 256, -32512, -32512, -32768, -32768, 7, 7]);
}

#[test]
fn audio_frames_per_video_frame_is_800() {
    assert_eq!(AUDIO_FRAMES_PER_VIDEO_FRAME, 800);
}

#[test]
fn rgb565_exact_values() {
    assert_eq!(rgb565(0, 0, 0), 0x0000);
    assert_eq!(rgb565(255, 255, 255), 0xffff);
    assert_eq!(rgb565(255, 0, 0), 0xf800);
    assert_eq!(rgb565(0, 255, 0), 0x07e0);
    assert_eq!(rgb565(0, 0, 255), 0x001f);
    assert_eq!(rgb565(8, 4, 8), 0x0821);
    assert_eq!(rgb565(7, 3, 7), 0x0000);
}

#[test]
fn rgb565_fields_give_back_top_bits() {
    for (r, g, b) in [(0x12u8, 0x34u8, 0x56u8), (0xabu8, 0xcdu8, 0xefu8), (200, 100, 50)] {
        let v = rgb565(r, g, b);
        assert_eq!(v >> 11, (r >> 3) as u16);
        assert_eq!((v >> 5) & 0x3f, (g >> 2) as u16);
        assert_eq!(v & 0x1f, (b >> 3) as u16);
    }
}

#[test]
fn output_frame_is_640_by_480() {
    assert_eq!(WIDTH, 640);
    assert_eq!(HEIGHT, 480);
}

#[test]
fn small_frame_fills_top_left_corner_and_black_elsewhere() {
    // a 2 by 2 VDP frame: white, red / green, blue
    let source = vec![255u8, 255, 255, 255, 0, 0, 0, 255, 0, 0, 0, 255];
    let mut frame = vec![0x1234u16; WIDTH * HEIGHT];
    convert_frame(&source, 2, 2, &mut frame);
    assert_eq!(frame[0], 0xffff);
    assert_eq!(frame[1], 0xf800);
    assert_eq!(frame[WIDTH], 0x07e0);
    assert_eq!(frame[WIDTH + 1], 0x001f);
    let coloured = frame.iter().filter(|&&p| p != 0).count();
    assert_eq!(coloured, 4);
}

#[test]
fn wide_frame_is_clipped_to_output_width() {
    let width = 1024u32;
    let height = 2u32;
    let mut source = vec![0u8; (width * height * 3) as usize];
    // the pixel at column 639 of row 1 is white, column 640 of row 0 is white
    let at = |x: usize, y: usize| (y * width as usize + x) * 3;
    for k in 0..3 {
        source[at(639, 1) + k] = 255;
        source[at(640, 0) + k] = 255;
    }
    let mut frame = vec![0u16; WIDTH * HEIGHT];
    convert_frame(&source, width, height, &mut frame);
    assert_eq!(frame[WIDTH + 639], 0xffff);
    assert_eq!(frame.iter().filter(|&&p| p != 0).count(), 1);
}

#[test]
fn empty_frame_clears_output() {
    let mut frame = vec![0xffffu16; WIDTH * HEIGHT];
    convert_frame(&Vec::new(), 0, 0, &mut frame);
    assert!(frame.iter().all(|&p| p == 0));
    let mut frame = vec![0xffffu16; WIDTH * HEIGHT];
    convert_frame(&Vec::new(), 640, 0, &mut frame);
    assert!(frame.iter().all(|&p| p == 0));
}

#[test]
fn frame_fits_checks_last_byte_read() {
    assert!(frame_fits(0, 0, 0));
    assert!(frame_fits(0, 100, 0));
    assert!(frame_fits(12, 2, 2));
    assert!(!frame_fits(11, 2, 2));
    assert!(frame_fits(1024 * 768 * 3, 1024, 768));
    assert!(frame_fits(1024 * 768 * 3, 640, 480));
    assert!(!frame_fits(1024 * 768 * 3, 4000, 480));
    // only 480 rows and 640 columns are read from a 1024 by 768 frame
    assert!(frame_fits((479 * 1024 + 639) * 3 + 3, 1024, 768));
    assert!(!frame_fits((479 * 1024 + 639) * 3 + 2, 1024, 768));
}

#[test]
fn pixel_bytes_in_both_orders() {
    let pixels = [0x1234u16, 0xabcd];
    assert_eq!(pixels_to_bytes(&pixels, true), vec![0x34, 0x12, 0xcd, 0xab]);
    assert_eq!(pixels_to_bytes(&pixels, false), vec![0x12, 0x34, 0xab, 0xcd]);
    assert_eq!(pixels_to_bytes(&[], true), Vec::<u8>::new());
}

#[test]
fn pixel_bytes_match_native_reinterpretation() {
    let pixels = [0x0102u16, 0xf800, 0x07e0];
    let native: Vec<u8> = pixels.iter().flat_map(|p| p.to_ne_bytes()).collect();
    let little_endian = u16::from_ne_bytes([1, 0]) == 1;
    assert_eq!(pixels_to_bytes(&pixels, little_endian), native);
}
