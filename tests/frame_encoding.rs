use voronoi_render::frame::{encode_frame, readback_len, FrameError};

fn decode(bytes: &[u8]) -> (png::OutputInfo, Vec<u8>) {
    let decoder = png::Decoder::new(bytes);
    let mut reader = decoder.read_info().unwrap();
    let mut buf = vec![0u8; reader.output_buffer_size()];
    let info = reader.next_frame(&mut buf).unwrap();
    buf.truncate(info.buffer_size());
    (info, buf)
}

#[test]
fn encoded_frame_has_extent_and_rgba8_depth() {
    let (w, h) = (5u32, 3u32);
    let pixels: Vec<u8> = (0..w * h * 4).map(|i| (i * 7 % 256) as u8).collect();
    let bytes = encode_frame(w, h, &pixels).unwrap();
    assert_eq!(&bytes[..8], &[137, 80, 78, 71, 13, 10, 26, 10]);
    let (info, data) = decode(&bytes);
    assert_eq!(info.width, w);
    assert_eq!(info.height, h);
    assert_eq!(info.color_type, png::ColorType::Rgba);
    assert_eq!(info.bit_depth, png::BitDepth::Eight);
    assert_eq!(data, pixels);
}

#[test]
fn encoding_is_deterministic() {
    let pixels = vec![10u8, 20, 30, 255, 40, 50, 60, 255];
    assert_eq!(encode_frame(2, 1, &pixels), encode_frame(2, 1, &pixels));
}

#[test]
fn empty_extent_is_refused() {
    assert_eq!(encode_frame(0, 4, &[]), Err(FrameError::EmptyExtent));
    assert_eq!(encode_frame(4, 0, &[]), Err(FrameError::EmptyExtent));
}

#[test]
fn wrong_pixel_count_is_refused() {
    assert_eq!(encode_frame(2, 2, &[0u8; 15]), Err(FrameError::PixelCountMismatch));
    assert_eq!(encode_frame(2, 2, &[0u8; 17]), Err(FrameError::PixelCountMismatch));
    assert_eq!(encode_frame(1, 1, &[0u8; 3]), Err(FrameError::PixelCountMismatch));
}

#[test]
fn oversized_extent_is_refused() {
    assert_eq!(encode_frame(u32::MAX, u32::MAX, &[]), Err(FrameError::TooLarge));
}

#[test]
fn readback_length_is_four_bytes_per_pixel() {
    assert_eq!(readback_len(1920, 1080), Some(1920 * 1080 * 4));
    assert_eq!(readback_len(1, 1), Some(4));
    assert_eq!(readback_len(0, 1080), Some(0));
    assert_eq!(readback_len(u32::MAX, u32::MAX), None);
}
