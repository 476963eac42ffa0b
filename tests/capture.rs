use std::io::Cursor;
use turret_relay::capture::{capture, offer_prepared, prepare_frame, Capture, FRAME_SIDE};
use turret_relay::frame_channel::FrameChannel;

fn jpeg(width: u32, height: u32) -> Vec<u8> {
    let img = image::DynamicImage::ImageRgb8(image::RgbImage::from_pixel(
        width,
        height,
        image::Rgb([200, 40, 90]),
    ));
    let mut out = Cursor::new(Vec::new());
    img.write_to(&mut out, image::ImageFormat::Jpeg).unwrap();
    out.into_inner()
}

#[test]
fn large_frames_are_scaled_to_fit() {
    let raw = jpeg(400, 300);
    let small = prepare_frame(&raw).expect("frame prepares");
    assert_ne!(small, raw);
    assert_eq!(small[..2], [0xFF, 0xD8]);
    let back = image::load_from_memory_with_format(&small, image::ImageFormat::Jpeg).unwrap();
    assert_eq!(back.width(), FRAME_SIDE);
    assert!(back.height() <= FRAME_SIDE);
    assert_eq!(back.height(), 191);
}

#[test]
fn unreadable_frames_are_discarded() {
    let mut q = FrameChannel::new(2);
    assert_eq!(prepare_frame(b"not a jpeg"), None);
    assert_eq!(capture(&mut q, b"not a jpeg"), Capture::Unreadable);
    assert_eq!(capture(&mut q, &[]), Capture::Unreadable);
    assert!(q.is_empty());
}

#[test]
fn captured_frames_queue_until_full() {
    let mut q = FrameChannel::new(2);
    let raw = jpeg(64, 64);
    assert_eq!(capture(&mut q, &raw), Capture::Queued);
    assert_eq!(capture(&mut q, &raw), Capture::Queued);
    assert_eq!(capture(&mut q, &raw), Capture::Dropped);
    assert_eq!(q.len(), 2);
    assert_eq!(offer_prepared(&mut q, None), Capture::Unreadable);
    q.take();
    assert_eq!(offer_prepared(&mut q, Some(vec![1, 2])), Capture::Queued);
    q.take();
    assert_eq!(q.take(), Some(vec![1, 2]));
}

#[test]
fn queued_frame_is_the_prepared_thumbnail() {
    let mut q = FrameChannel::new(4);
    let raw = jpeg(300, 500);
    assert_eq!(capture(&mut q, &raw), Capture::Queued);
    let queued = q.take().unwrap();
    assert_ne!(queued, raw);
    assert_eq!(queued[..2], [0xFF, 0xD8]);
    let back = image::load_from_memory_with_format(&queued, image::ImageFormat::Jpeg).unwrap();
    assert_eq!(back.height(), FRAME_SIDE);
    assert!(back.width() < FRAME_SIDE);
}
