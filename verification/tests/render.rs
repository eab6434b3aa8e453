use waifudex::render::premultiplied_bgra;
use waifudex::render::{flip_rows, FrameBuffer, MascotError, RendererContext};

#[test]
fn a_frame_is_at_least_one_pixel_and_starts_cleared() {
    let frame = FrameBuffer::new(0, 3);
    assert_eq!(frame.dimensions(), (1, 3));
    assert_eq!(frame.pixels(), &[0u8; 12][..]);
    assert_eq!(frame.revision(), 0);
}

#[test]
fn pixels_are_written_at_their_offset_and_cleared() {
    let mut frame = FrameBuffer::new(2, 2);
    frame.set_pixel(1, 1, [1, 2, 3, 4]);
    assert_eq!(frame.pixel(1, 1), [1, 2, 3, 4]);
    assert_eq!(&frame.pixels()[12..16], &[1, 2, 3, 4]);
    assert_eq!(frame.pixel(0, 1), [0, 0, 0, 0]);
    frame.clear();
    assert!(frame.pixels().iter().all(|b| *b == 0));
}

#[test]
fn resizing_keeps_the_bytes_from_the_start() {
    let mut frame = FrameBuffer::new(2, 1);
    frame.set_pixel(0, 0, [9, 9, 9, 9]);
    frame.resize(3, 1);
    assert_eq!(frame.dimensions(), (3, 1));
    assert_eq!(frame.pixels().len(), 12);
    assert_eq!(&frame.pixels()[0..4], &[9, 9, 9, 9]);
    frame.resize(1, 1);
    assert_eq!(frame.pixels(), &[9, 9, 9, 9]);
}

#[test]
fn revisions_count_frames_and_saturate() {
    let mut frame = FrameBuffer::new(1, 1);
    frame.increment_revision();
    frame.increment_revision();
    assert_eq!(frame.revision(), 2);
}

#[test]
fn the_renderer_context_never_has_a_zero_dimension() {
    let mut context = RendererContext::new(0, 0);
    assert_eq!(context.dimensions(), (1, 1));
    context.resize(640, 0);
    assert_eq!(context.dimensions(), (640, 1));
}

#[test]
fn mascot_errors_read_as_before() {
    assert_eq!(
        MascotError::ModelNotFound("/models/Aka.inx".to_string()).message(),
        "mascot model was not found: /models/Aka.inx"
    );
    assert_eq!(
        MascotError::NativeBackendUnavailable.message(),
        "native inochi2d backend is not available in this build"
    );
    assert_eq!(MascotError::NativeFfi("x".to_string()).message(), "inochi2d native call failed: x");
}

#[test]
fn flipping_turns_the_rows_upside_down_and_keeps_the_tail() {
    let mut bytes: Vec<u8> = (0..13).collect();
    flip_rows(&mut bytes, 1, 3);
    assert_eq!(bytes, vec![8, 9, 10, 11, 4, 5, 6, 7, 0, 1, 2, 3, 12]);
    let mut even: Vec<u8> = (0..16).collect();
    flip_rows(&mut even, 2, 2);
    assert_eq!(even, vec![8, 9, 10, 11, 12, 13, 14, 15, 0, 1, 2, 3, 4, 5, 6, 7]);
    let mut empty: Vec<u8> = vec![1, 2];
    flip_rows(&mut empty, 0, 5);
    assert_eq!(empty, vec![1, 2]);
}

#[test]
fn pixels_are_premultiplied_into_bgra() {
    let rgba = [255u8, 128, 0, 255, 200, 100, 50, 128, 10, 20, 30, 0, 9, 9, 9, 9];
    assert_eq!(
        premultiplied_bgra(&rgba, 3),
        vec![0, 128, 255, 255, 25, 50, 100, 128, 0, 0, 0, 0]
    );
    assert!(premultiplied_bgra(&rgba, 0).is_empty());
}
