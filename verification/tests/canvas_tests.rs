use tinybrot::canvas::{Canvas, CanvasError, CHANNELS};

#[test]
fn canvas_derives_supersampled_dimensions() {
    let canvas = Canvas::new(64, 32, 3).unwrap();
    assert_eq!(canvas.w, 64);
    assert_eq!(canvas.h, 32);
    assert_eq!(canvas.supersampling, 3);
    assert_eq!(canvas.sw, 192);
    assert_eq!(canvas.sh, 96);
    assert_eq!(canvas.pixel_count(), 18432);
    assert_eq!(canvas.buffer_len(), 73728);
}

#[test]
fn canvas_without_supersampling_keeps_the_target_size() {
    let canvas = Canvas::new(4096, 4096, 1).unwrap();
    assert_eq!(canvas.sw, 4096);
    assert_eq!(canvas.sh, 4096);
    assert_eq!(canvas.buffer_len(), 67108864);
}

#[test]
fn canvas_has_four_bytes_per_pixel() {
    assert_eq!(CHANNELS, 4);
    let canvas = Canvas::new(1, 1, 1).unwrap();
    assert_eq!(canvas.pixel_count(), 1);
    assert_eq!(canvas.buffer_len(), 4);
}

#[test]
fn canvas_rejects_zero_dimensions() {
    assert_eq!(Canvas::new(0, 32, 1), Err(CanvasError::ZeroDimension));
    assert_eq!(Canvas::new(64, 0, 1), Err(CanvasError::ZeroDimension));
    assert_eq!(Canvas::new(64, 32, 0), Err(CanvasError::ZeroDimension));
    assert_eq!(Canvas::new(0, 0, 0), Err(CanvasError::ZeroDimension));
}

#[test]
fn canvas_rejects_a_buffer_that_no_vector_can_hold() {
    assert_eq!(Canvas::new(usize::MAX, 1, 1), Err(CanvasError::TooLarge));
    assert_eq!(Canvas::new(1, usize::MAX, 1), Err(CanvasError::TooLarge));
    assert_eq!(Canvas::new(2, 2, usize::MAX), Err(CanvasError::TooLarge));
    assert_eq!(Canvas::new(usize::MAX / 4 + 1, 1, 1), Err(CanvasError::TooLarge));
    assert_eq!(Canvas::new(usize::MAX / 4, 1, 1), Err(CanvasError::TooLarge));
    assert_eq!(Canvas::new(isize::MAX as usize / 4 + 1, 1, 1), Err(CanvasError::TooLarge));
    assert_eq!(Canvas::new(1, isize::MAX as usize / 8 + 1, 2), Err(CanvasError::TooLarge));
    assert_eq!(Canvas::new(usize::MAX, usize::MAX, 1), Err(CanvasError::TooLarge));
}

#[test]
fn canvas_accepts_the_largest_buffer_that_fits() {
    let most = isize::MAX as usize / 4;
    let canvas = Canvas::new(most, 1, 1).unwrap();
    assert_eq!(canvas.sw, most);
    assert_eq!(canvas.sh, 1);
    assert_eq!(canvas.pixel_count(), most);
    assert_eq!(canvas.buffer_len(), most * 4);
}

#[test]
fn zero_dimension_is_reported_before_size() {
    assert_eq!(Canvas::new(usize::MAX, 0, usize::MAX), Err(CanvasError::ZeroDimension));
}

#[test]
fn position_is_row_major() {
    let canvas = Canvas::new(5, 3, 1).unwrap();
    assert_eq!(canvas.position(0), (0, 0));
    assert_eq!(canvas.position(4), (4, 0));
    assert_eq!(canvas.position(5), (0, 1));
    assert_eq!(canvas.position(7), (2, 1));
    assert_eq!(canvas.position(14), (4, 2));
}

#[test]
fn position_uses_the_supersampled_width() {
    let canvas = Canvas::new(5, 3, 2).unwrap();
    assert_eq!(canvas.position(9), (9, 0));
    assert_eq!(canvas.position(10), (0, 1));
    assert_eq!(canvas.position(59), (9, 5));
}

#[test]
fn position_visits_every_pixel_once() {
    let canvas = Canvas::new(7, 4, 2).unwrap();
    let mut seen = vec![false; canvas.pixel_count()];
    for i in 0..canvas.pixel_count() {
        let (px, py) = canvas.position(i);
        assert!(px < canvas.sw);
        assert!(py < canvas.sh);
        assert_eq!(py * canvas.sw + px, i);
        assert!(!seen[py * canvas.sw + px]);
        seen[py * canvas.sw + px] = true;
    }
    assert!(seen.iter().all(|s| *s));
}
