use raytracer::framebuffer::Framebuffer;

#[test]
fn new_framebuffer_is_black() {
    let fb = Framebuffer::new(4, 3);
    assert_eq!(fb.width, 4);
    assert_eq!(fb.height, 3);
    assert_eq!(fb.buffer, vec![0u32; 12]);
}

#[test]
fn new_framebuffer_may_be_empty() {
    let fb = Framebuffer::new(0, 7);
    assert_eq!(fb.buffer.len(), 0);
    let fb = Framebuffer::new(7, 0);
    assert_eq!(fb.buffer.len(), 0);
}

#[test]
fn set_pixel_writes_row_major() {
    let mut fb = Framebuffer::new(4, 3);
    fb.set_pixel(1, 2, 0xABCDEF);
    let mut expected = vec![0u32; 12];
    expected[2 * 4 + 1] = 0xABCDEF;
    assert_eq!(fb.buffer, expected);
    fb.set_pixel(3, 0, 7);
    expected[3] = 7;
    assert_eq!(fb.buffer, expected);
    fb.set_pixel(0, 0, 9);
    expected[0] = 9;
    fb.set_pixel(3, 2, 11);
    expected[11] = 11;
    assert_eq!(fb.buffer, expected);
}

#[test]
fn set_pixel_overwrites() {
    let mut fb = Framebuffer::new(2, 2);
    fb.set_pixel(1, 1, 5);
    fb.set_pixel(1, 1, 6);
    assert_eq!(fb.buffer, vec![0, 0, 0, 6]);
}

#[test]
fn set_pixel_outside_is_ignored() {
    let mut fb = Framebuffer::new(4, 3);
    fb.set_pixel(4, 0, 1);
    fb.set_pixel(0, 3, 2);
    fb.set_pixel(4, 3, 3);
    fb.set_pixel(usize::MAX, usize::MAX, 4);
    fb.set_pixel(5, 1, 5);
    assert_eq!(fb.buffer, vec![0u32; 12]);
    assert_eq!(fb.width, 4);
    assert_eq!(fb.height, 3);
}

#[test]
fn set_pixel_on_empty_framebuffer_is_ignored() {
    let mut fb = Framebuffer::new(0, 0);
    fb.set_pixel(0, 0, 1);
    assert_eq!(fb.buffer.len(), 0);
}

#[test]
fn clear_blackens_every_pixel() {
    let mut fb = Framebuffer::new(3, 2);
    fb.set_pixel(0, 0, 1);
    fb.set_pixel(2, 1, 2);
    fb.set_pixel(1, 1, 3);
    fb.clear();
    assert_eq!(fb.buffer, vec![0u32; 6]);
    assert_eq!(fb.width, 3);
    assert_eq!(fb.height, 2);
}

#[test]
fn point_draws_nothing() {
    let mut fb = Framebuffer::new(3, 2);
    fb.set_pixel(1, 0, 42);
    let before = fb.buffer.clone();
    fb.point(1, 1);
    fb.point(1, 0);
    fb.point(100, 100);
    assert_eq!(fb.buffer, before);
    assert_eq!(fb.width, 3);
    assert_eq!(fb.height, 2);
}
