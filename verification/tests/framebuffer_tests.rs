use uefi_ui::framebuffer::{BgrxFramebuffer, Rgb};

fn black() -> Rgb {
    Rgb::new(0, 0, 0)
}

fn white() -> Rgb {
    Rgb::new(255, 255, 255)
}

#[test]
fn s1_draw_iter_writes_bgrx_and_pixel_at_reads_rgb888() {
    let mut buf = vec![0u8; 16 * 4 * 2];
    let mut fb = BgrxFramebuffer::new(&mut buf, 16, 2, 16 * 4).expect("fb");
    let c = Rgb::new(10, 20, 30);
    fb.draw_pixel(1, 0, c);
    fb.draw_pixel(2, 0, c);
    assert_eq!(fb.pixel_at(1, 0), Some(Rgb::new(10, 20, 30)));
    assert_eq!(fb.pixel_at(2, 0), Some(Rgb::new(10, 20, 30)));
}

#[test]
fn s1_out_of_bounds_pixel_discarded() {
    let mut buf = vec![0u8; 4];
    let mut fb = BgrxFramebuffer::new(&mut buf, 1, 1, 4).expect("fb");
    fb.draw_pixel(-5, 0, white());
    assert_eq!(fb.pixel_at(0, 0), Some(black()));
}

#[test]
fn s1_fill_rect_solid_clips_and_matches_color() {
    let mut buf = vec![0u8; 8 * 4 * 4];
    let mut fb = BgrxFramebuffer::new(&mut buf, 8, 4, 8 * 4).expect("fb");
    let c = Rgb::new(11, 22, 33);
    fb.fill_rect_solid(2, 1, 3, 2, c);
    assert_eq!(fb.pixel_at(2, 1), Some(c));
    assert_eq!(fb.pixel_at(4, 2), Some(c));
    assert_eq!(fb.pixel_at(1, 1), Some(black()));
    fb.fill_rect_solid(0, 0, 100, 100, white());
    assert_eq!(fb.pixel_at(7, 3), Some(white()));
}

#[test]
fn framebuffer_bytes_are_blue_green_red_unused() {
    let mut buf = vec![9u8; 2 * 4];
    {
        let mut fb = BgrxFramebuffer::new(&mut buf, 2, 1, 8).expect("fb");
        fb.write_rgb(1, 0, Rgb::new(1, 2, 3));
        fb.write_rgb(2, 0, Rgb::new(7, 7, 7));
    }
    assert_eq!(buf, vec![9, 9, 9, 9, 3, 2, 1, 0]);
}

#[test]
fn framebuffer_new_rejects_short_buffer_and_narrow_stride() {
    let mut buf = vec![0u8; 15];
    assert!(BgrxFramebuffer::new(&mut buf, 2, 2, 8).is_none());
    let mut buf2 = vec![0u8; 64];
    assert!(BgrxFramebuffer::new(&mut buf2, 4, 2, 8).is_none());
    let mut buf3 = vec![0u8; 64];
    let fb = BgrxFramebuffer::new(&mut buf3, 4, 2, 20).expect("fb");
    assert_eq!((fb.width(), fb.height(), fb.stride_bytes()), (4, 2, 20));
    assert_eq!(fb.pixel_at(4, 0), None);
    assert_eq!(fb.pixel_at(0, 2), None);
}

#[test]
fn framebuffer_blend_rounds_to_nearest() {
    let mut buf = vec![0u8; 4];
    let mut fb = BgrxFramebuffer::new(&mut buf, 1, 1, 4).expect("fb");
    fb.blend_pixel(0, 0, white(), 128);
    assert_eq!(fb.pixel_at(0, 0), Some(Rgb::new(128, 128, 128)));
    fb.blend_pixel(0, 0, black(), 0);
    assert_eq!(fb.pixel_at(0, 0), Some(Rgb::new(128, 128, 128)));
    fb.blend_pixel(0, 0, Rgb::new(5, 6, 7), 255);
    assert_eq!(fb.pixel_at(0, 0), Some(Rgb::new(5, 6, 7)));
}

#[test]
fn framebuffer_fill_with_empty_size_changes_nothing() {
    let mut buf = vec![0u8; 4 * 4];
    let mut fb = BgrxFramebuffer::new(&mut buf, 2, 2, 8).expect("fb");
    fb.fill_rect_solid(0, 0, 0, 5, white());
    fb.fill_rect_solid(5, 5, 3, 3, white());
    assert_eq!(fb.pixel_at(0, 0), Some(black()));
    assert_eq!(fb.pixel_at(1, 1), Some(black()));
}
