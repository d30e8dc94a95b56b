use uefi_ui::demo::demo_gallery::{compute_gallery_layout, GalleryState};
use uefi_ui::demo::layout::{compute_layout, menu_labels, submenu_popup_rect};
use uefi_ui::geometry::{Point, Rectangle, Size};
use uefi_ui::layout::{column_panels, grid_panels, pad, row_panels, row_panels_fit_start};
use uefi_ui::pointer::{index_at, PointerState};
use uefi_ui::popover::{center_in_screen, place_below_anchor};
use uefi_ui::window::WindowOffset;

#[test]
fn row_fit_start_left_packs() {
    let r = Rectangle::new(Point::zero(), Size::new(500, 20));
    let v = row_panels_fit_start(r, &[30, 40, 22], 4);
    assert_eq!(v.len(), 3);
    assert_eq!(v[0].top_left, Point::zero());
    assert_eq!(v[0].size.width, 30);
    assert_eq!(v[1].top_left.x, 34);
    assert_eq!(v[2].top_left.x, 78);
}

#[test]
fn column_three() {
    let r = Rectangle::new(Point::zero(), Size::new(100, 100));
    let v = column_panels(r, 3, 4);
    assert_eq!(v.len(), 3);
}

#[test]
fn grid_2x2() {
    let r = Rectangle::new(Point::zero(), Size::new(100, 100));
    let g = grid_panels(r, 2, 2, 4);
    assert_eq!(g.len(), 4);
}

#[test]
fn row_panels_share_remainder() {
    let r = Rectangle::new(Point::new(10, 5), Size::new(100, 20));
    let v = row_panels(r, 3, 2);
    let widths: Vec<u32> = v.iter().map(|c| c.size.width).collect();
    assert_eq!(widths, vec![32, 32, 32]);
    assert_eq!(v[1].top_left.x, 44);
    let w = row_panels(Rectangle::new(Point::zero(), Size::new(10, 20)), 3, 0);
    let widths: Vec<u32> = w.iter().map(|c| c.size.width).collect();
    assert_eq!(widths, vec![4, 3, 3]);
}

#[test]
fn pad_insets_and_floors() {
    let r = pad(Rectangle::new(Point::new(1, 2), Size::new(10, 3)), 2);
    assert_eq!(r.top_left, Point::new(3, 4));
    assert_eq!(r.size, Size::new(6, 1));
}

#[test]
fn popover_placement() {
    let screen = Rectangle::new(Point::zero(), Size::new(100, 100));
    let c = center_in_screen(Size::new(20, 10), screen);
    assert_eq!(c.top_left, Point::new(40, 45));
    let anchor = Rectangle::new(Point::new(90, 95), Size::new(10, 4));
    let p = place_below_anchor(anchor, Size::new(30, 20), screen);
    assert_eq!(p.top_left, Point::new(70, 80));
}

#[test]
fn s5_index_at_finds_rect() {
    let items = [
        Rectangle::new(Point::new(0, 0), Size::new(50, 20)),
        Rectangle::new(Point::new(50, 0), Size::new(50, 20)),
    ];
    let p = PointerState::new(60, 10, true);
    assert_eq!(index_at(&items, &p), Some(1));
    let q = PointerState::new(100, 10, true);
    assert_eq!(index_at(&items, &q), None);
}

#[test]
fn showcase_window_layout() {
    let l = compute_layout(1000, 800, 16, 8, WindowOffset::zero());
    assert_eq!(l.win, Rectangle::new(Point::new(100, 80), Size::new(800, 640)));
    assert_eq!(l.title_bar, Rectangle::new(Point::new(100, 80), Size::new(800, 26)));
    assert_eq!(l.menu_strip.top_left, Point::new(100, 106));
    assert_eq!(l.menu_cells.len(), 4);
    assert_eq!(l.menu_cells[0], Rectangle::new(Point::new(102, 108), Size::new(44, 18)));
    assert_eq!(l.menu_cells[1].top_left.x, 150);
    assert_eq!(l.gallery_rect.size.width, 300);
    assert_eq!(l.preview_rect.size.height, 128);
    assert_eq!(l.sb_rect.size.width, 26);
    assert_eq!(l.visible_lines, (l.text_inner.size.height / 16) as usize);
    assert_eq!(menu_labels(), vec!["&File", "&Edit", "&View", "&Help"]);
}

#[test]
fn small_screen_uses_minimum_window() {
    let l = compute_layout(100, 100, 16, 8, WindowOffset::zero());
    assert_eq!(l.win.size, Size::new(480, 360));
    assert_eq!(l.win.top_left, Point::new(-190, -130));
}

#[test]
fn submenu_popup_sizes() {
    let cell = Rectangle::new(Point::new(10, 20), Size::new(40, 18));
    let r = submenu_popup_rect(&cell, &["&New", "&Open…", "E&xit"], 8, 16);
    assert_eq!(r.top_left, Point::new(10, 38));
    assert_eq!(r.size, Size::new(72, 56));
    let wide = submenu_popup_rect(&cell, &["Select &All entries"], 8, 16);
    assert_eq!(wide.size.width, 18 * 8 + 16);
}

#[test]
fn gallery_layout_rows() {
    let opts: &[&str] = &["Red", "Green", "Blue"];
    let g = GalleryState::new(opts);
    let inner = Rectangle::new(Point::new(0, 0), Size::new(300, 800));
    let lay = compute_gallery_layout(&inner, 16, &g.dropdown);
    assert_eq!(lay.check_a.top_left, Point::new(92, 26));
    assert_eq!(lay.check_b.top_left.x, 188);
    assert_eq!(lay.toggle_track.top_left.y, 48);
    assert_eq!(lay.slider_track.size.width, 196);
    assert!(lay.dropdown_popup.is_none());
    assert_eq!(lay.dropdown_btn.top_left.x, 92 + 166);
}
