use uefi_ui::demo::demo_gallery::{
    apply_gallery_key_event, gallery_pointer_down, tree_status_line, GalleryEffect, GalleryFocus,
    GalleryState,
};
use uefi_ui::geometry::{Point, Rectangle, Size};
use uefi_ui::input::{Key, KeyEvent};
use uefi_ui::widgets::{MenuEntry, MenuNavigator, MenuTree};

static OPTS: &[&str] = &["Red", "Green", "Blue"];
static FILE_KIDS: &[MenuEntry<'static>] = &[
    MenuEntry::Item { label: "New", id: 1 },
    MenuEntry::Item { label: "Open", id: 2 },
];
static ROOTS: &[MenuEntry<'static>] = &[
    MenuEntry::Submenu { label: "File", children: FILE_KIDS },
    MenuEntry::Item { label: "Help", id: 4 },
];

fn tree() -> MenuTree<'static> {
    MenuTree { roots: ROOTS }
}

#[test]
fn gallery_initial_state() {
    let g = GalleryState::new(OPTS);
    assert!(!g.check_a.checked() && g.check_b.checked());
    assert_eq!(g.number.value, 42);
    assert_eq!(g.dropdown.selected, 1);
    assert_eq!(g.tree_line, "Tree: \u{2014}");
    assert_eq!(g.gallery_focus, GalleryFocus::CheckA);
}

#[test]
fn gallery_keys_route_by_focus() {
    let t = tree();
    let mut g = GalleryState::new(OPTS);
    assert_eq!(apply_gallery_key_event(&mut g, &KeyEvent::new(Key::Character(' ')), false, &t), (true, None));
    assert!(g.check_a.checked());
    assert_eq!(
        apply_gallery_key_event(&mut g, &KeyEvent::new(Key::Character('+')), false, &t),
        (true, Some(GalleryEffect::SliderStep(50)))
    );
    assert_eq!(apply_gallery_key_event(&mut g, &KeyEvent::new(Key::Up), false, &t), (false, None));
    g.gallery_focus = GalleryFocus::Radio;
    apply_gallery_key_event(&mut g, &KeyEvent::new(Key::Left), false, &t);
    assert_eq!(g.radio.selected, 2);
    g.gallery_focus = GalleryFocus::List;
    apply_gallery_key_event(&mut g, &KeyEvent::new(Key::End), false, &t);
    assert_eq!(g.list_selected, 2);
    apply_gallery_key_event(&mut g, &KeyEvent::new(Key::Down), false, &t);
    assert_eq!(g.list_selected, 2);
    g.gallery_focus = GalleryFocus::DemoTabs;
    apply_gallery_key_event(&mut g, &KeyEvent::new(Key::Right), false, &t);
    apply_gallery_key_event(&mut g, &KeyEvent::new(Key::Right), false, &t);
    assert_eq!(g.tab_strip_sel, 2);
    g.gallery_focus = GalleryFocus::Slider;
    assert_eq!(
        apply_gallery_key_event(&mut g, &KeyEvent::new(Key::Home), false, &t),
        (true, Some(GalleryEffect::SliderToMin))
    );
    g.gallery_focus = GalleryFocus::Date;
    assert_eq!(apply_gallery_key_event(&mut g, &KeyEvent::new(Key::Tab), false, &t), (false, None));
    assert_eq!(apply_gallery_key_event(&mut g, &KeyEvent::new(Key::Up), false, &t), (true, None));
    assert_eq!(g.date.day, 28);
    g.gallery_focus = GalleryFocus::Number;
    apply_gallery_key_event(&mut g, &KeyEvent::new(Key::Up), false, &t);
    assert_eq!(g.number.value, 43);
}

#[test]
fn gallery_tree_line_follows_navigation() {
    let t = tree();
    let mut g = GalleryState::new(OPTS);
    g.gallery_focus = GalleryFocus::Tree;
    apply_gallery_key_event(&mut g, &KeyEvent::new(Key::Right), false, &t);
    assert_eq!(g.tree_line, "Tree: File \u{203a} New");
    apply_gallery_key_event(&mut g, &KeyEvent::new(Key::Down), false, &t);
    apply_gallery_key_event(&mut g, &KeyEvent::new(Key::Enter), false, &t);
    assert_eq!(g.tree_line, "Tree: activated id 2");
    let nav = MenuNavigator { root_index: 1, sub: None };
    assert_eq!(tree_status_line(&t, &nav), "Tree: Help");
}

#[test]
fn gallery_dropdown_takes_keys_while_open() {
    let t = tree();
    let mut g = GalleryState::new(OPTS);
    g.gallery_focus = GalleryFocus::Dropdown;
    apply_gallery_key_event(&mut g, &KeyEvent::new(Key::Enter), false, &t);
    assert!(g.dropdown.open);
    g.gallery_focus = GalleryFocus::CheckA;
    apply_gallery_key_event(&mut g, &KeyEvent::new(Key::Down), false, &t);
    apply_gallery_key_event(&mut g, &KeyEvent::new(Key::Enter), false, &t);
    assert_eq!(g.dropdown.selected, 2);
    assert!(!g.check_a.checked());
}

#[test]
fn gallery_pointer_hits_controls() {
    let mut g = GalleryState::new(OPTS);
    let inner = Rectangle::new(Point::new(0, 0), Size::new(300, 800));
    assert_eq!(gallery_pointer_down(&mut g, 400, 10, &inner, 16), (false, None));
    assert_eq!(gallery_pointer_down(&mut g, 95, 30, &inner, 16), (true, None));
    assert!(g.check_a.checked());
    assert_eq!(g.gallery_focus, GalleryFocus::CheckA);
    // Radio row at y = 70: third option starts 56 px into the row.
    gallery_pointer_down(&mut g, 92 + 60, 75, &inner, 16);
    assert_eq!(g.gallery_focus, GalleryFocus::Radio);
    assert_eq!(g.radio.selected, 2);
    // Slider track at y = 114, inner track starts at x = 94.
    assert_eq!(
        gallery_pointer_down(&mut g, 104, 116, &inner, 16),
        (true, Some(GalleryEffect::SliderPoint { offset: 10, width: 192 }))
    );
    assert_eq!(gallery_pointer_down(&mut g, 5, 5, &inner, 16), (true, None));
    assert_eq!(g.gallery_focus, GalleryFocus::CheckA);
}
