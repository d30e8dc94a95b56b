use uefi_ui::input::{Key, KeyEvent, Modifiers};
use uefi_ui::widgets::date_select::DateField;
use uefi_ui::widgets::menu_tree::MenuTree;
use uefi_ui::widgets::{
    days_in_month, is_leap_year, Button, Checkbox, DateSelect, DateSelectAction, Dropdown,
    DropdownAction, Icon, IconButton, Label, ListBox, MenuAction, MenuEntry, MenuNavigator,
    NavBar, NumberField, RadioGroup, ScrollArea, Toggle,
};

#[test]
fn button_default_not_pressed() {
    assert!(!Button::default().pressed);
    assert!(!Button::new().pressed);
}

#[test]
fn button_set_pressed() {
    let mut b = Button::new();
    b.set_pressed(true);
    assert!(b.pressed);
    b.set_pressed(false);
    assert!(!b.pressed);
}

#[test]
fn starts_unchecked() {
    let cb = Checkbox::new(false);
    assert!(!cb.checked());
}

#[test]
fn toggle_flips_state() {
    let mut cb = Checkbox::new(false);
    cb.toggle();
    assert!(cb.checked());
    cb.toggle();
    assert!(!cb.checked());
}

#[test]
fn set_forces_value() {
    let mut cb = Checkbox::new(false);
    cb.set(true);
    assert!(cb.checked());
    cb.set(false);
    assert!(!cb.checked());
}

#[test]
fn leap_february() {
    assert_eq!(days_in_month(2024, 2), 29);
    assert_eq!(days_in_month(2023, 2), 28);
}

#[test]
fn leap_year_rules() {
    assert!(is_leap_year(2000));
    assert!(!is_leap_year(1900));
    assert!(is_leap_year(-4));
    assert!(!is_leap_year(-100));
    assert!(is_leap_year(-400));
    assert_eq!(days_in_month(2023, 4), 30);
    assert_eq!(days_in_month(2023, 13), 31);
}

#[test]
fn feb29_clamps_to_28_when_not_leap() {
    let d = DateSelect::new(2023, 2, 29);
    assert_eq!(d.day, 28);
}

#[test]
fn month_bump_crosses_year() {
    let mut d = DateSelect::new(2023, 12, 15);
    d.focus = DateField::Month;
    assert_eq!(d.apply_key_event(&KeyEvent::new(Key::Up)), Some(DateSelectAction::Changed));
    assert_eq!(d.year, 2024);
    assert_eq!(d.month, 1);
}

#[test]
fn date_focus_cycles_and_other_keys_do_nothing() {
    let mut d = DateSelect::new(2020, 5, 5);
    assert_eq!(d.focus, DateField::Day);
    assert_eq!(d.apply_key_event(&KeyEvent::new(Key::Tab)), None);
    assert_eq!(d.focus, DateField::Year);
    assert_eq!(d.apply_key_event(&KeyEvent::new(Key::Left)), None);
    assert_eq!(d.focus, DateField::Day);
    assert_eq!(d.apply_key_event(&KeyEvent::new(Key::Enter)), None);
    assert_eq!((d.year, d.month, d.day), (2020, 5, 5));
}

#[test]
fn select_on_enter() {
    let opts: &[&str] = &["a", "b", "c"];
    let mut d = Dropdown::new(opts, 0);
    d.toggle_open();
    d.apply_key(Key::Down);
    d.apply_key(Key::Down);
    assert_eq!(d.apply_key(Key::Enter), Some(DropdownAction::Selected(2)));
    assert!(!d.open);
}

#[test]
fn dropdown_escape_closes_without_change() {
    let opts: &[&str] = &["a", "b", "c"];
    let mut d = Dropdown::new(opts, 1);
    d.toggle_open();
    d.apply_key(Key::Up);
    assert_eq!(d.apply_key(Key::Escape), Some(DropdownAction::Closed));
    assert_eq!(d.selected, 1);
    assert!(!d.open);
}

#[test]
fn icon_button_new_and_press() {
    let mut b = IconButton::new(Icon::new('x', 16));
    assert_eq!(b.icon.codepoint, 'x');
    assert_eq!(b.icon.size_px, 16);
    assert!(!b.pressed);
    b.set_pressed(true);
    assert!(b.pressed);
}

#[test]
fn label_holds_text() {
    let l = Label::new("hello");
    assert_eq!(l.text, "hello");
}

#[test]
fn open_submenu_and_activate() {
    let children = [MenuEntry::Item {
        label: "x",
        id: 99,
    }];
    let roots = [
        MenuEntry::Submenu {
            label: "File",
            children: &children,
        },
        MenuEntry::Item {
            label: "Quit",
            id: 1,
        },
    ];
    let tree = MenuTree { roots: &roots };
    let mut nav = MenuNavigator::default();
    assert_eq!(
        nav.apply_key(&tree, Key::Right),
        Some(MenuAction::SubmenuOpened)
    );
    assert_eq!(
        nav.apply_key(&tree, Key::Enter),
        Some(MenuAction::Activated(99))
    );
}

static FILE: &[&str] = &["A", "B"];
static SUBS: &[Option<&[&str]>] = &[Some(FILE), None];

#[test]
fn down_opens_then_moves() {
    let labels: &[&str] = &["File", "Help"];
    let mut n = NavBar::new(labels, SUBS);
    assert!(n.apply_key_event(&KeyEvent::new(Key::Down)).is_none());
    assert_eq!(n.open, Some((0, 0)));
    n.apply_key_event(&KeyEvent::new(Key::Down));
    assert_eq!(n.open, Some((0, 1)));
}

#[test]
fn left_switches_top_while_open() {
    let labels: &[&str] = &["File", "Help"];
    let mut n = NavBar::new(labels, SUBS);
    n.apply_key_event(&KeyEvent::new(Key::Down));
    assert_eq!(n.open, Some((0, 0)));
    n.apply_key_event(&KeyEvent::new(Key::Right));
    assert_eq!(n.top.focused_index(), 1);
    assert!(n.open.is_none());
}

#[test]
fn pointer_toggle_closes_same_top_submenu() {
    let labels: &[&str] = &["File", "Help"];
    let mut n = NavBar::new(labels, SUBS);
    n.pointer_activate_top(0);
    assert_eq!(n.open, Some((0, 0)));
    n.pointer_activate_top(0);
    assert!(n.open.is_none());
}

#[test]
fn clamps() {
    let mut n = NumberField::new(5, 0, 10, 2);
    n.increment();
    assert_eq!(n.value, 7);
    for _ in 0..10 {
        n.increment();
    }
    assert_eq!(n.value, 10);
}

#[test]
fn number_field_keys() {
    let mut n = NumberField::new(5, 0, 10, 3);
    assert!(n.apply_key(Key::Down));
    assert_eq!(n.value, 2);
    assert!(n.apply_key(Key::Left));
    assert_eq!(n.value, 0);
    assert!(!n.apply_key(Key::Enter));
    assert_eq!(n.value, 0);
    let m = NumberField::new(50, 0, 10, 0);
    assert_eq!(m.value, 10);
    assert_eq!(m.step, 1);
}

#[test]
fn max_scroll_when_content_fits() {
    let a = ScrollArea::new(100, 50, 80, 40);
    assert_eq!(a.max_scroll_x(), 0);
    assert_eq!(a.max_scroll_y(), 0);
}

#[test]
fn max_scroll_when_larger_than_viewport() {
    let a = ScrollArea::new(100, 50, 300, 200);
    assert_eq!(a.max_scroll_x(), 200);
    assert_eq!(a.max_scroll_y(), 150);
}

#[test]
fn scroll_by_clamps() {
    let mut a = ScrollArea::new(10, 10, 100, 100);
    a.scroll_by(1000, 1000);
    assert_eq!(a.scroll_x, 90);
    assert_eq!(a.scroll_y, 90);
    a.scroll_by(-200, -200);
    assert_eq!(a.scroll_x, 0);
    assert_eq!(a.scroll_y, 0);
}

#[test]
fn flip_inverts() {
    let mut t = Toggle::new(false);
    t.flip();
    assert!(t.on);
    t.flip();
    assert!(!t.on);
}

#[test]
fn set_overrides() {
    let mut t = Toggle::new(true);
    t.set(false);
    assert!(!t.on);
}

#[test]
fn radio_wraps_both_ways() {
    let mut r = RadioGroup::new(3, 5);
    assert_eq!(r.selected, 2);
    r.next();
    assert_eq!(r.selected, 0);
    r.prev();
    assert_eq!(r.selected, 2);
    r.select(7);
    assert_eq!(r.selected, 2);
    let z = RadioGroup::new(0, 0);
    assert_eq!(z.count, 1);
}

#[test]
fn listbox_moves_and_scrolls() {
    let items: &[&str] = &["a", "b", "c", "d"];
    let mut l = ListBox::new(items);
    l.apply_key(Key::Down, 2);
    l.apply_key(Key::Down, 2);
    assert_eq!(l.selected, 2);
    assert_eq!(l.scroll_top, 1);
    l.apply_key_event(&KeyEvent::with_modifiers(Key::Up, Modifiers::none()), 2);
    assert_eq!(l.selected, 1);
}
