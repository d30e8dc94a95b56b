use uefi_ui::demo::demo_gallery::GalleryFocus;
use uefi_ui::demo::layout::Focus;
use uefi_ui::demo::tab_order::{apply_tab, tab_index_to_state, tab_slot_count, tab_state_to_index};
use uefi_ui::input::Key;
use uefi_ui::tree_view::{TreeNode, TreeViewState};

fn sample_tree() -> TreeViewState {
    TreeViewState::new(vec![
        TreeNode::new("C:", "C:").with_children(vec![
            TreeNode::new("EFI", "EFI").with_children(vec![
                TreeNode::new("Boot", "Boot"),
                TreeNode::new("Microsoft", "Microsoft"),
            ]),
            TreeNode::new("Windows", "Windows"),
        ]),
    ])
}

#[test]
fn flat_collapsed() {
    let t = sample_tree();
    assert_eq!(t.flat_row_count(), 1);
    let rows = t.flat_rows();
    assert_eq!(rows.len(), 1);
    assert_eq!(rows[0].label, "C:");
}

#[test]
fn flat_expanded_one_level() {
    let mut t = sample_tree();
    t.roots[0].expanded = true;
    let rows = t.flat_rows();
    assert_eq!(rows.len(), 3);
    assert_eq!(rows[1].level, 1);
    assert_eq!(rows[1].label, "EFI");
    assert_eq!(rows[1].continues_mask & 0b10, 0b10);
    assert_eq!(rows[2].continues_mask & 0b10, 0);
}

#[test]
fn nav_wraps() {
    let mut t = sample_tree();
    t.roots[0].expanded = true;
    t.selected_path = vec![String::from("C:")];
    t.apply_key(Key::Up, 5);
    assert_eq!(t.selected_path, vec![String::from("C:")]);
    t.apply_key(Key::Down, 5);
    assert_eq!(t.selected_path, vec![String::from("C:"), String::from("EFI")]);
}

#[test]
fn expand_collapse_via_key() {
    let mut t = sample_tree();
    t.selected_path = vec![String::from("C:")];
    t.apply_key(Key::Right, 5);
    assert!(t.roots[0].expanded);
    t.apply_key(Key::Left, 5);
    assert!(!t.roots[0].expanded);
}

#[test]
fn row_count_matches_rows_when_fully_expanded() {
    let mut t = sample_tree();
    t.roots[0].expanded = true;
    t.roots[0].children[0].expanded = true;
    let rows = t.flat_rows();
    assert_eq!(t.flat_row_count(), rows.len());
    assert_eq!(rows.len(), 5);
    let labels: Vec<&str> = rows.iter().map(|r| r.label.as_str()).collect();
    assert_eq!(labels, vec!["C:", "EFI", "Boot", "Microsoft", "Windows"]);
    assert_eq!(rows[2].path, vec![String::from("C:"), String::from("EFI"), String::from("Boot")]);
    assert_eq!(rows[2].level, 2);
}

#[test]
fn selection_marks_row_and_scroll_follows() {
    let mut t = sample_tree();
    t.roots[0].expanded = true;
    t.roots[0].children[0].expanded = true;
    t.apply_key(Key::Down, 2);
    assert_eq!(t.selected_path, vec![String::from("C:")]);
    t.apply_key(Key::Down, 2);
    t.apply_key(Key::Down, 2);
    assert_eq!(t.scroll_top, 1);
    let rows = t.flat_rows();
    assert!(rows[2].selected);
    assert!(!rows[1].selected);
}

#[test]
fn index_state_roundtrip_all_slots() {
    for sb in [false, true] {
        let n = tab_slot_count(sb);
        for i in 0..n {
            let (f, g) = tab_index_to_state(i, sb);
            let j = tab_state_to_index(f, g, sb);
            assert_eq!(j, i, "sb={sb} i={i}");
        }
    }
}

#[test]
fn full_cycle_returns_to_start() {
    for sb in [false, true] {
        let n = tab_slot_count(sb);
        for start in 0..n {
            let (mut f, mut g) = tab_index_to_state(start, sb);
            for _ in 0..n {
                apply_tab(&mut f, &mut g, sb, false);
            }
            let end = tab_state_to_index(f, g, sb);
            assert_eq!(end, start, "sb={sb} start={start}");
        }
    }
}

#[test]
fn tab_cycle_randomized_starts() {
    let mut seed: u64 = 0xDEADBEEF;
    for _ in 0..300 {
        seed = seed
            .wrapping_mul(1103515245)
            .wrapping_add(12345);
        let sb = (seed & 1) != 0;
        let n = tab_slot_count(sb);
        if n == 0 {
            continue;
        }
        let start = (seed as usize >> 8) % n;
        let (mut f, mut g) = tab_index_to_state(start, sb);
        for _ in 0..n {
            apply_tab(&mut f, &mut g, sb, false);
        }
        assert_eq!(
            tab_state_to_index(f, g, sb),
            start,
            "seed={} sb={} start={}",
            seed,
            sb,
            start
        );
    }
}

#[test]
fn tab_order_concrete_slots() {
    assert_eq!(tab_slot_count(false), 15);
    assert_eq!(tab_slot_count(true), 16);
    assert!(tab_index_to_state(2, true) == (Focus::Scrollbar, GalleryFocus::CheckA));
    assert!(tab_index_to_state(2, false) == (Focus::Gallery, GalleryFocus::CheckA));
    assert!(tab_index_to_state(17, true) == (Focus::Editor, GalleryFocus::CheckA));
    assert_eq!(tab_state_to_index(Focus::Gallery, GalleryFocus::Graph, true), 15);
    let mut f = Focus::Menu;
    let mut g = GalleryFocus::CheckA;
    apply_tab(&mut f, &mut g, false, true);
    assert!(f == Focus::Gallery && g == GalleryFocus::Graph);
    apply_tab(&mut f, &mut g, false, false);
    assert!(f == Focus::Menu);
    assert_eq!(GalleryFocus::Graph.next(), GalleryFocus::CheckA);
    assert_eq!(GalleryFocus::Radio.next(), GalleryFocus::Number);
}
