//! Directory tree state for a file browser pane: nodes with lazily filled children,
//! a selected path, and the flattened list of visible rows used for painting.
//!
//! A row is visible when all its ancestors are expanded. Rows come in pre-order:
//! a node, then (when it is expanded) its children's rows, then its next sibling.

use vstd::prelude::*;
use crate::input::Key;
use crate::text::{strings_model, clone_strings, strings_equal};

verus! {

/// One node in the directory tree.
#[derive(Debug)]
pub struct TreeNode {
    /// Display label (e.g. folder name).
    pub label: String,
    /// Path component of this node (joined to build a path).
    pub path_component: String,
    /// Child nodes (filled in when the node is expanded).
    pub children: Vec<TreeNode>,
    /// Whether the subtree is shown.
    pub expanded: bool,
}

/// One visible row of the flattened tree.
#[derive(Debug, Clone)]
pub struct FlatRow {
    pub level: usize,
    pub label: String,
    pub path: Vec<String>,
    pub has_children: bool,
    pub expanded: bool,
    pub selected: bool,
    /// Bit `L` is set when the vertical connector at indent level `L` runs through
    /// this row (more siblings follow at that level).
    pub continues_mask: u32,
}

/// The abstract content of a row.
pub struct RowModel {
    pub level: nat,
    pub label: Seq<char>,
    pub path: Seq<Seq<char>>,
    pub has_children: bool,
    pub expanded: bool,
    pub selected: bool,
    pub continues_mask: u32,
}

impl View for FlatRow {
    type V = RowModel;

    open spec fn view(&self) -> RowModel {
        RowModel {
            level: self.level as nat,
            label: self.label@,
            path: strings_model(self.path@),
            has_children: self.has_children,
            expanded: self.expanded,
            selected: self.selected,
            continues_mask: self.continues_mask,
        }
    }
}

/// The models of a run of rows.
pub open spec fn rows_model(v: Seq<FlatRow>) -> Seq<RowModel> {
    v.map_values(|r: FlatRow| r@)
}

/// Connector mask of a node: the parent's mask, plus bit `level` unless it is the last sibling.
pub open spec fn node_mask(mask: u32, level: nat, is_last: bool) -> u32 {
    if is_last { mask } else { mask | (1u32 << (level as u32)) }
}

/// Whether node `n`'s children are shown as rows.
pub open spec fn shows_children(n: TreeNode) -> bool {
    n.expanded && n.children@.len() > 0
}

/// The visible rows of siblings `nodes[i..]` at `level`, under the path `parent`, with
/// the connector mask `mask` of the parent; `sel` is the selected path.
pub open spec fn flat_from(
    nodes: Seq<TreeNode>,
    i: int,
    parent: Seq<Seq<char>>,
    level: nat,
    mask: u32,
    sel: Seq<Seq<char>>,
) -> Seq<RowModel>
    decreases nodes, nodes.len() - i,
{
    if i < 0 || i >= nodes.len() {
        Seq::empty()
    } else {
        let n = nodes[i];
        let path = parent.push(n.path_component@);
        let m = node_mask(mask, level, i == nodes.len() - 1);
        let row = RowModel {
            level,
            label: n.label@,
            path,
            has_children: n.children@.len() > 0,
            expanded: n.expanded,
            selected: path == sel,
            continues_mask: m,
        };
        let sub = if shows_children(n) {
            proof { assert(decreases_to!(nodes => nodes[i])); }
            flat_from(n.children@, 0, path, level + 1, m, sel)
        } else {
            Seq::empty()
        };
        seq![row] + sub + flat_from(nodes, i + 1, parent, level, mask, sel)
    }
}

/// Number of visible rows of `nodes[i..]`.
pub open spec fn count_from(nodes: Seq<TreeNode>, i: int) -> nat
    decreases nodes, nodes.len() - i,
{
    if i < 0 || i >= nodes.len() {
        0
    } else {
        let n = nodes[i];
        let sub = if n.expanded {
            proof { assert(decreases_to!(nodes => nodes[i])); }
            count_from(n.children@, 0)
        } else {
            0
        };
        1 + sub + count_from(nodes, i + 1)
    }
}

/// Flattening `nodes[i..]` from `level` never shifts the connector mask past bit 31,
/// and levels stay in `usize`.
pub open spec fn masks_fit(nodes: Seq<TreeNode>, i: int, level: nat) -> bool
    decreases nodes, nodes.len() - i,
{
    if i < 0 || i >= nodes.len() {
        true
    } else {
        let n = nodes[i];
        &&& level <= usize::MAX
        &&& (i < nodes.len() - 1 ==> level < 32)
        &&& (shows_children(n) ==> level + 1 <= usize::MAX && {
            proof { assert(decreases_to!(nodes => nodes[i])); }
            masks_fit(n.children@, 0, level + 1)
        })
        &&& masks_fit(nodes, i + 1, level)
    }
}

/// Number of visible rows of `nodes`.
fn count_rows(nodes: &[TreeNode]) -> (r: usize)
    requires
        count_from(nodes@, 0) <= usize::MAX,
    ensures
        r == count_from(nodes@, 0),
    decreases nodes@,
{
    let mut n: usize = 0;
    let mut i: usize = 0;
    while i < nodes.len()
        invariant
            i <= nodes@.len(),
            n + count_from(nodes@, i as int) == count_from(nodes@, 0),
            count_from(nodes@, 0) <= usize::MAX,
        decreases nodes@.len() - i,
    {
        let node = &nodes[i];
        let sub = if node.expanded {
            proof { assert(decreases_to!(nodes@ => nodes@[i as int])); }
            count_rows(node.children.as_slice())
        } else {
            0
        };
        n = n + 1 + sub;
        i = i + 1;
    }
    n
}

/// Append the visible rows of `nodes` (see [`flat_from`]) to `out`.
fn flatten(
    nodes: &[TreeNode],
    parent_path: &Vec<String>,
    level: usize,
    continues_mask: u32,
    selected_path: &[String],
    out: &mut Vec<FlatRow>,
)
    requires
        masks_fit(nodes@, 0, level as nat),
    ensures
        rows_model(final(out)@) == rows_model(old(out)@) + flat_from(
            nodes@, 0, strings_model(parent_path@), level as nat, continues_mask, strings_model(selected_path@)),
    decreases nodes@,
{
    let ghost pm = strings_model(parent_path@);
    let ghost sm = strings_model(selected_path@);
    let count = nodes.len();
    let mut i: usize = 0;
    while i < count
        invariant
            count == nodes@.len(),
            i <= count,
            masks_fit(nodes@, i as int, level as nat),
            pm == strings_model(parent_path@),
            sm == strings_model(selected_path@),
            rows_model(out@) + flat_from(nodes@, i as int, pm, level as nat, continues_mask, sm)
                == rows_model(old(out)@) + flat_from(nodes@, 0, pm, level as nat, continues_mask, sm),
        decreases count - i,
    {
        let node = &nodes[i];
        let mut path = clone_strings(parent_path);
        let ghost p0 = strings_model(path@);
        path.push(node.path_component.clone());
        assert(strings_model(path@) =~= pm.push(node.path_component@));
        let selected = strings_equal(path.as_slice(), selected_path);
        let my_mask = if i == count - 1 {
            continues_mask
        } else {
            let sh: u32 = level as u32;
            continues_mask | (1u32 << sh)
        };
        let row = FlatRow {
            level,
            label: node.label.clone(),
            path: clone_strings(&path),
            has_children: node.children.len() > 0,
            expanded: node.expanded,
            selected,
            continues_mask: my_mask,
        };
        let ghost before = rows_model(out@);
        out.push(row);
        assert(rows_model(out@) =~= before.push(row@));
        let ghost mid = rows_model(out@);
        if node.expanded && node.children.len() > 0 {
            proof { assert(decreases_to!(nodes@ => nodes@[i as int])); }
            flatten(node.children.as_slice(), &path, level + 1, my_mask, selected_path, out);
        }
        let ghost tail = flat_from(nodes@, i + 1, pm, level as nat, continues_mask, sm);
        let ghost sub = if shows_children(nodes@[i as int]) {
            flat_from(nodes@[i as int].children@, 0, pm.push(nodes@[i as int].path_component@), level as nat + 1, my_mask, sm)
        } else {
            Seq::empty()
        };
        assert(flat_from(nodes@, i as int, pm, level as nat, continues_mask, sm) == seq![row@] + sub + tail);
        assert(rows_model(out@) == before.push(row@) + sub);
        assert(rows_model(out@) + tail =~= before + (seq![row@] + sub + tail));
        i = i + 1;
    }
}

impl TreeNode {
    /// A collapsed node without children.
    pub fn new(label: &str, path_component: &str) -> (r: Self)
        ensures
            r.label@ == label@,
            r.path_component@ == path_component@,
            r.children@.len() == 0,
            !r.expanded,
    {
        TreeNode {
            label: label.to_owned(),
            path_component: path_component.to_owned(),
            children: Vec::new(),
            expanded: false,
        }
    }

    /// The node with `children` as its children.
    pub fn with_children(self, children: Vec<TreeNode>) -> (r: Self)
        ensures
            r.label == self.label,
            r.path_component == self.path_component,
            r.children == children,
            r.expanded == self.expanded,
    {
        let mut n = self;
        n.children = children;
        n
    }
}

/// Full tree state: roots, selected path and vertical scroll.
#[derive(Debug)]
pub struct TreeViewState {
    pub roots: Vec<TreeNode>,
    /// Path components of the selected node (empty: nothing selected).
    pub selected_path: Vec<String>,
    /// First visible row (0-based) for vertical scrolling.
    pub scroll_top: usize,
}

/// The visible rows of a tree state.
pub open spec fn tree_rows(s: TreeViewState) -> Seq<RowModel> {
    flat_from(s.roots@, 0, Seq::empty(), 0, 0, strings_model(s.selected_path@))
}

impl TreeViewState {
    pub fn new(roots: Vec<TreeNode>) -> (r: Self)
        ensures
            r.roots == roots,
            r.selected_path@.len() == 0,
            r.scroll_top == 0,
    {
        TreeViewState { roots, selected_path: Vec::new(), scroll_top: 0 }
    }

    /// Number of visible rows.
    pub fn flat_row_count(&self) -> (r: usize)
        requires
            count_from(self.roots@, 0) <= usize::MAX,
        ensures
            r == count_from(self.roots@, 0),
    {
        count_rows(self.roots.as_slice())
    }

    /// The visible rows, in order, for painting.
    pub fn flat_rows(&self) -> (r: Vec<FlatRow>)
        requires
            masks_fit(self.roots@, 0, 0),
        ensures
            rows_model(r@) == tree_rows(*self),
    {
        let mut out: Vec<FlatRow> = Vec::new();
        let root: Vec<String> = Vec::new();
        flatten(self.roots.as_slice(), &root, 0, 0, self.selected_path.as_slice(), &mut out);
        assert(strings_model(root@) =~= Seq::<Seq<char>>::empty());
        assert(rows_model(Seq::<FlatRow>::empty()) + tree_rows(*self) =~= tree_rows(*self));
        out
    }
}

/// Index of the first row of `rows[k..]` that is selected.
pub open spec fn first_selected(rows: Seq<RowModel>, k: int) -> Option<int>
    decreases rows.len() - k,
{
    if k < 0 || k >= rows.len() {
        None
    } else if rows[k].selected {
        Some(k)
    } else {
        first_selected(rows, k + 1)
    }
}

/// Row reached from the selected row by `delta` rows, clamped to the rows; the first
/// row when none is selected.
pub open spec fn nav_target(rows: Seq<RowModel>, delta: int) -> int {
    match first_selected(rows, 0) {
        None => 0,
        Some(i) => if i + delta < 0 { 0 } else if i + delta > rows.len() - 1 { rows.len() - 1 } else { i + delta },
    }
}

/// Scroll position that keeps row `idx` inside a window of `visible` rows (at least 1).
pub open spec fn scrolled_to(top: int, idx: int, visible: int) -> int {
    let v = if visible < 1 { 1 } else { visible };
    if idx < top { idx } else if idx >= top + v { idx + 1 - v } else { top }
}

/// Moving the selection by `delta` rows: the selected path becomes that row's path and
/// the scroll keeps it visible; nothing changes when no row is visible.
pub open spec fn nav_effect(old: TreeViewState, new: TreeViewState, delta: int, visible: int) -> bool {
    let rows = tree_rows(old);
    if rows.len() == 0 {
        new == old
    } else {
        let t = nav_target(rows, delta);
        &&& new.roots == old.roots
        &&& strings_model(new.selected_path@) == rows[t].path
        &&& new.scroll_top == scrolled_to(old.scroll_top as int, t, visible)
    }
}

/// Index of the first node of `nodes[k..]` whose path component is `c`, or -1.
pub open spec fn find_comp(nodes: Seq<TreeNode>, c: Seq<char>, k: int) -> int
    decreases nodes.len() - k,
{
    if k < 0 || k >= nodes.len() {
        -1
    } else if nodes[k].path_component@ == c {
        k
    } else {
        find_comp(nodes, c, k + 1)
    }
}

/// `new` is `old` with the node at `path` (followed from the first matching component
/// at each level) set to `expanded == e`; unchanged when the path is empty or not found.
pub open spec fn expanded_at(old: Seq<TreeNode>, new: Seq<TreeNode>, path: Seq<Seq<char>>, e: bool) -> bool
    decreases path.len(),
{
    if path.len() == 0 {
        new == old
    } else {
        let i = find_comp(old, path[0], 0);
        if i < 0 {
            new == old
        } else {
            &&& new.len() == old.len()
            &&& forall|j: int| 0 <= j < old.len() && j != i ==> new[j] == old[j]
            &&& new[i].label == old[i].label
            &&& new[i].path_component == old[i].path_component
            &&& if path.len() == 1 {
                new[i].expanded == e && new[i].children == old[i].children
            } else {
                new[i].expanded == old[i].expanded && expanded_at(old[i].children@, new[i].children@, path.drop_first(), e)
            }
        }
    }
}

/// Whether the visible rows of a tree state fit the connector mask.
pub open spec fn tree_masks_fit(s: TreeViewState) -> bool {
    masks_fit(s.roots@, 0, 0)
}

/// The effect of one key on a tree state: Up / Down move the selection, Left
/// collapses and Right expands the selected node; other keys change nothing.
pub open spec fn key_effect(old: TreeViewState, new: TreeViewState, key: Key, visible: int) -> bool {
    match key {
        Key::Up => nav_effect(old, new, -1, visible),
        Key::Down => nav_effect(old, new, 1, visible),
        Key::Left | Key::Right => {
            &&& expanded_at(old.roots@, new.roots@, strings_model(old.selected_path@), key == Key::Right)
            &&& new.selected_path == old.selected_path
            &&& new.scroll_top == old.scroll_top
        },
        _ => new == old,
    }
}

/// Set the expanded flag of the node at `path[start..]` within `nodes`.
fn set_expanded(nodes: &mut Vec<TreeNode>, path: &[String], start: usize, e: bool)
    requires
        start <= path@.len(),
    ensures
        expanded_at(old(nodes)@, final(nodes)@, strings_model(path@).skip(start as int), e),
    decreases path@.len() - start,
{
    let ghost p = strings_model(path@).skip(start as int);
    if start >= path.len() {
        return;
    }
    assert(p[0] == path@[start as int]@);
    let mut i: usize = 0;
    while i < nodes.len()
        invariant
            start < path@.len(),
            i <= nodes@.len(),
            nodes@ == old(nodes)@,
            p == strings_model(path@).skip(start as int),
            p[0] == path@[start as int]@,
            find_comp(nodes@, p[0], 0) == find_comp(nodes@, p[0], i as int),
        decreases nodes@.len() - i,
    {
        if nodes[i].path_component == path[start] {
            let mut node = nodes.remove(i);
            if start + 1 == path.len() {
                node.expanded = e;
            } else {
                set_expanded(&mut node.children, path, start + 1, e);
                assert(strings_model(path@).skip(start + 1) =~= p.drop_first());
            }
            nodes.insert(i, node);
            assert(nodes@ =~= old(nodes)@.update(i as int, node));
            return;
        }
        i = i + 1;
    }
}

impl TreeViewState {
    /// Move the selection by one row (`up` or down), keeping it in view.
    fn nav(&mut self, up: bool, visible_rows: usize)
        requires
            tree_masks_fit(*old(self)),
        ensures
            nav_effect(*old(self), *final(self), if up { -1 } else { 1 }, visible_rows as int),
    {
        let rows = self.flat_rows();
        let ghost rm = rows_model(rows@);
        let n = rows.len();
        if n == 0 {
            return;
        }
        let mut k: usize = 0;
        while k < n && !rows[k].selected
            invariant
                n == rows@.len(),
                rm == rows_model(rows@),
                k <= n,
                first_selected(rm, 0) == first_selected(rm, k as int),
            decreases n - k,
        {
            assert(rm[k as int] == rows@[k as int]@);
            k = k + 1;
        }
        proof {
            if k < n {
                assert(rm[k as int] == rows@[k as int]@);
            }
        }
        let new_idx: usize = if k >= n {
            0
        } else if up {
            if k == 0 { 0 } else { k - 1 }
        } else {
            if k + 1 >= n { n - 1 } else { k + 1 }
        };
        assert(rm[new_idx as int] == rows@[new_idx as int]@);
        self.selected_path = clone_strings(&rows[new_idx].path);
        let v = if visible_rows < 1 { 1 } else { visible_rows };
        if new_idx < self.scroll_top {
            self.scroll_top = new_idx;
        } else if new_idx - self.scroll_top >= v {
            self.scroll_top = new_idx - v + 1;
        }
    }

    /// Apply a navigation key (see [`key_effect`]).
    pub fn apply_key(&mut self, key: Key, visible_rows: usize)
        requires
            key == Key::Up || key == Key::Down ==> tree_masks_fit(*old(self)),
        ensures
            key_effect(*old(self), *final(self), key, visible_rows as int),
    {
        match key {
            Key::Up => self.nav(true, visible_rows),
            Key::Down => self.nav(false, visible_rows),
            Key::Left => {
                let path = clone_strings(&self.selected_path);
                set_expanded(&mut self.roots, path.as_slice(), 0, false);
                assert(strings_model(path@).skip(0) =~= strings_model(path@));
            },
            Key::Right => {
                let path = clone_strings(&self.selected_path);
                set_expanded(&mut self.roots, path.as_slice(), 0, true);
                assert(strings_model(path@).skip(0) =~= strings_model(path@));
            },
            _ => {},
        }
    }
}

proof fn lemma_first_selected_is(rows: Seq<RowModel>, i: int, k: int)
    requires
        0 <= k <= i < rows.len(),
        rows[i].selected,
        forall|j: int| 0 <= j < i ==> !rows[j].selected,
    ensures
        first_selected(rows, k) == Some(i),
    decreases i - k,
{
    if k < i {
        lemma_first_selected_is(rows, i, k + 1);
    }
}

proof fn lemma_first_selected_none(rows: Seq<RowModel>, k: int)
    requires
        0 <= k <= rows.len(),
        forall|j: int| 0 <= j < rows.len() ==> !rows[j].selected,
    ensures
        first_selected(rows, k) is None,
    decreases rows.len() - k,
{
    if k < rows.len() {
        lemma_first_selected_none(rows, k + 1);
    }
}

/// Up and Down move the selection by exactly one visible row, stopping at the ends:
/// from the selected row `i` (the first one marked), Up selects row `i - 1` and Down
/// row `i + 1` (row `i` itself at the first or last row); with no row selected either
/// key selects the first row. The tree itself does not change.
pub proof fn lemma_up_down_move_one_row(old: TreeViewState, new: TreeViewState, key: Key, visible: int, i: int)
    requires
        key == Key::Up || key == Key::Down,
        key_effect(old, new, key, visible),
        0 <= i < tree_rows(old).len(),
        tree_rows(old)[i].selected,
        forall|j: int| 0 <= j < i ==> !tree_rows(old)[j].selected,
    ensures
        new.roots == old.roots,
        key == Key::Up ==> strings_model(new.selected_path@)
            == tree_rows(old)[if i > 0 { i - 1 } else { 0 }].path,
        key == Key::Down ==> strings_model(new.selected_path@)
            == tree_rows(old)[if i + 1 < tree_rows(old).len() { i + 1 } else { i }].path,
{
    lemma_first_selected_is(tree_rows(old), i, 0);
}

/// With no visible row selected, Up and Down select the first row.
pub proof fn lemma_nav_without_selection(old: TreeViewState, new: TreeViewState, key: Key, visible: int)
    requires
        key == Key::Up || key == Key::Down,
        key_effect(old, new, key, visible),
        tree_rows(old).len() > 0,
        forall|j: int| 0 <= j < tree_rows(old).len() ==> !tree_rows(old)[j].selected,
    ensures
        new.roots == old.roots,
        strings_model(new.selected_path@) == tree_rows(old)[0].path,
{
    lemma_first_selected_none(tree_rows(old), 0);
}

/// The count of visible rows of siblings `nodes[i..]` is the number of rows they flatten to.
pub proof fn lemma_count_flat(
    nodes: Seq<TreeNode>,
    i: int,
    parent: Seq<Seq<char>>,
    level: nat,
    mask: u32,
    sel: Seq<Seq<char>>,
)
    ensures
        count_from(nodes, i) == flat_from(nodes, i, parent, level, mask, sel).len(),
    decreases nodes, nodes.len() - i,
{
    if 0 <= i < nodes.len() {
        let n = nodes[i];
        let path = parent.push(n.path_component@);
        let m = node_mask(mask, level, i == nodes.len() - 1);
        assert(decreases_to!(nodes => nodes[i]));
        lemma_count_flat(n.children@, 0, path, level + 1, m, sel);
        lemma_count_flat(nodes, i + 1, parent, level, mask, sel);
        if n.expanded && n.children@.len() == 0 {
            assert(count_from(n.children@, 0) == 0);
        }
    }
}

/// `flat_row_count` counts exactly the rows that `flat_rows` lists.
pub proof fn lemma_row_count(s: TreeViewState)
    ensures
        count_from(s.roots@, 0) == tree_rows(s).len(),
{
    lemma_count_flat(s.roots@, 0, Seq::empty(), 0, 0, strings_model(s.selected_path@));
}

} // verus!
