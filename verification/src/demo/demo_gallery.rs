//! Widget gallery strip: the order of its focusable controls.

use vstd::prelude::*;
use crate::geometry::{Point, Rectangle, Size};
use crate::widgets::dropdown::{Dropdown, DropdownModel, dropdown_step};
use crate::widgets::checkbox::Checkbox;
use crate::widgets::toggle::Toggle;
use crate::widgets::radio::RadioGroup;
use crate::widgets::number_field::{NumberField, number_key_result};
use crate::widgets::date_select::{DateSelect, DateField, date_key_result, bump_in_range};
use crate::widgets::menu_tree::{MenuTree, MenuNavigator, MenuAction, MenuEntry, menu_nav_step};
use crate::input::{Key, KeyEvent};
use crate::text::push_chars;
use crate::layout::{at_least1, pad, padded, pad_ok};
use crate::popover::div_trunc;
use crate::demo::layout::sat_sub;

verus! {

/// Focusable controls of the gallery strip, in Tab order.
#[derive(Clone, Copy, PartialEq, Eq, Debug, Structural)]
pub enum GalleryFocus {
    CheckA,
    CheckB,
    Toggle,
    Radio,
    Number,
    Slider,
    Progress,
    DemoTabs,
    Dropdown,
    List,
    Date,
    Tree,
    Graph,
}

/// Number of gallery controls in the Tab order.
pub const GALLERY_FOCUS_LEN: usize = 13;

/// Position of a control in the gallery Tab order.
pub open spec fn gallery_index(g: GalleryFocus) -> int {
    match g {
        GalleryFocus::CheckA => 0,
        GalleryFocus::CheckB => 1,
        GalleryFocus::Toggle => 2,
        GalleryFocus::Radio => 3,
        GalleryFocus::Number => 4,
        GalleryFocus::Slider => 5,
        GalleryFocus::Progress => 6,
        GalleryFocus::DemoTabs => 7,
        GalleryFocus::Dropdown => 8,
        GalleryFocus::List => 9,
        GalleryFocus::Date => 10,
        GalleryFocus::Tree => 11,
        GalleryFocus::Graph => 12,
    }
}

/// Control at position `i` of the gallery Tab order (the first one when out of range).
pub open spec fn gallery_at(i: int) -> GalleryFocus {
    if i == 1 {
        GalleryFocus::CheckB
    } else if i == 2 {
        GalleryFocus::Toggle
    } else if i == 3 {
        GalleryFocus::Radio
    } else if i == 4 {
        GalleryFocus::Number
    } else if i == 5 {
        GalleryFocus::Slider
    } else if i == 6 {
        GalleryFocus::Progress
    } else if i == 7 {
        GalleryFocus::DemoTabs
    } else if i == 8 {
        GalleryFocus::Dropdown
    } else if i == 9 {
        GalleryFocus::List
    } else if i == 10 {
        GalleryFocus::Date
    } else if i == 11 {
        GalleryFocus::Tree
    } else if i == 12 {
        GalleryFocus::Graph
    } else {
        GalleryFocus::CheckA
    }
}

/// The gallery order lists every control once: position and control determine each other.
pub proof fn lemma_gallery_order_bijective(g: GalleryFocus, i: int)
    ensures
        0 <= gallery_index(g) < GALLERY_FOCUS_LEN,
        gallery_at(gallery_index(g)) == g,
        0 <= i < GALLERY_FOCUS_LEN ==> gallery_index(gallery_at(i)) == i,
{
}

impl Default for GalleryFocus {
    fn default() -> (r: Self)
        ensures
            r == GalleryFocus::CheckA,
    {
        GalleryFocus::CheckA
    }
}

impl GalleryFocus {
    /// Position in the gallery Tab order.
    pub fn position(self) -> (r: usize)
        ensures
            r == gallery_index(self),
    {
        match self {
            GalleryFocus::CheckA => 0,
            GalleryFocus::CheckB => 1,
            GalleryFocus::Toggle => 2,
            GalleryFocus::Radio => 3,
            GalleryFocus::Number => 4,
            GalleryFocus::Slider => 5,
            GalleryFocus::Progress => 6,
            GalleryFocus::DemoTabs => 7,
            GalleryFocus::Dropdown => 8,
            GalleryFocus::List => 9,
            GalleryFocus::Date => 10,
            GalleryFocus::Tree => 11,
            GalleryFocus::Graph => 12,
        }
    }

    /// Control at position `i` of the gallery Tab order (the first one when out of range).
    pub fn at(i: usize) -> (r: GalleryFocus)
        ensures
            r == gallery_at(i as int),
    {
        if i == 1 {
            GalleryFocus::CheckB
        } else if i == 2 {
            GalleryFocus::Toggle
        } else if i == 3 {
            GalleryFocus::Radio
        } else if i == 4 {
            GalleryFocus::Number
        } else if i == 5 {
            GalleryFocus::Slider
        } else if i == 6 {
            GalleryFocus::Progress
        } else if i == 7 {
            GalleryFocus::DemoTabs
        } else if i == 8 {
            GalleryFocus::Dropdown
        } else if i == 9 {
            GalleryFocus::List
        } else if i == 10 {
            GalleryFocus::Date
        } else if i == 11 {
            GalleryFocus::Tree
        } else if i == 12 {
            GalleryFocus::Graph
        } else {
            GalleryFocus::CheckA
        }
    }

    /// Next control in the gallery strip, wrapping after the last.
    pub fn next(self) -> (r: Self)
        ensures
            r == gallery_at((gallery_index(self) + 1) % (GALLERY_FOCUS_LEN as int)),
    {
        GalleryFocus::at((self.position() + 1) % GALLERY_FOCUS_LEN)
    }
}

/// Checkbox / toggle box size.
pub const CB: u32 = 20;
/// Vertical gap between rows.
pub const ROW_GAP: i32 = 6;
/// Left inset of the label column.
pub const LABEL_COL: i32 = 4;
/// Width of the label column.
pub const LABEL_W: i32 = 88;

/// Height of a gallery row: the text line height, at least 15 px.
pub open spec fn row_h_spec(line_h: i32) -> int {
    if line_h < 15 { 15 } else { line_h as int }
}

/// Height of a gallery row: the text line height, at least 15 px.
pub fn row_h(line_h: i32) -> (r: i32)
    ensures
        r == row_h_spec(line_h),
{
    if line_h < 15 { 15 } else { line_h }
}

/// Geometry of the gallery controls, for painting and hit-testing.
#[derive(Clone, Copy, PartialEq, Eq, Debug, Structural)]
pub struct GalleryLayout {
    pub check_a: Rectangle,
    pub check_b: Rectangle,
    pub toggle_track: Rectangle,
    pub radio_row: Rectangle,
    pub number_field: Rectangle,
    pub slider_track: Rectangle,
    pub progress_track: Rectangle,
    pub tab_strip: Rectangle,
    pub dropdown_field: Rectangle,
    pub dropdown_btn: Rectangle,
    pub dropdown_popup: Option<Rectangle>,
    pub list_box: Rectangle,
    pub date_row: Rectangle,
    pub tree_row: Rectangle,
    pub graph: Rectangle,
}

/// Tops of the gallery rows, in order: title, checkboxes, toggle, radio, number, slider,
/// progress, tabs, dropdown, list, date, tree, graph (the list moves down below an
/// open dropdown list of `n` options).
pub open spec fn gallery_rows(inner: Rectangle, line_h: i32, open: bool, n: int) -> Seq<int> {
    let lh = row_h_spec(line_h);
    let y0 = inner.top_left.y + 4;
    let y1 = y0 + (lh + ROW_GAP);
    let y2 = y1 + (lh + ROW_GAP);
    let y3 = y2 + (lh + ROW_GAP);
    let y4 = y3 + (lh + ROW_GAP);
    let y5 = y4 + (lh + ROW_GAP);
    let y6 = y5 + (14 + ROW_GAP);
    let y7 = y6 + (12 + ROW_GAP);
    let y8 = y7 + (44 + ROW_GAP);
    let y9a = y8 + (lh + ROW_GAP);
    let y9 = if open { y9a + ((n as i32) * lh + 6 + ROW_GAP) } else { y9a };
    let y10 = y9 + (3 * lh + 6 + ROW_GAP);
    let y11 = y10 + (lh + ROW_GAP);
    let y12 = y11 + (lh * 2 + 4 + ROW_GAP);
    let y13 = y12 + (lh + ROW_GAP + lh + ROW_GAP);
    seq![y0, y1, y2, y3, y4, y5, y6, y7, y8, y9, y10, y11, y12, y13]
}

/// `full - LABEL_W - 8` (the control column width), at least `min`, as a `u32`.
pub open spec fn col_width(full: int, min: int) -> u32 {
    let v = full - LABEL_W - 8;
    (if v < min { min } else { v }) as u32
}

/// Whether `v` is an `i32` value.
pub open spec fn fits_i32(v: int) -> bool {
    i32::MIN <= v <= i32::MAX
}

/// Every intermediate of the gallery arithmetic fits in `i32`.
pub open spec fn gallery_layout_ok(inner: Rectangle, line_h: i32, open: bool, n: int) -> bool {
    let lh = row_h_spec(line_h);
    let rows = gallery_rows(inner, line_h, open, n);
    let y9a = rows[8] + (lh + ROW_GAP);
    let full = sat_sub(inner.size.width, 8) as i32 as int;
    let x0 = inner.top_left.x + LABEL_COL;
    let np = if n < 1 { 1 } else { n };
    &&& fits_i32(inner.top_left.y + 4)
    &&& fits_i32(x0)
    &&& fits_i32(x0 + LABEL_W)
    &&& fits_i32(x0 + LABEL_W + 96)
    &&& fits_i32(x0 + LABEL_W + sat_sub(col_width(full, 100), 30))
    &&& fits_i32(lh + ROW_GAP)
    &&& fits_i32(3 * lh + 6 + ROW_GAP)
    &&& fits_i32(lh * 2 + 4 + ROW_GAP)
    &&& fits_i32(lh + ROW_GAP + lh + ROW_GAP)
    &&& fits_i32(rows[1]) && fits_i32(rows[2]) && fits_i32(rows[3]) && fits_i32(rows[4])
    &&& fits_i32(rows[5]) && fits_i32(rows[6]) && fits_i32(rows[7]) && fits_i32(rows[8])
    &&& fits_i32(y9a) && fits_i32(rows[9]) && fits_i32(rows[10]) && fits_i32(rows[11])
    &&& fits_i32(rows[12]) && fits_i32(rows[13])
    &&& fits_i32(rows[7] + 4)
    &&& fits_i32(full - LABEL_W - 8)
    &&& fits_i32((np as i32) * lh) && fits_i32((np as i32) * lh + 6)
    &&& fits_i32(rows[8] + lh + 2)
    &&& open ==> fits_i32((n as i32) * lh) && fits_i32((n as i32) * lh + 6) && fits_i32((n as i32) * lh + 6 + ROW_GAP)
}

/// A rectangle from integer coordinates and sizes.
pub open spec fn rect(x: int, y: int, w: int, h: int) -> Rectangle {
    Rectangle { top_left: Point { x: x as i32, y: y as i32 }, size: Size { width: w as u32, height: h as u32 } }
}

/// The gallery geometry inside `inner` with text lines `line_h` px high; the dropdown
/// list (of `n` options) takes room below the dropdown when `open`.
pub open spec fn gallery_layout(inner: Rectangle, line_h: i32, open: bool, n: int) -> GalleryLayout {
    let lh = row_h_spec(line_h);
    let rows = gallery_rows(inner, line_h, open, n);
    let x = inner.top_left.x + LABEL_COL + LABEL_W;
    let full = sat_sub(inner.size.width, 8) as i32 as int;
    let dd_w = col_width(full, 100);
    let field = rect(x, rows[8], sat_sub(dd_w, 30) as int, lh);
    let btn = rect(field.top_left.x + field.size.width as i32, rows[8], 30, lh);
    let np = if n < 1 { 1 } else { n };
    GalleryLayout {
        check_a: rect(x, rows[1], CB as int, CB as int),
        check_b: rect(x + 96, rows[1], CB as int, CB as int),
        toggle_track: rect(x, rows[2], 40, CB as int),
        radio_row: rect(x, rows[3], 76, 20),
        number_field: rect(x, rows[4], 52, lh),
        slider_track: rect(x, rows[5], col_width(full, 48) as int, 14),
        progress_track: rect(x, rows[6], col_width(full, 48) as int, 12),
        tab_strip: rect(x, rows[7] + 4, col_width(full, 120) as int, 36),
        dropdown_field: field,
        dropdown_btn: btn,
        dropdown_popup: if open {
            Some(rect(field.top_left.x as int, rows[8] + lh + 2, field.size.width + btn.size.width, ((np as i32) * lh + 6) as i32 as u32 as int))
        } else {
            None
        },
        list_box: rect(x, rows[9], col_width(full, 80) as int, (3 * lh + 6) as i32 as u32 as int),
        date_row: rect(x, rows[10], col_width(full, 160) as int, lh),
        tree_row: rect(x, rows[11], col_width(full, 160) as int, (lh * 2 + 4) as i32 as u32 as int),
        graph: rect(x - 4, rows[13], (if full - LABEL_W < 100 { 100 } else { full - LABEL_W }) as u32 as int, 28),
    }
}

fn sat_sub_u32(a: u32, b: u32) -> (r: u32)
    ensures
        r == sat_sub(a, b as int),
{
    if a > b { a - b } else { 0 }
}

fn col_width_exec(full: i32, min: i32) -> (r: u32)
    requires
        fits_i32(full - LABEL_W - 8),
        min > 0,
    ensures
        r == col_width(full as int, min as int),
{
    let v = full - LABEL_W - 8;
    (if v < min { min } else { v }) as u32
}

/// Compute the gallery geometry inside `inner` (see [`gallery_layout`]); the dropdown's
/// open list takes room when it is open.
pub fn compute_gallery_layout(inner: &Rectangle, line_h: i32, dropdown: &Dropdown) -> (r: GalleryLayout)
    requires
        gallery_layout_ok(*inner, line_h, dropdown@.open, dropdown@.options.len() as int),
    ensures
        r == gallery_layout(*inner, line_h, dropdown@.open, dropdown@.options.len() as int),
{
    let ghost rows = gallery_rows(*inner, line_h, dropdown@.open, dropdown@.options.len() as int);
    let lh = row_h(line_h);
    let x0 = inner.top_left.x + LABEL_COL;
    let mut y = inner.top_left.y + 4;
    let full_w = sat_sub_u32(inner.size.width, 8) as i32;
    y = y + (lh + ROW_GAP);
    let x = x0 + LABEL_W;
    let check_a = Rectangle::new(Point::new(x, y), Size::new(CB, CB));
    let check_b = Rectangle::new(Point::new(x + 96, y), Size::new(CB, CB));
    y = y + (lh + ROW_GAP);
    let toggle_track = Rectangle::new(Point::new(x, y), Size::new(40, CB));
    y = y + (lh + ROW_GAP);
    let radio_row = Rectangle::new(Point::new(x, y), Size::new(76, 20));
    y = y + (lh + ROW_GAP);
    let number_field = Rectangle::new(Point::new(x, y), Size::new(52, lh as u32));
    y = y + (lh + ROW_GAP);
    let slider_track = Rectangle::new(Point::new(x, y), Size::new(col_width_exec(full_w, 48), 14));
    y = y + (14 + ROW_GAP);
    let progress_track = Rectangle::new(Point::new(x, y), Size::new(col_width_exec(full_w, 48), 12));
    y = y + (12 + ROW_GAP);
    let tab_strip = Rectangle::new(Point::new(x, y + 4), Size::new(col_width_exec(full_w, 120), 36));
    y = y + (44 + ROW_GAP);
    let dd_w = col_width_exec(full_w, 100);
    let dropdown_field = Rectangle::new(Point::new(x, y), Size::new(sat_sub_u32(dd_w, 30), lh as u32));
    let dropdown_btn = Rectangle::new(
        Point::new(dropdown_field.top_left.x + dropdown_field.size.width as i32, y),
        Size::new(30, lh as u32),
    );
    let open = dropdown.is_open();
    let n_opts = dropdown.option_count();
    let dropdown_popup = if open {
        let n = if n_opts < 1 { 1 } else { n_opts };
        let ph = ((n as i32) * lh + 6) as u32;
        Some(Rectangle::new(
            Point::new(dropdown_field.top_left.x, y + lh + 2),
            Size::new(dropdown_field.size.width + dropdown_btn.size.width, ph),
        ))
    } else {
        None
    };
    y = y + (lh + ROW_GAP);
    if open {
        let hh = (n_opts as i32) * lh + 6;
        y = y + (hh + ROW_GAP);
    }
    let list_box = Rectangle::new(Point::new(x, y), Size::new(col_width_exec(full_w, 80), (3 * lh + 6) as u32));
    y = y + (3 * lh + 6 + ROW_GAP);
    let date_row = Rectangle::new(Point::new(x, y), Size::new(col_width_exec(full_w, 160), lh as u32));
    y = y + (lh + ROW_GAP);
    let tree_h = lh * 2 + 4;
    let tree_row = Rectangle::new(Point::new(x, y), Size::new(col_width_exec(full_w, 160), tree_h as u32));
    y = y + (tree_h + ROW_GAP);
    y = y + (lh + ROW_GAP + lh + ROW_GAP);
    let gw = full_w - LABEL_W;
    let graph = Rectangle::new(Point::new(x - 4, y), Size::new((if gw < 100 { 100 } else { gw }) as u32, 28));
    GalleryLayout {
        check_a,
        check_b,
        toggle_track,
        radio_row,
        number_field,
        slider_track,
        progress_track,
        tab_strip,
        dropdown_field,
        dropdown_btn,
        dropdown_popup,
        list_box,
        date_row,
        tree_row,
        graph,
    }
}

/// Number of rows of the gallery's list box.
pub const LIST_ITEM_COUNT: usize = 3;

/// Changes to the gallery's fractional controls (slider and progress bar), which the
/// front end applies.
#[derive(Clone, Copy, PartialEq, Eq, Debug, Structural)]
pub enum GalleryEffect {
    /// Move the slider by `tenths` tenths of a unit, kept in its range.
    SliderStep(i32),
    /// Slider to its minimum.
    SliderToMin,
    /// Slider to its maximum.
    SliderToMax,
    /// Progress becomes one minus its value.
    ProgressInvert,
    /// Slider to the point `offset` px into a track `width` px wide (ratio clamped to 0..=1).
    SliderPoint { offset: i32, width: u32 },
}

/// State of the gallery's integer and text controls.
pub struct GalleryState<'a> {
    pub check_a: Checkbox,
    pub check_b: Checkbox,
    pub toggle: Toggle,
    pub radio: RadioGroup,
    pub number: NumberField,
    pub dropdown: Dropdown<'a>,
    pub list_selected: usize,
    pub date: DateSelect,
    pub tab_strip_sel: usize,
    pub tree_nav: MenuNavigator,
    pub tree_line: String,
    pub gallery_focus: GalleryFocus,
}

impl<'a> GalleryState<'a> {
    /// The initial gallery: B checked, 3 radio options on the first, 42 in 0..=99,
    /// dropdown on option 1 of `dropdown_options`, date 2026-03-27, tab 1 selected.
    pub fn new(dropdown_options: &'a [&'a str]) -> (r: Self)
        ensures
            !r.check_a.inner.on && r.check_b.inner.on && !r.toggle.on,
            r.radio.count == 3 && r.radio.selected == 0,
            r.number.value == 42 && r.number.min == 0 && r.number.max == 99 && r.number.step == 1,
            r.dropdown@.options == dropdown_options@,
            r.dropdown@.selected == if dropdown_options@.len() == 0 {
                0
            } else if 1 < dropdown_options@.len() {
                1
            } else {
                (dropdown_options@.len() - 1) as usize
            },
            r.dropdown@.focus == r.dropdown@.selected,
            !r.dropdown@.open,
            r.list_selected == 0,
            r.date.year == 2026 && r.date.month == 3 && r.date.day == 27,
            r.date.focus == DateField::Day && r.date.min_year == 1970 && r.date.max_year == 2100,
            r.tab_strip_sel == 1,
            r.tree_nav.root_index == 0 && r.tree_nav.sub is None,
            r.tree_line@ == "Tree: \u{2014}"@,
            r.gallery_focus == GalleryFocus::CheckA,
    {
        GalleryState {
            check_a: Checkbox::new(false),
            check_b: Checkbox::new(true),
            toggle: Toggle::new(false),
            radio: RadioGroup::new(3, 0),
            number: NumberField::new(42, 0, 99, 1),
            dropdown: Dropdown::new(dropdown_options, 1),
            list_selected: 0,
            date: DateSelect::new(2026, 3, 27),
            tab_strip_sel: 1,
            tree_nav: MenuNavigator::default(),
            tree_line: "Tree: \u{2014}".to_owned(),
            gallery_focus: GalleryFocus::default(),
        }
    }
}

/// Label of a menu entry.
pub open spec fn entry_label<'a>(e: MenuEntry<'a>) -> Seq<char> {
    match e {
        MenuEntry::Item { label, .. } => label@,
        MenuEntry::Submenu { label, .. } => label@,
    }
}

/// The tree line shown for a navigator: the open submenu entry under its root, or the
/// focused root.
pub open spec fn tree_status_text<'a>(tree: MenuTree<'a>, nav: MenuNavigator) -> Seq<char> {
    if nav.root_index >= tree.roots@.len() {
        "Tree: \u{2014}"@
    } else {
        let root_lbl = entry_label(tree.roots@[nav.root_index as int]);
        match nav.sub {
            Some((ri, si)) => if ri < tree.roots@.len() {
                match tree.roots@[ri as int] {
                    MenuEntry::Submenu { label, children } => if si < children@.len() {
                        "Tree: "@ + label@ + " \u{203a} "@ + entry_label(children@[si as int])
                    } else {
                        "Tree: "@ + root_lbl
                    },
                    MenuEntry::Item { .. } => "Tree: "@ + root_lbl,
                }
            } else {
                "Tree: "@ + root_lbl
            },
            None => "Tree: "@ + root_lbl,
        }
    }
}

/// Decimal digits of `n`.
pub open spec fn decimal(n: nat) -> Seq<char>
    decreases n,
{
    let d = ((n % 10) + ('0' as nat)) as char;
    if n < 10 { seq![d] } else { decimal(n / 10).push(d) }
}

/// Decimal digits of `n`.
fn decimal_string(n: u32) -> (r: String)
    ensures
        r@ == decimal(n as nat),
{
    let mut digits: Vec<char> = Vec::new();
    let mut m = n;
    // Digits of `n` from the most significant one: `decimal(m)` followed by `digits`.
    loop
        invariant_except_break
            decimal(n as nat) == decimal(m as nat) + digits@,
        ensures
            decimal(n as nat) == digits@,
        decreases m,
    {
        let d = ((m % 10) as u8 + 48) as char;
        assert(d == ((m as nat % 10) + ('0' as nat)) as char);
        if m < 10 {
            let mut out: Vec<char> = Vec::new();
            out.push(d);
            let mut i: usize = 0;
            while i < digits.len()
                invariant
                    i <= digits@.len(),
                    out@ == seq![d] + digits@.take(i as int),
                decreases digits@.len() - i,
            {
                out.push(digits[i]);
                i = i + 1;
                assert(out@ =~= seq![d] + digits@.take(i as int));
            }
            assert(digits@.take(digits@.len() as int) =~= digits@);
            digits = out;
            break;
        }
        let mut out: Vec<char> = Vec::new();
        out.push(d);
        let mut i: usize = 0;
        while i < digits.len()
            invariant
                i <= digits@.len(),
                out@ == seq![d] + digits@.take(i as int),
            decreases digits@.len() - i,
        {
            out.push(digits[i]);
            i = i + 1;
            assert(out@ =~= seq![d] + digits@.take(i as int));
        }
        assert(digits@.take(digits@.len() as int) =~= digits@);
        assert(decimal(m as nat) == decimal((m / 10) as nat).push(d));
        assert(decimal((m / 10) as nat).push(d) + digits@ =~= decimal((m / 10) as nat) + out@);
        digits = out;
        m = m / 10;
    }
    crate::text::string_from_chars(digits.as_slice())
}

/// The tree line after an activation.
pub open spec fn activated_text(id: u32) -> Seq<char> {
    "Tree: activated id "@ + decimal(id as nat)
}

/// The status line of the gallery's menu tree (see [`tree_status_text`]).
pub fn tree_status_line(tree: &MenuTree, nav: &MenuNavigator) -> (r: String)
    ensures
        r@ == tree_status_text(*tree, *nav),
{
    let t = tree.roots;
    if nav.root_index >= t.len() {
        return "Tree: \u{2014}".to_owned();
    }
    let root_lbl = match &t[nav.root_index] {
        MenuEntry::Item { label, .. } => *label,
        MenuEntry::Submenu { label, .. } => *label,
    };
    let mut out = "Tree: ".to_owned();
    if let Some((ri, si)) = nav.sub {
        if ri < t.len() {
            if let MenuEntry::Submenu { label: rl, children } = &t[ri] {
                if si < children.len() {
                    let sub_l = match &children[si] {
                        MenuEntry::Item { label, .. } => *label,
                        MenuEntry::Submenu { label, .. } => *label,
                    };
                    push_chars(&mut out, rl);
                    push_chars(&mut out, " \u{203a} ");
                    push_chars(&mut out, sub_l);
                    return out;
                }
            }
        }
    }
    push_chars(&mut out, root_lbl);
    out
}

/// Whether `k` is Enter or the space bar.
pub open spec fn is_press(k: Key) -> bool {
    k == Key::Enter || k == Key::Character(' ')
}

/// Keys that apply whatever control has focus: `+`/`=` and `-`/`_` move the slider by 5.
pub open spec fn gallery_fallback(k: Key) -> (bool, Option<GalleryEffect>) {
    if k == Key::Character('+') || k == Key::Character('=') {
        (true, Some(GalleryEffect::SliderStep(50)))
    } else if k == Key::Character('-') || k == Key::Character('_') {
        (true, Some(GalleryEffect::SliderStep(-50i32)))
    } else {
        (false, None)
    }
}

/// What a key does to the gallery with `pre` focused on a control: the new state and
/// whether the key was handled, with the change to the fractional controls.
pub open spec fn gallery_key_step<'a>(
    pre: GalleryState<'a>,
    ev: KeyEvent,
    tree: MenuTree<'a>,
    post: GalleryState<'a>,
    r: (bool, Option<GalleryEffect>),
) -> bool {
    let k = ev.key;
    if pre.dropdown@.open || pre.gallery_focus == GalleryFocus::Dropdown {
        &&& post == (GalleryState { dropdown: post.dropdown, ..pre })
        &&& post.dropdown@.options == pre.dropdown@.options
        &&& exists|a| dropdown_step(pre.dropdown, k, post.dropdown, a)
        &&& r == (true, None::<GalleryEffect>)
    } else {
        match pre.gallery_focus {
            GalleryFocus::CheckA => if is_press(k) {
                post == (GalleryState { check_a: post.check_a, ..pre }) && post.check_a.inner.on == !pre.check_a.inner.on
                    && r == (true, None::<GalleryEffect>)
            } else {
                post == pre && r == gallery_fallback(k)
            },
            GalleryFocus::CheckB => if is_press(k) {
                post == (GalleryState { check_b: post.check_b, ..pre }) && post.check_b.inner.on == !pre.check_b.inner.on
                    && r == (true, None::<GalleryEffect>)
            } else {
                post == pre && r == gallery_fallback(k)
            },
            GalleryFocus::Toggle => if is_press(k) {
                post == (GalleryState { toggle: Toggle { on: !pre.toggle.on }, ..pre }) && r == (true, None::<GalleryEffect>)
            } else {
                post == pre && r == gallery_fallback(k)
            },
            GalleryFocus::Radio => if k == Key::Left {
                post == (GalleryState { radio: RadioGroup {
                    selected: if pre.radio.selected == 0 { (pre.radio.count - 1) as usize } else { (pre.radio.selected - 1) as usize },
                    ..pre.radio }, ..pre })
                    && r == (true, None::<GalleryEffect>)
            } else if k == Key::Right || is_press(k) {
                post == (GalleryState { radio: RadioGroup {
                    selected: ((pre.radio.selected + 1) % (pre.radio.count as int)) as usize, ..pre.radio }, ..pre })
                    && r == (true, None::<GalleryEffect>)
            } else {
                post == pre && r == gallery_fallback(k)
            },
            GalleryFocus::Number => {
                &&& post == (GalleryState { number: number_key_result(pre.number, k), ..pre })
                &&& r == if k == Key::Up || k == Key::Right || k == Key::Down || k == Key::Left {
                    (true, None::<GalleryEffect>)
                } else {
                    gallery_fallback(k)
                }
            },
            GalleryFocus::Slider => {
                &&& post == pre
                &&& r == if k == Key::Left {
                    (true, Some(GalleryEffect::SliderStep(-25i32)))
                } else if k == Key::Right {
                    (true, Some(GalleryEffect::SliderStep(25)))
                } else if k == Key::Home {
                    (true, Some(GalleryEffect::SliderToMin))
                } else if k == Key::End {
                    (true, Some(GalleryEffect::SliderToMax))
                } else {
                    gallery_fallback(k)
                }
            },
            GalleryFocus::Progress => {
                &&& post == pre
                &&& r == if is_press(k) { (true, Some(GalleryEffect::ProgressInvert)) } else { gallery_fallback(k) }
            },
            GalleryFocus::DemoTabs => if k == Key::Left {
                post == (GalleryState { tab_strip_sel: if pre.tab_strip_sel > 0 { (pre.tab_strip_sel - 1) as usize } else { 0 }, ..pre })
                    && r == (true, None::<GalleryEffect>)
            } else if k == Key::Right {
                post == (GalleryState { tab_strip_sel: if pre.tab_strip_sel + 1 < 2 { (pre.tab_strip_sel + 1) as usize } else { 2 }, ..pre })
                    && r == (true, None::<GalleryEffect>)
            } else {
                post == pre && r == gallery_fallback(k)
            },
            GalleryFocus::Tree => exists|a: Option<MenuAction>| {
                &&& menu_nav_step(tree, pre.tree_nav, k, post.tree_nav, a)
                &&& match a {
                    Some(MenuAction::Activated(id)) => post == (GalleryState { tree_nav: post.tree_nav, tree_line: post.tree_line, ..pre })
                        && post.tree_line@ == activated_text(id) && r == (true, None::<GalleryEffect>),
                    Some(_) => post == (GalleryState { tree_nav: post.tree_nav, tree_line: post.tree_line, ..pre })
                        && post.tree_line@ == tree_status_text(tree, post.tree_nav) && r == (true, None::<GalleryEffect>),
                    None => post == (GalleryState { tree_nav: post.tree_nav, ..pre }) && r == gallery_fallback(k),
                }
            },
            GalleryFocus::List => if k == Key::Up {
                post == (GalleryState { list_selected: if pre.list_selected > 0 { (pre.list_selected - 1) as usize } else { pre.list_selected }, ..pre })
                    && r == (true, None::<GalleryEffect>)
            } else if k == Key::Down {
                post == (GalleryState { list_selected: if pre.list_selected + 1 < LIST_ITEM_COUNT { (pre.list_selected + 1) as usize } else { pre.list_selected }, ..pre })
                    && r == (true, None::<GalleryEffect>)
            } else if k == Key::Home {
                post == (GalleryState { list_selected: 0, ..pre }) && r == (true, None::<GalleryEffect>)
            } else if k == Key::End {
                post == (GalleryState { list_selected: (LIST_ITEM_COUNT - 1) as usize, ..pre }) && r == (true, None::<GalleryEffect>)
            } else {
                post == pre && r == gallery_fallback(k)
            },
            GalleryFocus::Date => if k == Key::Tab {
                post == pre && r == (false, None::<GalleryEffect>)
            } else {
                post == (GalleryState { date: date_key_result(pre.date, k).0, ..pre }) && r == (true, None::<GalleryEffect>)
            },
            _ => post == pre && r == gallery_fallback(k),
        }
    }
}

/// Conditions under which a key on the gallery stays within the controls' arithmetic.
pub open spec fn gallery_key_ok<'a>(g: GalleryState<'a>, k: Key) -> bool {
    &&& g.dropdown@.open && k == Key::Down ==> g.dropdown@.focus < usize::MAX
    &&& g.gallery_focus == GalleryFocus::Radio ==> g.radio.count > 0 && g.radio.selected < usize::MAX
    &&& g.gallery_focus == GalleryFocus::DemoTabs ==> g.tab_strip_sel < usize::MAX
    &&& g.gallery_focus == GalleryFocus::List ==> g.list_selected < usize::MAX
    &&& g.gallery_focus == GalleryFocus::Tree ==> g.tree_nav.root_index < isize::MAX
        && (g.tree_nav.sub matches Some((ri, si)) ==> si < isize::MAX)
    &&& g.gallery_focus == GalleryFocus::Date && k == Key::Up ==> bump_in_range(g.date, 1)
    &&& g.gallery_focus == GalleryFocus::Date && k == Key::Down ==> bump_in_range(g.date, -1)
}

fn fallback_exec(k: Key) -> (r: (bool, Option<GalleryEffect>))
    ensures
        r == gallery_fallback(k),
{
    if k == Key::Character('+') || k == Key::Character('=') {
        (true, Some(GalleryEffect::SliderStep(50)))
    } else if k == Key::Character('-') || k == Key::Character('_') {
        (true, Some(GalleryEffect::SliderStep(-50i32)))
    } else {
        (false, None)
    }
}

/// Keys on the checkboxes and the toggle.
fn gallery_key_switches<'a>(g: &mut GalleryState<'a>, ev: &KeyEvent, tree: &MenuTree<'a>) -> (r: (bool, Option<GalleryEffect>))
    requires
        !old(g).dropdown@.open,
        old(g).gallery_focus == GalleryFocus::CheckA || old(g).gallery_focus == GalleryFocus::CheckB
            || old(g).gallery_focus == GalleryFocus::Toggle,
    ensures
        gallery_key_step(*old(g), *ev, *tree, *final(g), r),
{
    let key = ev.key;
    if !(key == Key::Enter || key == Key::Character(' ')) {
        return fallback_exec(key);
    }
    match g.gallery_focus {
        GalleryFocus::CheckA => g.check_a.toggle(),
        GalleryFocus::CheckB => g.check_b.toggle(),
        _ => g.toggle.flip(),
    }
    (true, None)
}

/// Keys on the radio group.
fn gallery_key_radio<'a>(g: &mut GalleryState<'a>, ev: &KeyEvent, tree: &MenuTree<'a>) -> (r: (bool, Option<GalleryEffect>))
    requires
        !old(g).dropdown@.open,
        old(g).gallery_focus == GalleryFocus::Radio,
        old(g).radio.count > 0,
        old(g).radio.selected < usize::MAX,
    ensures
        gallery_key_step(*old(g), *ev, *tree, *final(g), r),
{
    let key = ev.key;
    if key == Key::Left {
        g.radio.prev();
        (true, None)
    } else if key == Key::Right || key == Key::Enter || key == Key::Character(' ') {
        g.radio.next();
        (true, None)
    } else {
        fallback_exec(key)
    }
}

/// Keys on the tab strip and the list box.
fn gallery_key_lists<'a>(g: &mut GalleryState<'a>, ev: &KeyEvent, tree: &MenuTree<'a>) -> (r: (bool, Option<GalleryEffect>))
    requires
        !old(g).dropdown@.open,
        old(g).gallery_focus == GalleryFocus::DemoTabs ==> old(g).tab_strip_sel < usize::MAX,
        old(g).gallery_focus == GalleryFocus::List ==> old(g).list_selected < usize::MAX,
        old(g).gallery_focus == GalleryFocus::DemoTabs || old(g).gallery_focus == GalleryFocus::List,
    ensures
        gallery_key_step(*old(g), *ev, *tree, *final(g), r),
{
    let key = ev.key;
    if g.gallery_focus == GalleryFocus::DemoTabs {
        if key == Key::Left {
            g.tab_strip_sel = if g.tab_strip_sel > 0 { g.tab_strip_sel - 1 } else { 0 };
            (true, None)
        } else if key == Key::Right {
            g.tab_strip_sel = if g.tab_strip_sel + 1 < 2 { g.tab_strip_sel + 1 } else { 2 };
            (true, None)
        } else {
            fallback_exec(key)
        }
    } else {
        if key == Key::Up {
            if g.list_selected > 0 {
                g.list_selected = g.list_selected - 1;
            }
            (true, None)
        } else if key == Key::Down {
            if g.list_selected + 1 < LIST_ITEM_COUNT {
                g.list_selected = g.list_selected + 1;
            }
            (true, None)
        } else if key == Key::Home {
            g.list_selected = 0;
            (true, None)
        } else if key == Key::End {
            g.list_selected = LIST_ITEM_COUNT - 1;
            (true, None)
        } else {
            fallback_exec(key)
        }
    }
}

/// Keys on the menu tree: the tree line follows the navigator.
fn gallery_key_tree<'a>(g: &mut GalleryState<'a>, ev: &KeyEvent, tree: &MenuTree<'a>) -> (r: (bool, Option<GalleryEffect>))
    requires
        !old(g).dropdown@.open,
        old(g).gallery_focus == GalleryFocus::Tree,
        old(g).tree_nav.root_index < isize::MAX,
        old(g).tree_nav.sub matches Some((ri, si)) ==> si < isize::MAX,
    ensures
        gallery_key_step(*old(g), *ev, *tree, *final(g), r),
{
    let act = g.tree_nav.apply_key_event(tree, ev);
    match act {
        Some(MenuAction::Activated(id)) => {
            let mut line = "Tree: activated id ".to_owned();
            let digits = decimal_string(id);
            push_chars(&mut line, digits.as_str());
            g.tree_line = line;
            (true, None)
        },
        Some(_) => {
            g.tree_line = tree_status_line(tree, &g.tree_nav);
            (true, None)
        },
        None => fallback_exec(ev.key),
    }
}

/// Keys on the number field, slider, progress bar, date and graph.
fn gallery_key_values<'a>(g: &mut GalleryState<'a>, ev: &KeyEvent, tree: &MenuTree<'a>) -> (r: (bool, Option<GalleryEffect>))
    requires
        !old(g).dropdown@.open,
        old(g).gallery_focus == GalleryFocus::Number || old(g).gallery_focus == GalleryFocus::Slider
            || old(g).gallery_focus == GalleryFocus::Progress || old(g).gallery_focus == GalleryFocus::Date
            || old(g).gallery_focus == GalleryFocus::Graph,
        old(g).gallery_focus == GalleryFocus::Date && ev.key == Key::Up ==> bump_in_range(old(g).date, 1),
        old(g).gallery_focus == GalleryFocus::Date && ev.key == Key::Down ==> bump_in_range(old(g).date, -1),
    ensures
        gallery_key_step(*old(g), *ev, *tree, *final(g), r),
{
    let key = ev.key;
    match g.gallery_focus {
        GalleryFocus::Number => {
            if g.number.apply_key_event(ev) {
                (true, None)
            } else {
                fallback_exec(key)
            }
        },
        GalleryFocus::Slider => {
            if key == Key::Left {
                (true, Some(GalleryEffect::SliderStep(-25)))
            } else if key == Key::Right {
                (true, Some(GalleryEffect::SliderStep(25)))
            } else if key == Key::Home {
                (true, Some(GalleryEffect::SliderToMin))
            } else if key == Key::End {
                (true, Some(GalleryEffect::SliderToMax))
            } else {
                fallback_exec(key)
            }
        },
        GalleryFocus::Progress => {
            if key == Key::Enter || key == Key::Character(' ') {
                (true, Some(GalleryEffect::ProgressInvert))
            } else {
                fallback_exec(key)
            }
        },
        GalleryFocus::Date => {
            if key == Key::Tab {
                (false, None)
            } else {
                let _ = g.date.apply_key_event(ev);
                (true, None)
            }
        },
        _ => fallback_exec(key),
    }
}

/// A key while the gallery panel has focus, routed by the focused control (see
/// [`gallery_key_step`]); `tree` is the menu tree of the tree control.
pub fn apply_gallery_key_event<'a>(
    g: &mut GalleryState<'a>,
    ev: &KeyEvent,
    _virtual_shift: bool,
    tree: &MenuTree<'a>,
) -> (r: (bool, Option<GalleryEffect>))
    requires
        gallery_key_ok(*old(g), ev.key),
    ensures
        gallery_key_step(*old(g), *ev, *tree, *final(g), r),
{
    if g.dropdown.is_open() || g.gallery_focus == GalleryFocus::Dropdown {
        let _ = g.dropdown.apply_key_event(ev);
        return (true, None);
    }
    match g.gallery_focus {
        GalleryFocus::CheckA | GalleryFocus::CheckB | GalleryFocus::Toggle => gallery_key_switches(g, ev, tree),
        GalleryFocus::Radio => gallery_key_radio(g, ev, tree),
        GalleryFocus::DemoTabs | GalleryFocus::List => gallery_key_lists(g, ev, tree),
        GalleryFocus::Tree => gallery_key_tree(g, ev, tree),
        _ => gallery_key_values(g, ev, tree),
    }
}

/// Which of `count` radio options in `row` (20 px circles with 8 px between them, so a
/// 28 px cell each) the point `(px, py)` is on.
pub open spec fn radio_hit(px: i32, py: i32, row: Rectangle, count: int) -> Option<int> {
    if !row.contains_spec(Point { x: px, y: py }) {
        None
    } else {
        let i = (px - row.top_left.x) / 28;
        if i < count { Some(i) } else { None }
    }
}

/// Radio option under the point, scanning the 28 px cells from the left.
fn radio_hit_index(px: i32, py: i32, row: Rectangle, count: usize) -> (r: Option<usize>)
    requires
        radio_hit(px, py, row, count as int) is None && row.contains_spec(Point { x: px, y: py })
            ==> row.top_left.x + 28 * count <= i32::MAX,
    ensures
        r == match radio_hit(px, py, row, count as int) {
            Some(i) => Some(i as usize),
            None => None::<usize>,
        },
{
    if !row.contains(Point::new(px, py)) {
        return None;
    }
    let d: i32 = 20;
    let gap: i32 = 8;
    let mut x = row.top_left.x;
    let mut i: usize = 0;
    while i < count
        invariant
            i <= count,
            d == 20 && gap == 8,
            x == row.top_left.x + 28 * i,
            x <= px,
            row.contains_spec(Point { x: px, y: py }),
            radio_hit(px, py, row, count as int) is None ==> row.top_left.x + 28 * count <= i32::MAX,
        decreases count - i,
    {
        let rr = Rectangle::new(Point::new(x, row.top_left.y), Size::new((d + gap) as u32, row.size.height));
        if rr.contains(Point::new(px, py)) {
            assert((px - row.top_left.x) / 28 == i) by (nonlinear_arith)
                requires
                    row.top_left.x + 28 * i <= px < row.top_left.x + 28 * i + 28;
            return Some(i);
        }
        assert(px >= x + 28);
        assert(x + 28 <= i32::MAX);
        x = x + (d + gap);
        i = i + 1;
    }
    proof {
        let q = (px - row.top_left.x) / 28;
        assert(q >= count) by (nonlinear_arith)
            requires
                row.top_left.x + 28 * count <= px,
                q == (px - row.top_left.x) / 28;
    }
    None
}

/// What a pointer press at `(px, py)` does to the gallery laid out in `inner`: the
/// control under it takes focus and reacts; a press elsewhere inside `inner` focuses
/// the first checkbox; a press outside `inner` is not handled.
pub open spec fn gallery_pointer_step<'a>(
    pre: GalleryState<'a>,
    px: i32,
    py: i32,
    inner: Rectangle,
    line_h: i32,
    post: GalleryState<'a>,
    r: (bool, Option<GalleryEffect>),
) -> bool {
    let pt = Point { x: px, y: py };
    let lh = row_h_spec(line_h);
    let n = pre.dropdown@.options.len();
    let lay = gallery_layout(inner, line_h, pre.dropdown@.open, n as int);
    let none = (true, None::<GalleryEffect>);
    if !inner.contains_spec(pt) {
        post == pre && r == (false, None::<GalleryEffect>)
    } else if lay.dropdown_popup matches Some(pop) && pop.contains_spec(pt) && pre.dropdown@.open {
        let pop = lay.dropdown_popup->0;
        let j = div_trunc(py - pop.top_left.y - 3, lh);
        let jj = if j < 0 { 0 } else { j };
        &&& post == (GalleryState { dropdown: post.dropdown, gallery_focus: GalleryFocus::Dropdown, ..pre })
        &&& post.dropdown@ == if jj < n {
            DropdownModel { selected: jj as usize, open: false, focus: jj as usize, ..pre.dropdown@ }
        } else {
            pre.dropdown@
        }
        &&& r == none
    } else if lay.dropdown_btn.contains_spec(pt) || lay.dropdown_field.contains_spec(pt) {
        &&& post == (GalleryState { dropdown: post.dropdown, gallery_focus: GalleryFocus::Dropdown, ..pre })
        &&& post.dropdown@ == DropdownModel {
            open: !pre.dropdown@.open,
            focus: if !pre.dropdown@.open { pre.dropdown@.selected } else { pre.dropdown@.focus },
            ..pre.dropdown@
        }
        &&& r == none
    } else if lay.check_a.contains_spec(pt) {
        post == (GalleryState { check_a: post.check_a, gallery_focus: GalleryFocus::CheckA, ..pre })
            && post.check_a.inner.on == !pre.check_a.inner.on && r == none
    } else if lay.check_b.contains_spec(pt) {
        post == (GalleryState { check_b: post.check_b, gallery_focus: GalleryFocus::CheckB, ..pre })
            && post.check_b.inner.on == !pre.check_b.inner.on && r == none
    } else if lay.toggle_track.contains_spec(pt) {
        post == (GalleryState { toggle: Toggle { on: !pre.toggle.on }, gallery_focus: GalleryFocus::Toggle, ..pre }) && r == none
    } else if radio_hit(px, py, lay.radio_row, pre.radio.count as int) is Some {
        let idx = radio_hit(px, py, lay.radio_row, pre.radio.count as int)->0;
        post == (GalleryState { radio: RadioGroup { selected: idx as usize, ..pre.radio }, gallery_focus: GalleryFocus::Radio, ..pre })
            && r == none
    } else if lay.number_field.contains_spec(pt) {
        post == (GalleryState { gallery_focus: GalleryFocus::Number, ..pre }) && r == none
    } else if lay.slider_track.contains_spec(pt) {
        let t = padded(lay.slider_track, 2);
        post == (GalleryState { gallery_focus: GalleryFocus::Slider, ..pre })
            && r == (true, Some(GalleryEffect::SliderPoint {
                offset: (px - t.top_left.x) as i32,
                width: if t.size.width < 1 { 1 } else { t.size.width },
            }))
    } else if lay.progress_track.contains_spec(pt) {
        post == (GalleryState { gallery_focus: GalleryFocus::Progress, ..pre }) && r == none
    } else if lay.tab_strip.contains_spec(pt) {
        let w = lay.tab_strip.size.width as i32 as int;
        let q = div_trunc((px - lay.tab_strip.top_left.x) * 3, w);
        post == (GalleryState {
            tab_strip_sel: (if w > 0 { if q < 0 { 0 } else if q > 2 { 2 } else { q } } else { 0 }) as usize,
            gallery_focus: GalleryFocus::DemoTabs,
            ..pre
        }) && r == none
    } else if lay.list_box.contains_spec(pt) {
        let j = div_trunc(py - lay.list_box.top_left.y - 3, lh);
        let jj = if j < 0 { 0 } else { j };
        post == (GalleryState {
            list_selected: if jj < LIST_ITEM_COUNT { jj as usize } else { pre.list_selected },
            gallery_focus: GalleryFocus::List,
            ..pre
        }) && r == none
    } else if lay.date_row.contains_spec(pt) {
        post == (GalleryState { gallery_focus: GalleryFocus::Date, ..pre }) && r == none
    } else if lay.tree_row.contains_spec(pt) {
        post == (GalleryState { gallery_focus: GalleryFocus::Tree, ..pre }) && r == none
    } else if lay.graph.contains_spec(pt) {
        post == (GalleryState { gallery_focus: GalleryFocus::Graph, ..pre }) && r == none
    } else {
        post == (GalleryState { gallery_focus: GalleryFocus::CheckA, ..pre }) && r == none
    }
}

/// Conditions under which a pointer press on the gallery stays within `i32` arithmetic.
pub open spec fn gallery_pointer_ok<'a>(g: GalleryState<'a>, px: i32, py: i32, inner: Rectangle, line_h: i32) -> bool {
    let n = g.dropdown@.options.len();
    let lay = gallery_layout(inner, line_h, g.dropdown@.open, n as int);
    let pt = Point { x: px, y: py };
    &&& inner.contains_spec(pt) ==> gallery_layout_ok(inner, line_h, g.dropdown@.open, n as int)
    &&& inner.contains_spec(pt) && radio_hit(px, py, lay.radio_row, g.radio.count as int) is None
        && lay.radio_row.contains_spec(pt) ==> lay.radio_row.top_left.x + 28 * g.radio.count <= i32::MAX
    &&& inner.contains_spec(pt) && lay.slider_track.contains_spec(pt) ==> pad_ok(lay.slider_track, 2)
    &&& inner.contains_spec(pt) && lay.tab_strip.contains_spec(pt) ==>
        fits_i32((px - lay.tab_strip.top_left.x) * 3)
    &&& inner.contains_spec(pt) && g.dropdown@.open && (lay.dropdown_popup matches Some(pop) && pop.contains_spec(pt)) ==>
        fits_i32(py - lay.dropdown_popup->0.top_left.y) && fits_i32(py - lay.dropdown_popup->0.top_left.y - 3)
    &&& inner.contains_spec(pt) && lay.list_box.contains_spec(pt) ==>
        fits_i32(py - lay.list_box.top_left.y) && fits_i32(py - lay.list_box.top_left.y - 3)
}

/// A pointer press on the gallery (see [`gallery_pointer_step`]).
#[verifier::rlimit(40)]
pub fn gallery_pointer_down<'a>(
    g: &mut GalleryState<'a>,
    px: i32,
    py: i32,
    inner: &Rectangle,
    line_h: i32,
) -> (r: (bool, Option<GalleryEffect>))
    requires
        gallery_pointer_ok(*old(g), px, py, *inner, line_h),
    ensures
        gallery_pointer_step(*old(g), px, py, *inner, line_h, *final(g), r),
{
    let pt = Point::new(px, py);
    if !inner.contains(pt) {
        return (false, None);
    }
    let layout = compute_gallery_layout(inner, line_h, &g.dropdown);
    let lh = row_h(line_h);
    if let Some(pop) = layout.dropdown_popup {
        if pop.contains(pt) && g.dropdown.is_open() {
            g.gallery_focus = GalleryFocus::Dropdown;
            let j0 = (py - pop.top_left.y - 3) / lh;
            let j = (if j0 < 0 { 0 } else { j0 }) as usize;
            if j < g.dropdown.option_count() {
                g.dropdown.set_menu_focus_index(j);
                g.dropdown.select_and_close(j);
            }
            return (true, None);
        }
    }
    if layout.dropdown_btn.contains(pt) || layout.dropdown_field.contains(pt) {
        g.gallery_focus = GalleryFocus::Dropdown;
        g.dropdown.toggle_open();
        return (true, None);
    }
    if layout.check_a.contains(pt) {
        g.gallery_focus = GalleryFocus::CheckA;
        g.check_a.toggle();
        return (true, None);
    }
    if layout.check_b.contains(pt) {
        g.gallery_focus = GalleryFocus::CheckB;
        g.check_b.toggle();
        return (true, None);
    }
    if layout.toggle_track.contains(pt) {
        g.gallery_focus = GalleryFocus::Toggle;
        g.toggle.flip();
        return (true, None);
    }
    if let Some(idx) = radio_hit_index(px, py, layout.radio_row, g.radio.count) {
        g.gallery_focus = GalleryFocus::Radio;
        g.radio.select(idx);
        return (true, None);
    }
    if layout.number_field.contains(pt) {
        g.gallery_focus = GalleryFocus::Number;
        return (true, None);
    }
    if layout.slider_track.contains(pt) {
        g.gallery_focus = GalleryFocus::Slider;
        let inner_t = pad(layout.slider_track, 2);
        let w = if inner_t.size.width < 1 { 1 } else { inner_t.size.width };
        return (true, Some(GalleryEffect::SliderPoint { offset: px - inner_t.top_left.x, width: w }));
    }
    if layout.progress_track.contains(pt) {
        g.gallery_focus = GalleryFocus::Progress;
        return (true, None);
    }
    if layout.tab_strip.contains(pt) {
        g.gallery_focus = GalleryFocus::DemoTabs;
        let w = layout.tab_strip.size.width as i32;
        let rel = px - layout.tab_strip.top_left.x;
        g.tab_strip_sel = if w > 0 {
            let q = rel * 3 / w;
            (if q < 0 { 0 } else if q > 2 { 2 } else { q }) as usize
        } else {
            0
        };
        return (true, None);
    }
    if layout.list_box.contains(pt) {
        g.gallery_focus = GalleryFocus::List;
        let j0 = (py - layout.list_box.top_left.y - 3) / lh;
        let j = (if j0 < 0 { 0 } else { j0 }) as usize;
        if j < LIST_ITEM_COUNT {
            g.list_selected = j;
        }
        return (true, None);
    }
    if layout.date_row.contains(pt) {
        g.gallery_focus = GalleryFocus::Date;
        return (true, None);
    }
    if layout.tree_row.contains(pt) {
        g.gallery_focus = GalleryFocus::Tree;
        return (true, None);
    }
    if layout.graph.contains(pt) {
        g.gallery_focus = GalleryFocus::Graph;
        return (true, None);
    }
    g.gallery_focus = GalleryFocus::CheckA;
    (true, None)
}

} // verus!
