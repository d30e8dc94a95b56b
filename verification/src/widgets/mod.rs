//! Immediate-mode widget **state** (no drawing).

pub mod button;
pub mod checkbox;
pub mod icon;
pub mod icon_button;
pub mod label;
pub mod radio;
pub mod toggle;
pub mod number_field;
pub mod scroll_area;

pub use button::Button;
pub use checkbox::Checkbox;
pub use icon::Icon;
pub use icon_button::IconButton;
pub use label::Label;
pub use radio::RadioGroup;
pub use toggle::Toggle;
pub use number_field::NumberField;
pub use scroll_area::ScrollArea;
pub mod listbox;
pub mod dropdown;
pub use listbox::ListBox;
pub use dropdown::{Dropdown, DropdownAction};
pub mod menu_tree;
pub use menu_tree::{MenuAction, MenuEntry, MenuNavigator, MenuTree};
pub mod navbar;
pub use navbar::NavBar;
pub mod date_select;
pub use date_select::{days_in_month, is_leap_year, DateField, DateSelect, DateSelectAction};
pub mod scrollbar;
pub use scrollbar::{ScrollAxis, ScrollbarHit, ScrollbarState};
pub mod textarea;
pub use textarea::{SelectionState, TextArea, TextAreaAction, textarea_sync_vertical_scroll};
pub mod spacer;
pub use spacer::Spacer;

pub use crate::file_picker::{
    DirEntry, FileIo, FilePickerAction, FilePickerDialogAction, FilePickerDialogState,
    FilePickerFocus, FilePickerState, LineInput, PickerMode,
};
pub use crate::tree_view::{FlatRow, TreeNode, TreeViewState};
