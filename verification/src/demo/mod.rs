//! The widget-gallery showcase: focus regions and Tab order across the window,
//! window and gallery layout geometry, and the gallery's input handling.

pub mod layout;
pub mod demo_gallery;
pub mod tab_order;
pub mod scene;
pub mod interaction;
pub mod absolute_pointer;
pub mod dispatch;
