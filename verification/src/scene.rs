//! Immediate-mode frame state: focus, pointer, and the activations queued this frame.

use vstd::prelude::*;

verus! {

/// Stable widget / region id (hash or counter assigned by the app).
pub type WidgetId = u64;

/// Per-frame UI state: focus, pointer, and actions collected this frame.
#[derive(Debug)]
pub struct UiFrame {
    pub focus: Option<WidgetId>,
    pub pointer_x: i32,
    pub pointer_y: i32,
    pub pointer_left: bool,
    activated: Vec<WidgetId>,
}

impl Default for UiFrame {
    fn default() -> (r: Self)
        ensures
            r.focus_spec() is None,
            r.activations().len() == 0,
    {
        UiFrame::new()
    }
}

impl UiFrame {
    /// The focused widget.
    pub closed spec fn focus_spec(self) -> Option<WidgetId> {
        self.focus
    }

    /// Pointer position and left button.
    pub closed spec fn pointer_spec(self) -> (i32, i32, bool) {
        (self.pointer_x, self.pointer_y, self.pointer_left)
    }

    /// Activations queued since the frame began, oldest first.
    pub closed spec fn activations(self) -> Seq<WidgetId> {
        self.activated@
    }

    pub fn new() -> (r: Self)
        ensures
            r.focus_spec() is None,
            r.pointer_spec() == (0i32, 0i32, false),
            r.activations().len() == 0,
    {
        UiFrame { focus: None, pointer_x: 0, pointer_y: 0, pointer_left: false, activated: Vec::new() }
    }

    /// Start of a frame: keeps focus and pointer, clears queued activations.
    pub fn begin_frame(&mut self)
        ensures
            final(self).focus_spec() == old(self).focus_spec(),
            final(self).pointer_spec() == old(self).pointer_spec(),
            final(self).activations().len() == 0,
    {
        self.activated.clear();
    }

    /// End of a frame (nothing to do).
    pub fn end_frame(&mut self)
        ensures
            *final(self) == *old(self),
    {
    }

    pub fn set_focus(&mut self, id: WidgetId)
        ensures
            final(self).focus_spec() == Some(id),
            final(self).pointer_spec() == old(self).pointer_spec(),
            final(self).activations() == old(self).activations(),
    {
        self.focus = Some(id);
    }

    pub fn queue_activate(&mut self, id: WidgetId)
        ensures
            final(self).focus_spec() == old(self).focus_spec(),
            final(self).pointer_spec() == old(self).pointer_spec(),
            final(self).activations() == old(self).activations().push(id),
    {
        self.activated.push(id);
    }

    /// Hand out the queued activations, oldest first, leaving none queued.
    pub fn take_activations(&mut self) -> (r: Vec<WidgetId>)
        ensures
            r@ == old(self).activations(),
            final(self).activations().len() == 0,
            final(self).focus_spec() == old(self).focus_spec(),
            final(self).pointer_spec() == old(self).pointer_spec(),
    {
        let mut out: Vec<WidgetId> = Vec::new();
        std::mem::swap(&mut out, &mut self.activated);
        out
    }
}

} // verus!
