use vstd::prelude::*;

use crate::widget::{
    bool_node, integer_node, is_bool_node, is_integer_node, label_frame, make_image_frame,
    render_all, renders_image, renders_items, renders_label, renders_string, text_input,
    text_output, InputKind, Widget,
};

verus! {

/// A reference to an image file, rendered as a frame showing the image.
pub struct FlImage(pub String);

/// A value that renders itself as a widget tree, editable or read-only.
pub trait FltkForm {
    /// `w` is the tree that renders `self`: editable where `editable` holds, else
    /// read-only. An implementation outside this library that does not state it
    /// promises nothing of its trees.
    open spec fn renders(&self, w: Widget, editable: bool) -> bool {
        true
    }

    /// The editable tree for `self`.
    fn generate(&self) -> (r: Widget)
        ensures
            self.renders(r, true),
    ;

    /// The read-only tree for `self`.
    fn view(&self) -> (r: Widget)
        ensures
            self.renders(r, false),
    ;
}

impl FltkForm for i8 {
    open spec fn renders(&self, w: Widget, editable: bool) -> bool {
        is_integer_node(w, *self as int, editable)
    }

    fn generate(&self) -> (r: Widget) {
        integer_node(*self as i128, true)
    }

    fn view(&self) -> (r: Widget) {
        integer_node(*self as i128, false)
    }
}

impl FltkForm for u8 {
    open spec fn renders(&self, w: Widget, editable: bool) -> bool {
        is_integer_node(w, *self as int, editable)
    }

    fn generate(&self) -> (r: Widget) {
        integer_node(*self as i128, true)
    }

    fn view(&self) -> (r: Widget) {
        integer_node(*self as i128, false)
    }
}

impl FltkForm for i16 {
    open spec fn renders(&self, w: Widget, editable: bool) -> bool {
        is_integer_node(w, *self as int, editable)
    }

    fn generate(&self) -> (r: Widget) {
        integer_node(*self as i128, true)
    }

    fn view(&self) -> (r: Widget) {
        integer_node(*self as i128, false)
    }
}

impl FltkForm for u16 {
    open spec fn renders(&self, w: Widget, editable: bool) -> bool {
        is_integer_node(w, *self as int, editable)
    }

    fn generate(&self) -> (r: Widget) {
        integer_node(*self as i128, true)
    }

    fn view(&self) -> (r: Widget) {
        integer_node(*self as i128, false)
    }
}

impl FltkForm for i32 {
    open spec fn renders(&self, w: Widget, editable: bool) -> bool {
        is_integer_node(w, *self as int, editable)
    }

    fn generate(&self) -> (r: Widget) {
        integer_node(*self as i128, true)
    }

    fn view(&self) -> (r: Widget) {
        integer_node(*self as i128, false)
    }
}

impl FltkForm for u32 {
    open spec fn renders(&self, w: Widget, editable: bool) -> bool {
        is_integer_node(w, *self as int, editable)
    }

    fn generate(&self) -> (r: Widget) {
        integer_node(*self as i128, true)
    }

    fn view(&self) -> (r: Widget) {
        integer_node(*self as i128, false)
    }
}

impl FltkForm for i64 {
    open spec fn renders(&self, w: Widget, editable: bool) -> bool {
        is_integer_node(w, *self as int, editable)
    }

    fn generate(&self) -> (r: Widget) {
        integer_node(*self as i128, true)
    }

    fn view(&self) -> (r: Widget) {
        integer_node(*self as i128, false)
    }
}

impl FltkForm for u64 {
    open spec fn renders(&self, w: Widget, editable: bool) -> bool {
        is_integer_node(w, *self as int, editable)
    }

    fn generate(&self) -> (r: Widget) {
        integer_node(*self as i128, true)
    }

    fn view(&self) -> (r: Widget) {
        integer_node(*self as i128, false)
    }
}

impl FltkForm for isize {
    open spec fn renders(&self, w: Widget, editable: bool) -> bool {
        is_integer_node(w, *self as int, editable)
    }

    fn generate(&self) -> (r: Widget) {
        integer_node(*self as i128, true)
    }

    fn view(&self) -> (r: Widget) {
        integer_node(*self as i128, false)
    }
}

impl FltkForm for usize {
    open spec fn renders(&self, w: Widget, editable: bool) -> bool {
        is_integer_node(w, *self as int, editable)
    }

    fn generate(&self) -> (r: Widget) {
        integer_node(*self as i128, true)
    }

    fn view(&self) -> (r: Widget) {
        integer_node(*self as i128, false)
    }
}

impl FltkForm for bool {
    open spec fn renders(&self, w: Widget, editable: bool) -> bool {
        is_bool_node(w, *self, editable)
    }

    fn generate(&self) -> (r: Widget) {
        bool_node(*self, true)
    }

    fn view(&self) -> (r: Widget) {
        bool_node(*self, false)
    }
}

impl FltkForm for String {
    open spec fn renders(&self, w: Widget, editable: bool) -> bool {
        renders_string(w, *self, editable)
    }

    fn generate(&self) -> (r: Widget) {
        text_input(InputKind::Text, self.clone())
    }

    fn view(&self) -> (r: Widget) {
        text_output(self.clone())
    }
}

impl FltkForm for &str {
    /// A string slice cannot be edited in place: both forms are a static frame
    /// labelled with the text.
    open spec fn renders(&self, w: Widget, editable: bool) -> bool {
        renders_label(w, *self)
    }

    fn generate(&self) -> (r: Widget) {
        label_frame(*self)
    }

    fn view(&self) -> (r: Widget) {
        label_frame(*self)
    }
}

impl FltkForm for FlImage {
    open spec fn renders(&self, w: Widget, editable: bool) -> bool {
        renders_image(w, self.0)
    }

    fn generate(&self) -> (r: Widget) {
        make_image_frame(self.0.as_str())
    }

    fn view(&self) -> (r: Widget) {
        make_image_frame(self.0.as_str())
    }
}

impl<T: FltkForm> FltkForm for Vec<T> {
    /// A sequence renders as a container stacking each element's tree, in order,
    /// with no label added to any of them.
    open spec fn renders(&self, w: Widget, editable: bool) -> bool {
        renders_items(*self, w, editable)
    }

    fn generate(&self) -> (r: Widget) {
        render_all(self, true)
    }

    fn view(&self) -> (r: Widget) {
        render_all(self, false)
    }
}

} // verus!
