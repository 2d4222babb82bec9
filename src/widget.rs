use vstd::prelude::*;

use crate::props::children_of;
use crate::text::{bool_text, boolean_text, int_text, integer_text};

verus! {

/// Which characters an editable text field accepts.
#[derive(Clone, Copy, Debug, PartialEq, Eq, Structural)]
pub enum InputKind {
    Text,
    Integer,
    Float,
}

/// What a node of the widget tree is, with the value it holds.
pub enum Content {
    /// An editable text field.
    Input { kind: InputKind, value: String },
    /// A read-only text display.
    Output { value: String },
    /// A checkbox.
    CheckButton { checked: bool },
    /// A selector over named options, with at most one selected.
    Choice { options: Vec<String>, selected: Option<usize> },
    /// A static area showing its label, and the image at `image` when there is one.
    Frame { image: Option<String> },
    /// A container whose children are stacked in order.
    Group { children: Vec<Widget> },
}

/// A node of the widget tree: a display label and what the node holds.
pub struct Widget {
    pub label: String,
    pub content: Content,
}

/// The property value a node shows: the text of a text field or display,
/// `true`/`false` for a checkbox, the selected option of a selector. Frames and
/// containers show none, nor does a selector with nothing selected.
pub open spec fn shown_value(w: Widget) -> Option<Seq<char>> {
    match w.content {
        Content::Input { value, .. } => Some(value@),
        Content::Output { value } => Some(value@),
        Content::CheckButton { checked } => Some(bool_text(checked)),
        Content::Choice { options, selected } => match selected {
            Some(k) => if k < options@.len() {
                Some(options@[k as int]@)
            } else {
                None
            },
            None => None,
        },
        _ => None,
    }
}

/// The node an integer renders to: an integer field when editable, else a display.
pub open spec fn is_integer_node(w: Widget, n: int, editable: bool) -> bool {
    &&& w.label@.len() == 0
    &&& if editable {
        w.content matches Content::Input { kind, value } && kind == InputKind::Integer
            && value@ == int_text(n)
    } else {
        w.content matches Content::Output { value } && value@ == int_text(n)
    }
}

/// The node a text renders to: a text field when editable, else a display.
pub open spec fn is_text_node(w: Widget, s: Seq<char>, editable: bool) -> bool {
    &&& w.label@.len() == 0
    &&& if editable {
        w.content matches Content::Input { kind, value } && kind == InputKind::Text
            && value@ == s
    } else {
        w.content matches Content::Output { value } && value@ == s
    }
}

/// The node a boolean renders to: a checkbox when editable, else a display of
/// `true` or `false`.
pub open spec fn is_bool_node(w: Widget, b: bool, editable: bool) -> bool {
    &&& w.label@.len() == 0
    &&& if editable {
        w.content == Content::CheckButton { checked: b }
    } else {
        w.content matches Content::Output { value } && value@ == bool_text(b)
    }
}

/// The selector a fieldless enum renders to: its variant names in declaration
/// order, with the value's ordinal selected.
pub open spec fn is_enum_node(w: Widget, variants: Seq<String>, ordinal: int) -> bool {
    &&& w.label@.len() == 0
    &&& w.content matches Content::Choice { options, selected }
    &&& options@ == variants
    &&& selected == if 0 <= ordinal < variants.len() {
        Some(ordinal as usize)
    } else {
        None
    }
}

/// The container a struct renders to: labelled with the type's name, one child per
/// field in order, each labelled with the field's name and holding the field's node.
pub open spec fn is_struct_node(w: Widget, name: Seq<char>, fields: Seq<(String, Widget)>) -> bool {
    &&& w.label@ == name
    &&& w.content matches Content::Group { children }
    &&& children@.len() == fields.len()
    &&& forall|i: int|
        0 <= i < fields.len() ==> #[trigger] children@[i].label@ == fields[i].0@
            && children@[i].content == fields[i].1.content
}

impl Widget {
    /// A node with the given content and no label.
    pub fn unlabelled(content: Content) -> (r: Widget)
        ensures
            r.label@.len() == 0,
            r.content == content,
    {
        Widget { label: String::new(), content }
    }
}

/// An editable text field holding `value`.
pub fn text_input(kind: InputKind, value: String) -> (r: Widget)
    ensures
        r.label@.len() == 0,
        r.content == (Content::Input { kind, value }),
{
    Widget::unlabelled(Content::Input { kind, value })
}

/// A read-only display of `value`.
pub fn text_output(value: String) -> (r: Widget)
    ensures
        r.label@.len() == 0,
        r.content == (Content::Output { value }),
{
    Widget::unlabelled(Content::Output { value })
}

/// The node for an integer: a field holding its decimal form, or a display of it.
pub fn integer_node(n: i128, editable: bool) -> (r: Widget)
    ensures
        is_integer_node(r, n as int, editable),
{
    let value = integer_text(n);
    if editable {
        text_input(InputKind::Integer, value)
    } else {
        text_output(value)
    }
}

/// The node for a boolean: a checkbox set to `b`, or a display of `true`/`false`.
pub fn bool_node(b: bool, editable: bool) -> (r: Widget)
    ensures
        is_bool_node(r, b, editable),
{
    if editable {
        Widget::unlabelled(Content::CheckButton { checked: b })
    } else {
        text_output(boolean_text(b))
    }
}

/// A frame showing the image stored at `filename`. Loading happens where the tree
/// is displayed; a file that cannot be loaded leaves the frame empty.
pub fn make_image_frame(filename: &str) -> (r: Widget)
    ensures
        r.label@.len() == 0,
        r.content matches Content::Frame { image } && image matches Some(p) && p@ == filename@,
{
    Widget::unlabelled(Content::Frame { image: Some(filename.to_owned()) })
}

/// A static frame whose label is `text`.
pub fn label_frame(text: &str) -> (r: Widget)
    ensures
        r.label@ == text@,
        r.content == (Content::Frame { image: None }),
{
    Widget { label: text.to_owned(), content: Content::Frame { image: None } }
}

/// The selector for a fieldless enum whose value has the given ordinal.
pub fn enum_form(variants: Vec<String>, ordinal: usize) -> (r: Widget)
    ensures
        is_enum_node(r, variants@, ordinal as int),
{
    let selected = if ordinal < variants.len() {
        Some(ordinal)
    } else {
        None
    };
    Widget::unlabelled(Content::Choice { options: variants, selected })
}

/// The read-only node for an enum value: a display of the variant's name.
pub fn enum_view(variant: String) -> (r: Widget)
    ensures
        is_text_node(r, variant@, false),
{
    text_output(variant)
}

/// The container for a struct: one child per field, in order, each relabelled with
/// the field's name.
pub fn struct_form(struct_name: String, fields: Vec<(String, Widget)>) -> (r: Widget)
    ensures
        is_struct_node(r, struct_name@, fields@),
{
    let ghost orig = fields@;
    let mut rest = fields;
    let mut children: Vec<Widget> = Vec::new();
    while rest.len() > 0
        invariant
            children@.len() + rest@.len() == orig.len(),
            rest@ == orig.subrange(children@.len() as int, orig.len() as int),
            forall|i: int|
                0 <= i < children@.len() ==> #[trigger] children@[i].label@ == orig[i].0@
                    && children@[i].content == orig[i].1.content,
        decreases rest@.len(),
    {
        let ghost k = children@.len();
        let (name, w) = rest.remove(0);
        assert(orig[k as int] == (name, w));
        children.push(Widget { label: name, content: w.content });
        assert(rest@ =~= orig.subrange(children@.len() as int, orig.len() as int));
    }
    Widget { label: struct_name, content: Content::Group { children } }
}

/// The node a `String` renders to.
pub open spec fn renders_string(w: Widget, s: String, editable: bool) -> bool {
    is_text_node(w, s@, editable)
}

/// The node a string slice renders to, editable or not: a static frame labelled
/// with the text.
pub open spec fn renders_label(w: Widget, s: &str) -> bool {
    w.label@ == s@ && w.content == (Content::Frame { image: None })
}

/// The node an image reference renders to: an unlabelled frame showing the file.
pub open spec fn renders_image(w: Widget, path: String) -> bool {
    &&& w.label@.len() == 0
    &&& w.content matches Content::Frame { image }
    &&& image matches Some(p)
    &&& p@ == path@
}

/// The node a sequence renders to: an unlabelled container stacking each
/// element's tree in order, with no label added to any of them.
pub open spec fn renders_items<T: crate::reflect::FltkForm>(items: Vec<T>, w: Widget, editable: bool) -> bool {
    &&& w.label@.len() == 0
    &&& w.content is Group
    &&& children_of(w).len() == items@.len()
    &&& forall|i: int|
        0 <= i < items@.len() ==> #[trigger] T::renders(&items@[i], children_of(w)[i], editable)
}

/// Renders each element of `items` in order, as children of one unlabelled container.
pub fn render_all<T: crate::reflect::FltkForm>(items: &Vec<T>, editable: bool) -> (r: Widget)
    ensures
        renders_items(*items, r, editable),
{
    let mut children: Vec<Widget> = Vec::new();
    let mut i: usize = 0;
    while i < items.len()
        invariant
            i <= items@.len(),
            children@.len() == i,
            forall|j: int| 0 <= j < i ==> #[trigger] T::renders(&items@[j], children@[j], editable),
        decreases items@.len() - i,
    {
        let w = if editable {
            T::generate(&items[i])
        } else {
            T::view(&items[i])
        };
        children.push(w);
        i = i + 1;
    }
    Widget::unlabelled(Content::Group { children })
}

/// A primitive node shows the formatted form of its value: the decimal text of an
/// integer, the text itself of a string, and `true`/`false` for a boolean.
pub proof fn lemma_primitive_nodes_show_their_text(w: Widget, n: int, s: Seq<char>, b: bool, editable: bool)
    ensures
        is_integer_node(w, n, editable) ==> shown_value(w) == Some(int_text(n)),
        is_text_node(w, s, editable) ==> shown_value(w) == Some(s),
        is_bool_node(w, b, editable) ==> shown_value(w) == Some(bool_text(b)),
{
}

} // verus!
