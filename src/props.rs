use vstd::prelude::*;

use crate::error::{FltkFormError, FltkFormErrorKind};
use crate::text::{bool_text, boolean_text};
use crate::widget::{is_enum_node, is_struct_node, shown_value, Content, Widget};

verus! {

/// `i` is the first position among `kids` whose label is `p`.
pub open spec fn is_first_labelled(kids: Seq<Widget>, p: Seq<char>, i: int) -> bool {
    &&& 0 <= i < kids.len()
    &&& kids[i].label@ == p
    &&& forall|j: int| 0 <= j < i ==> #[trigger] kids[j].label@ != p
}

/// The first position among `kids` whose label is `p`, if any.
pub open spec fn find_label(kids: Seq<Widget>, p: Seq<char>) -> Option<int> {
    if exists|i: int| is_first_labelled(kids, p, i) {
        Some(choose|i: int| is_first_labelled(kids, p, i))
    } else {
        None
    }
}

/// The property labelled `p` among `kids`: the value shown by the first child
/// with that label.
pub open spec fn lookup(kids: Seq<Widget>, p: Seq<char>) -> Option<Seq<char>> {
    match find_label(kids, p) {
        Some(i) => shown_value(kids[i]),
        None => None,
    }
}

/// Every property among `kids`: each non-empty label that some child carries,
/// with the value that `lookup` gives for it, where there is one.
pub open spec fn props_of(kids: Seq<Widget>) -> Map<Seq<char>, Seq<char>> {
    Map::new(
        |k: Seq<char>| k.len() > 0 && lookup(kids, k) is Some,
        |k: Seq<char>| lookup(kids, k).unwrap(),
    )
}

/// The direct children of a container; nothing for any other node.
pub open spec fn children_of(w: Widget) -> Seq<Widget> {
    match w.content {
        Content::Group { children } => children@,
        _ => Seq::empty(),
    }
}

/// The text of an optional string.
pub open spec fn opt_view(s: Option<String>) -> Option<Seq<char>> {
    match s {
        Some(t) => Some(t@),
        None => None,
    }
}

/// `pairs` lists the entries of `m`, each key once.
pub open spec fn lists_map(pairs: Seq<(String, String)>, m: Map<Seq<char>, Seq<char>>) -> bool {
    &&& forall|a: int, b: int|
        0 <= a < b < pairs.len() ==> #[trigger] pairs[a].0@ != #[trigger] pairs[b].0@
    &&& forall|a: int|
        0 <= a < pairs.len() ==> m.contains_key(#[trigger] pairs[a].0@) && m[pairs[a].0@]
            == pairs[a].1@
    &&& forall|k: Seq<char>|
        #[trigger] m.contains_key(k) ==> exists|a: int| 0 <= a < pairs.len() && pairs[a].0@ == k
}

/// The outcome of writing `v` into the child labelled `p`, from children `before`
/// to children `after` with result `r`: where no child carries the label, the
/// error says so and nothing changes; where the first such child holds no writable
/// value, the error says so and nothing changes; else that child alone takes the
/// text and the write succeeds.
pub open spec fn written_result(
    before: Seq<Widget>,
    after: Seq<Widget>,
    p: Seq<char>,
    v: Seq<char>,
    r: Result<(), FltkFormError>,
) -> bool {
    match find_label(before, p) {
        None => r == Err::<(), FltkFormError>(FltkFormError::Internal(FltkFormErrorKind::PropertyNotFound))
            && after == before,
        Some(i) => if is_writable(before[i]) {
            r is Ok && after.len() == before.len() && is_written(before[i], after[i], v)
                && forall|j: int| 0 <= j < before.len() && j != i ==> after[j] == before[j]
        } else {
            r == Err::<(), FltkFormError>(FltkFormError::Internal(FltkFormErrorKind::FailedToChangeData))
                && after == before
        },
    }
}

/// From children `before` to children `after`, the first child labelled `p` took
/// the label `n`, keeping what it holds; nothing else changed. Nothing changes
/// where no child carries `p`.
pub open spec fn relabelled(before: Seq<Widget>, after: Seq<Widget>, p: Seq<char>, n: Seq<char>) -> bool {
    match find_label(before, p) {
        None => after == before,
        Some(i) => after.len() == before.len() && after[i].label@ == n
            && after[i].content == before[i].content
            && forall|j: int| 0 <= j < before.len() && j != i ==> after[j] == before[j],
    }
}

/// The first position among `options` whose text is `v`, if any.
pub open spec fn find_option(options: Seq<String>, v: Seq<char>) -> Option<usize> {
    if exists|i: int|
        0 <= i < options.len() && options[i]@ == v && forall|j: int|
            0 <= j < i ==> #[trigger] options[j]@ != v {
        Some(
            (choose|i: int|
                0 <= i < options.len() && options[i]@ == v && forall|j: int|
                    0 <= j < i ==> #[trigger] options[j]@ != v) as usize,
        )
    } else {
        None
    }
}

/// The node holds a value that can be written as text.
pub open spec fn is_writable(w: Widget) -> bool {
    match w.content {
        Content::Input { .. } | Content::Output { .. } | Content::CheckButton { .. } | Content::Choice { .. } => true,
        _ => false,
    }
}

/// `after` is `before` with the text `v` written into it: fields and displays take
/// the text, a checkbox is checked exactly when the text is `true`, a selector
/// selects the first option with that text, or nothing where none has it.
pub open spec fn is_written(before: Widget, after: Widget, v: Seq<char>) -> bool {
    &&& after.label == before.label
    &&& match before.content {
        Content::Input { kind, .. } => after.content matches Content::Input { kind: k2, value }
            && k2 == kind && value@ == v,
        Content::Output { .. } => after.content matches Content::Output { value } && value@ == v,
        Content::CheckButton { .. } => after.content == Content::CheckButton {
            checked: v == "true"@,
        },
        Content::Choice { options, .. } => after.content matches Content::Choice {
            options: o2,
            selected,
        } && o2@ == options@ && selected == find_option(options@, v),
        _ => false,
    }
}

/// The first child among `kids` labelled `prop`.
pub fn find_child(kids: &Vec<Widget>, prop: &String) -> (r: Option<usize>)
    ensures
        match r {
            Some(i) => find_label(kids@, prop@) == Some(i as int),
            None => find_label(kids@, prop@) is None,
        },
{
    let mut i: usize = 0;
    while i < kids.len()
        invariant
            i <= kids@.len(),
            forall|j: int| 0 <= j < i ==> #[trigger] kids@[j].label@ != prop@,
        decreases kids@.len() - i,
    {
        if kids[i].label == *prop {
            assert(is_first_labelled(kids@, prop@, i as int));
            let ghost c = choose|c: int| is_first_labelled(kids@, prop@, c);
            assert(c == i) by {
                if c < i {
                    assert(kids@[c].label@ != prop@);
                } else if c > i {
                    assert(kids@[i as int].label@ != prop@);
                }
            }
            return Some(i);
        }
        i = i + 1;
    }
    None
}

/// The value a node shows, as text.
pub fn shown_text(w: &Widget) -> (r: Option<String>)
    ensures
        opt_view(r) == shown_value(*w),
{
    match &w.content {
        Content::Input { value, .. } => Some(value.clone()),
        Content::Output { value } => Some(value.clone()),
        Content::CheckButton { checked } => Some(boolean_text(*checked)),
        Content::Choice { options, selected } => match selected {
            Some(k) => if *k < options.len() {
                Some(options[*k].clone())
            } else {
                None
            },
            None => None,
        },
        _ => None,
    }
}

/// The property labelled `prop` among `kids`.
pub fn lookup_in(kids: &Vec<Widget>, prop: &str) -> (r: Option<String>)
    ensures
        opt_view(r) == lookup(kids@, prop@),
{
    let p = prop.to_owned();
    match find_child(kids, &p) {
        Some(i) => shown_text(&kids[i]),
        None => None,
    }
}

/// Every property among `kids`, each label once.
pub fn props_in(kids: &Vec<Widget>) -> (r: Vec<(String, String)>)
    ensures
        lists_map(r@, props_of(kids@)),
{
    let mut out: Vec<(String, String)> = Vec::new();
    let mut i: usize = 0;
    while i < kids.len()
        invariant
            i <= kids@.len(),
            forall|a: int, b: int|
                0 <= a < b < out@.len() ==> #[trigger] out@[a].0@ != #[trigger] out@[b].0@,
            forall|a: int|
                0 <= a < out@.len() ==> props_of(kids@).contains_key(#[trigger] out@[a].0@)
                    && props_of(kids@)[out@[a].0@] == out@[a].1@
                    && find_label(kids@, out@[a].0@) is Some && find_label(kids@, out@[a].0@).unwrap() < i,
            forall|k: Seq<char>|
                #[trigger] props_of(kids@).contains_key(k) && find_label(kids@, k).unwrap() < i
                    ==> exists|a: int| 0 <= a < out@.len() && out@[a].0@ == k,
        decreases kids@.len() - i,
    {
        let label = &kids[i].label;
        let ghost lab = label@;
        if !label.as_str().is_empty() {
            let first = find_child(kids, label);
            if first == Some(i) {
                let value = shown_text(&kids[i]);
                if let Some(v) = value {
                    let ghost before = out@;
                    out.push((label.clone(), v));
                    assert forall|a: int, b: int|
                        0 <= a < b < out@.len() implies #[trigger] out@[a].0@ != #[trigger] out@[b].0@ by {
                        if b == before.len() {
                            assert(find_label(kids@, out@[a].0@).unwrap() < i);
                        }
                    }
                    assert forall|k: Seq<char>|
                        #[trigger] props_of(kids@).contains_key(k) && find_label(kids@, k).unwrap() < i + 1
                            implies exists|a: int| 0 <= a < out@.len() && out@[a].0@ == k by {
                        if find_label(kids@, k).unwrap() == i {
                            let c = find_label(kids@, k).unwrap();
                            assert(is_first_labelled(kids@, k, c));
                            assert(out@[before.len() as int].0@ == k);
                        } else {
                            let a = choose|a: int| 0 <= a < before.len() && before[a].0@ == k;
                            assert(out@[a].0@ == k);
                        }
                    }
                }
            }
        }
        proof {
            assert forall|k: Seq<char>|
                #[trigger] props_of(kids@).contains_key(k) && find_label(kids@, k).unwrap() == i
                    implies exists|a: int| 0 <= a < out@.len() && out@[a].0@ == k by {
                let c = find_label(kids@, k).unwrap();
                assert(is_first_labelled(kids@, k, c));
            }
        }
        i = i + 1;
    }
    proof {
        assert forall|k: Seq<char>| #[trigger] props_of(kids@).contains_key(k)
            implies exists|a: int| 0 <= a < out@.len() && out@[a].0@ == k by {
            let c = find_label(kids@, k).unwrap();
            assert(is_first_labelled(kids@, k, c));
        }
    }
    out
}

/// The first option among `options` whose text is `v`.
fn option_index(options: &Vec<String>, v: &String) -> (r: Option<usize>)
    ensures
        r == find_option(options@, v@),
{
    let mut i: usize = 0;
    while i < options.len()
        invariant
            i <= options@.len(),
            forall|j: int| 0 <= j < i ==> #[trigger] options@[j]@ != v@,
        decreases options@.len() - i,
    {
        if options[i] == *v {
            let ghost c = choose|c: int|
                0 <= c < options@.len() && options@[c]@ == v@ && forall|j: int|
                    0 <= j < c ==> #[trigger] options@[j]@ != v@;
            assert(c == i) by {
                if c < i {
                    assert(options@[c]@ != v@);
                } else if c > i {
                    assert(options@[i as int]@ != v@);
                }
            }
            return Some(i);
        }
        i = i + 1;
    }
    None
}

/// Writes the text `v` into a node that holds a writable value.
fn write_text(w: Widget, v: &String) -> (r: Widget)
    requires
        is_writable(w),
    ensures
        is_written(w, r, v@),
{
    let Widget { label, content } = w;
    let content = match content {
        Content::Input { kind, value: _ } => Content::Input { kind, value: v.clone() },
        Content::Output { value: _ } => Content::Output { value: v.clone() },
        Content::CheckButton { checked: _ } => {
            let t = String::from_str("true");
            Content::CheckButton { checked: *v == t }
        },
        Content::Choice { options, selected: _ } => {
            let selected = option_index(&options, v);
            Content::Choice { options, selected }
        },
        other => other,
    };
    Widget { label, content }
}

/// Writes `value` into the first child among `kids` labelled `prop`.
pub fn write_in(kids: &mut Vec<Widget>, prop: &str, value: &str) -> (r: Result<(), FltkFormError>)
    ensures
        written_result(old(kids)@, final(kids)@, prop@, value@, r),
{
    let p = prop.to_owned();
    let v = value.to_owned();
    match find_child(kids, &p) {
        None => Err(FltkFormError::Internal(FltkFormErrorKind::PropertyNotFound)),
        Some(i) => {
            let writable = match &kids[i].content {
                Content::Input { .. } | Content::Output { .. } | Content::CheckButton { .. } | Content::Choice { .. } => true,
                _ => false,
            };
            if !writable {
                return Err(FltkFormError::Internal(FltkFormErrorKind::FailedToChangeData));
            }
            let w = kids.remove(i);
            let w = write_text(w, &v);
            kids.insert(i, w);
            Ok(())
        },
    }
}

/// Gives the first child among `kids` labelled `prop` the label `new_name`.
pub fn relabel_in(kids: &mut Vec<Widget>, prop: &str, new_name: &str)
    ensures
        relabelled(old(kids)@, final(kids)@, prop@, new_name@),
{
    let p = prop.to_owned();
    if let Some(i) = find_child(kids, &p) {
        let w = kids.remove(i);
        let Widget { label: _, content } = w;
        kids.insert(i, Widget { label: new_name.to_owned(), content });
    }
}

/// The first child among `kids` labelled `prop`.
pub fn child_in<'a>(kids: &'a Vec<Widget>, prop: &str) -> (r: Option<&'a Widget>)
    ensures
        match find_label(kids@, prop@) {
            None => r is None,
            Some(i) => r == Some(&kids@[i]),
        },
{
    let p = prop.to_owned();
    match find_child(kids, &p) {
        Some(i) => Some(&kids[i]),
        None => None,
    }
}

/// Takes a container's children out of `w`, leaving it with none; nothing for any
/// other node.
fn take_children(w: &mut Widget) -> (r: Option<Vec<Widget>>)
    ensures
        match old(w).content {
            Content::Group { children } => r == Some(children) && final(w).label == old(w).label
                && final(w).content == (Content::Group { children: final(w).content->children }),
            _ => r is None && *final(w) == *old(w),
        },
{
    let mut c = Content::Frame { image: None };
    std::mem::swap(&mut w.content, &mut c);
    match c {
        Content::Group { children } => {
            w.content = Content::Group { children: Vec::new() };
            Some(children)
        },
        other => {
            w.content = other;
            None
        },
    }
}

/// The node that `get_widget` finds in `w` for `p`: the first child labelled `p`
/// in a container; `w` itself where it is no container and carries `p`.
pub open spec fn widget_for(w: Widget, p: Seq<char>) -> Option<Widget> {
    match w.content {
        Content::Group { children } => match find_label(children@, p) {
            Some(i) => Some(children@[i]),
            None => None,
        },
        _ => if w.label@ == p {
            Some(w)
        } else {
            None
        },
    }
}

fn get_prop_(wid: &Widget, prop: &str) -> (r: Option<String>)
    ensures
        opt_view(r) == lookup(children_of(*wid), prop@),
{
    match &wid.content {
        Content::Group { children } => lookup_in(children, prop),
        _ => None,
    }
}

fn set_prop_(wid: &mut Widget, prop: &str, value: &str) -> (r: Result<(), FltkFormError>)
    ensures
        final(wid).label == old(wid).label,
        final(wid).content is Group <==> old(wid).content is Group,
        written_result(children_of(*old(wid)), children_of(*final(wid)), prop@, value@, r),
{
    match take_children(wid) {
        Some(mut kids) => {
            let r = write_in(&mut kids, prop, value);
            wid.content = Content::Group { children: kids };
            r
        },
        None => Err(FltkFormError::Internal(FltkFormErrorKind::PropertyNotFound)),
    }
}

fn get_props_(wid: &Widget) -> (r: Vec<(String, String)>)
    ensures
        lists_map(r@, props_of(children_of(*wid))),
{
    match &wid.content {
        Content::Group { children } => props_in(children),
        _ => {
            let r: Vec<(String, String)> = Vec::new();
            assert(props_of(children_of(*wid)) =~= Map::empty());
            r
        },
    }
}

fn rename_prop_(wid: &mut Widget, prop: &str, new_name: &str)
    ensures
        final(wid).label == old(wid).label,
        final(wid).content is Group <==> old(wid).content is Group,
        relabelled(children_of(*old(wid)), children_of(*final(wid)), prop@, new_name@),
{
    if let Some(mut kids) = take_children(wid) {
        relabel_in(&mut kids, prop, new_name);
        wid.content = Content::Group { children: kids };
    }
}

fn get_widget_<'a>(wid: &'a Widget, prop: &str) -> (r: Option<&'a Widget>)
    ensures
        match r {
            Some(c) => widget_for(*wid, prop@) == Some(*c),
            None => widget_for(*wid, prop@) is None,
        },
{
    match &wid.content {
        Content::Group { children } => child_in(children, prop),
        _ => {
            let p = prop.to_owned();
            if wid.label == p {
                Some(wid)
            } else {
                None
            }
        },
    }
}

/// Label-keyed access to the properties of a widget tree: the direct children of
/// its top container, each addressed by its display label.
pub trait HasProps {
    /// The value shown by the first child labelled `prop`.
    fn get_prop(&self, prop: &str) -> Option<String>;

    /// Writes `value` into the first child labelled `prop`.
    fn set_prop(&mut self, prop: &str, value: &str) -> Result<(), FltkFormError>;

    /// Every labelled property with a value, each label once.
    fn get_props(&self) -> Vec<(String, String)>;

    /// Relabels the first child labelled `prop`.
    fn rename_prop(&mut self, prop: &str, new_name: &str);

    /// The first child labelled `prop`, for further direct use.
    fn get_widget(&self, prop: &str) -> Option<&Widget>;
}

impl HasProps for Widget {
    fn get_prop(&self, prop: &str) -> (r: Option<String>)
        ensures
            opt_view(r) == lookup(children_of(*self), prop@),
    {
        get_prop_(self, prop)
    }

    fn set_prop(&mut self, prop: &str, value: &str) -> (r: Result<(), FltkFormError>)
        ensures
            final(self).label == old(self).label,
            final(self).content is Group <==> old(self).content is Group,
            written_result(children_of(*old(self)), children_of(*final(self)), prop@, value@, r),
    {
        set_prop_(self, prop, value)
    }

    fn get_props(&self) -> (r: Vec<(String, String)>)
        ensures
            lists_map(r@, props_of(children_of(*self))),
    {
        get_props_(self)
    }

    fn rename_prop(&mut self, prop: &str, new_name: &str)
        ensures
            final(self).label == old(self).label,
            final(self).content is Group <==> old(self).content is Group,
            relabelled(children_of(*old(self)), children_of(*final(self)), prop@, new_name@),
    {
        rename_prop_(self, prop, new_name)
    }

    fn get_widget(&self, prop: &str) -> (r: Option<&Widget>)
        ensures
            match r {
                Some(c) => widget_for(*self, prop@) == Some(*c),
                None => widget_for(*self, prop@) is None,
            },
    {
        get_widget_(self, prop)
    }
}

/// The first labelled position is the one `find_label` gives.
pub proof fn lemma_find_label_is(kids: Seq<Widget>, p: Seq<char>, i: int)
    requires
        is_first_labelled(kids, p, i),
    ensures
        find_label(kids, p) == Some(i),
{
    let c = choose|c: int| is_first_labelled(kids, p, c);
    if c < i {
        assert(kids[c].label@ != p);
    } else if c > i {
        assert(kids[i].label@ != p);
    }
}

/// Where no child carries `p`, `find_label` finds nothing.
pub proof fn lemma_find_label_absent(kids: Seq<Widget>, p: Seq<char>)
    requires
        forall|j: int| 0 <= j < kids.len() ==> #[trigger] kids[j].label@ != p,
    ensures
        find_label(kids, p) is None,
{
}

/// A struct's form, with distinct non-empty field names and a field node that shows
/// a value for each field, has exactly one property per field: keyed by the
/// field's name, with the value that field's node shows.
pub proof fn lemma_struct_props(w: Widget, name: Seq<char>, fields: Seq<(String, Widget)>)
    requires
        is_struct_node(w, name, fields),
        forall|i: int, j: int|
            0 <= i < j < fields.len() ==> #[trigger] fields[i].0@ != #[trigger] fields[j].0@,
        forall|i: int| 0 <= i < fields.len() ==> (#[trigger] fields[i].0@).len() > 0,
        forall|i: int| 0 <= i < fields.len() ==> shown_value(#[trigger] fields[i].1) is Some,
    ensures
        forall|i: int|
            0 <= i < fields.len() ==> props_of(children_of(w)).contains_key(#[trigger] fields[i].0@)
                && props_of(children_of(w))[fields[i].0@] == shown_value(fields[i].1).unwrap(),
        forall|k: Seq<char>|
            #[trigger] props_of(children_of(w)).contains_key(k) ==> exists|i: int|
                0 <= i < fields.len() && fields[i].0@ == k,
{
    let kids = children_of(w);
    assert forall|i: int| 0 <= i < fields.len() implies props_of(kids).contains_key(
        #[trigger] fields[i].0@,
    ) && props_of(kids)[fields[i].0@] == shown_value(fields[i].1).unwrap() by {
        assert(kids[i].label@ == fields[i].0@);
        assert forall|j: int| 0 <= j < i implies #[trigger] kids[j].label@ != fields[i].0@ by {
            assert(kids[j].label@ == fields[j].0@);
        }
        lemma_find_label_is(kids, fields[i].0@, i);
        assert(shown_value(kids[i]) == shown_value(fields[i].1));
    }
    assert forall|k: Seq<char>| #[trigger] props_of(kids).contains_key(k) implies exists|i: int|
        0 <= i < fields.len() && fields[i].0@ == k by {
        let i = find_label(kids, k).unwrap();
        assert(is_first_labelled(kids, k, i));
        assert(kids[i].label@ == fields[i].0@);
    }
}

/// Renaming a label that one child alone carries, to a label that no child carries,
/// moves the property: the new label reads what the old one read, and the old one
/// reads nothing.
pub proof fn lemma_rename_moves_prop(before: Seq<Widget>, after: Seq<Widget>, p: Seq<char>, n: Seq<char>)
    requires
        relabelled(before, after, p, n),
        p != n,
        forall|j: int| 0 <= j < before.len() ==> #[trigger] before[j].label@ != n,
        forall|i: int, j: int|
            0 <= i < j < before.len() ==> !(#[trigger] before[i].label@ == p && #[trigger] before[j].label@ == p),
    ensures
        lookup(after, n) == lookup(before, p),
        lookup(after, p) is None,
{
    match find_label(before, p) {
        None => {
            assert(after == before);
            lemma_find_label_absent(after, n);
        },
        Some(i) => {
            assert(is_first_labelled(before, p, i));
            assert forall|j: int| 0 <= j < i implies #[trigger] after[j].label@ != n by {
                assert(after[j] == before[j]);
            }
            lemma_find_label_is(after, n, i);
            assert(shown_value(after[i]) == shown_value(before[i]));
            assert forall|j: int| 0 <= j < after.len() implies #[trigger] after[j].label@ != p by {
                if j != i {
                    assert(after[j] == before[j]);
                    if j < i {
                        assert(before[j].label@ != p);
                    } else {
                        assert(!(before[i].label@ == p && before[j].label@ == p));
                    }
                }
            }
            lemma_find_label_absent(after, p);
        },
    }
}

/// Reading a label back after a successful write gives the text written for a
/// text field or display, `true` exactly when `true` was written for a checkbox,
/// and for a selector the text written where some option has it, else nothing.
pub proof fn lemma_write_then_read(
    before: Seq<Widget>,
    after: Seq<Widget>,
    p: Seq<char>,
    v: Seq<char>,
    r: Result<(), FltkFormError>,
)
    requires
        written_result(before, after, p, v, r),
        r is Ok,
    ensures
        find_label(before, p) is Some,
        match before[find_label(before, p).unwrap()].content {
            Content::Input { .. } | Content::Output { .. } => lookup(after, p) == Some(v),
            Content::CheckButton { .. } => lookup(after, p) == Some(bool_text(v == "true"@)),
            Content::Choice { options, .. } => lookup(after, p) == if find_option(options@, v) is Some {
                Some(v)
            } else {
                None
            },
            _ => false,
        },
{
    let i = find_label(before, p).unwrap();
    assert(is_first_labelled(before, p, i));
    assert forall|j: int| 0 <= j < i implies #[trigger] after[j].label@ != p by {
        assert(after[j] == before[j]);
    }
    lemma_find_label_is(after, p, i);
    assert(lookup(after, p) == shown_value(after[i]));
    match before[i].content {
        Content::Choice { options, .. } => {
            let o2 = after[i].content->options;
            assert(o2@ == options@);
            if find_option(options@, v) is Some {
                let c = choose|c: int|
                    0 <= c < options@.len() && options@[c]@ == v && forall|j: int|
                        0 <= j < c ==> #[trigger] options@[j]@ != v;
                assert(0 <= c < o2@.len());
                assert(o2.len() == o2@.len());
                assert(after[i].content->selected == Some(c as usize));
                assert(shown_value(after[i]) == Some(o2@[c]@));
            }
        },
        _ => {},
    }
}

/// Writing to a label that no child carries fails with `PropertyNotFound` and
/// leaves every property as it was.
pub proof fn lemma_write_unknown_label(
    before: Seq<Widget>,
    after: Seq<Widget>,
    p: Seq<char>,
    v: Seq<char>,
    r: Result<(), FltkFormError>,
)
    requires
        written_result(before, after, p, v, r),
        forall|j: int| 0 <= j < before.len() ==> #[trigger] before[j].label@ != p,
    ensures
        r == Err::<(), FltkFormError>(FltkFormError::Internal(FltkFormErrorKind::PropertyNotFound)),
        after == before,
        props_of(after) == props_of(before),
{
    lemma_find_label_absent(before, p);
}

/// The selector of an enum value with ordinal `k` has option `k` selected, and
/// reads as the name of variant `k`.
pub proof fn lemma_enum_reads_variant(w: Widget, variants: Seq<String>, k: usize)
    requires
        is_enum_node(w, variants, k as int),
        0 <= k < variants.len(),
    ensures
        w.content->selected == Some(k),
        shown_value(w) == Some(variants[k as int]@),
{
}

/// A container of selectors rendered from enum values carries no label on any of
/// them, so it has no properties at all.
pub proof fn lemma_enum_sequence_has_no_props(w: Widget, variants: Seq<String>, k: int)
    requires
        w.content is Group,
        forall|i: int| 0 <= i < children_of(w).len() ==> is_enum_node(#[trigger] children_of(w)[i], variants, k),
    ensures
        forall|i: int| 0 <= i < children_of(w).len() ==> (#[trigger] children_of(w)[i]).label@.len() == 0,
        props_of(children_of(w)) == Map::<Seq<char>, Seq<char>>::empty(),
{
    let kids = children_of(w);
    assert forall|q: Seq<char>| !(#[trigger] props_of(kids).contains_key(q)) by {
        if q.len() > 0 {
            assert forall|j: int| 0 <= j < kids.len() implies #[trigger] kids[j].label@ != q by {
                assert(is_enum_node(kids[j], variants, k));
            }
            lemma_find_label_absent(kids, q);
        }
    }
    assert(props_of(kids) =~= Map::empty());
}

} // verus!
