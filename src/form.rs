use vstd::prelude::*;

use crate::error::{FltkFormError, FltkFormErrorKind};
use crate::props::{
    child_in, children_of, find_label, lists_map, lookup, opt_view, props_of, relabelled,
    written_result, HasProps,
};
use crate::widget::{Content, Widget};

verus! {

/// A rectangular area that hosts the trees generated from data. Its first tree is
/// the one whose top container's children are the properties.
pub struct Form {
    pub x: i32,
    pub y: i32,
    pub w: i32,
    pub h: i32,
    pub label: Option<String>,
    pub widgets: Vec<Widget>,
}

impl Form {
    /// The property nodes: the children of the first hosted tree's top container.
    pub open spec fn prop_nodes(&self) -> Seq<Widget> {
        if self.widgets@.len() > 0 {
            children_of(self.widgets@[0])
        } else {
            Seq::empty()
        }
    }

    /// `after` is `self` with only the first hosted tree's children changed.
    pub open spec fn same_frame(&self, after: Form) -> bool {
        &&& after.x == self.x && after.y == self.y && after.w == self.w && after.h == self.h
        &&& after.label == self.label
        &&& after.widgets@.len() == self.widgets@.len()
        &&& forall|j: int| 1 <= j < self.widgets@.len() ==> after.widgets@[j] == self.widgets@[j]
        &&& self.widgets@.len() > 0 ==> after.widgets@[0].label == self.widgets@[0].label
            && (after.widgets@[0].content is Group <==> self.widgets@[0].content is Group)
    }

    /// An empty form over the given rectangle.
    pub fn new(x: i32, y: i32, w: i32, h: i32, label: Option<&str>) -> (r: Self)
        ensures
            r.x == x && r.y == y && r.w == w && r.h == h,
            match label {
                Some(l) => r.label matches Some(s) && s@ == l@,
                None => r.label is None,
            },
            r.widgets@.len() == 0,
    {
        let label = match label {
            Some(l) => Some(l.to_owned()),
            None => None,
        };
        Form { x, y, w, h, label, widgets: Vec::new() }
    }

    /// An empty form that fills its parent's rectangle.
    pub fn default_fill(parent_x: i32, parent_y: i32, parent_w: i32, parent_h: i32) -> (r: Self)
        ensures
            r.x == parent_x && r.y == parent_y && r.w == parent_w && r.h == parent_h,
            r.label is None,
            r.widgets@.len() == 0,
    {
        Form::new(parent_x, parent_y, parent_w, parent_h, None)
    }

    /// Adds the editable tree of `data` to the form.
    pub fn set_data<T: crate::reflect::FltkForm>(&mut self, data: T)
        ensures
            final(self).x == old(self).x && final(self).y == old(self).y,
            final(self).w == old(self).w && final(self).h == old(self).h,
            final(self).label == old(self).label,
            final(self).widgets@.len() == old(self).widgets@.len() + 1,
            final(self).widgets@.drop_last() == old(self).widgets@,
            T::renders(&data, final(self).widgets@.last(), true),
    {
        let w = T::generate(&data);
        self.widgets.push(w);
    }

    /// The form with the editable tree of `data` added.
    pub fn from_data<T: crate::reflect::FltkForm>(self, data: T) -> (r: Self)
        ensures
            r.x == self.x && r.y == self.y && r.w == self.w && r.h == self.h,
            r.label == self.label,
            r.widgets@.len() == self.widgets@.len() + 1,
            r.widgets@.drop_last() == self.widgets@,
            T::renders(&data, r.widgets@.last(), true),
    {
        let mut f = self;
        f.set_data(data);
        f
    }

    /// Adds the read-only tree of `data` to the form.
    pub fn set_data_view<T: crate::reflect::FltkForm>(&mut self, data: T)
        ensures
            final(self).x == old(self).x && final(self).y == old(self).y,
            final(self).w == old(self).w && final(self).h == old(self).h,
            final(self).label == old(self).label,
            final(self).widgets@.len() == old(self).widgets@.len() + 1,
            final(self).widgets@.drop_last() == old(self).widgets@,
            T::renders(&data, final(self).widgets@.last(), false),
    {
        let w = T::view(&data);
        self.widgets.push(w);
    }

    /// The form with the read-only tree of `data` added.
    pub fn from_data_view<T: crate::reflect::FltkForm>(self, data: T) -> (r: Self)
        ensures
            r.x == self.x && r.y == self.y && r.w == self.w && r.h == self.h,
            r.label == self.label,
            r.widgets@.len() == self.widgets@.len() + 1,
            r.widgets@.drop_last() == self.widgets@,
            T::renders(&data, r.widgets@.last(), false),
    {
        let mut f = self;
        f.set_data_view(data);
        f
    }

    /// The value shown by the first property labelled `prop`.
    pub fn get_prop(&self, prop: &str) -> (r: Option<String>)
        ensures
            opt_view(r) == lookup(self.prop_nodes(), prop@),
    {
        if self.widgets.len() > 0 {
            self.widgets[0].get_prop(prop)
        } else {
            None
        }
    }

    /// Writes `value` into the first property labelled `prop`.
    pub fn set_prop(&mut self, prop: &str, value: &str) -> (r: Result<(), FltkFormError>)
        ensures
            old(self).same_frame(*final(self)),
            written_result(old(self).prop_nodes(), final(self).prop_nodes(), prop@, value@, r),
    {
        if self.widgets.len() == 0 {
            return Err(FltkFormError::Internal(FltkFormErrorKind::PropertyNotFound));
        }
        let mut top = self.widgets.remove(0);
        let r = top.set_prop(prop, value);
        self.widgets.insert(0, top);
        r
    }

    /// Every labelled property with a value, each label once.
    pub fn get_props(&self) -> (r: Vec<(String, String)>)
        ensures
            lists_map(r@, props_of(self.prop_nodes())),
    {
        if self.widgets.len() > 0 {
            self.widgets[0].get_props()
        } else {
            let r: Vec<(String, String)> = Vec::new();
            assert(props_of(self.prop_nodes()) =~= Map::empty());
            r
        }
    }

    /// Relabels the first property labelled `prop`.
    pub fn rename_prop(&mut self, prop: &str, new_name: &str)
        ensures
            old(self).same_frame(*final(self)),
            relabelled(old(self).prop_nodes(), final(self).prop_nodes(), prop@, new_name@),
    {
        if self.widgets.len() > 0 {
            let mut top = self.widgets.remove(0);
            top.rename_prop(prop, new_name);
            self.widgets.insert(0, top);
        }
    }

    /// The first property node labelled `prop`, for further direct use.
    pub fn get_widget(&self, prop: &str) -> (r: Option<&Widget>)
        ensures
            match find_label(self.prop_nodes(), prop@) {
                None => r is None,
                Some(i) => r == Some(&self.prop_nodes()[i]),
            },
    {
        if self.widgets.len() > 0 {
            match &self.widgets[0].content {
                Content::Group { children } => child_in(children, prop),
                _ => None,
            }
        } else {
            None
        }
    }
}

impl Default for Form {
    fn default() -> (r: Self)
        ensures
            r.x == 0 && r.y == 0 && r.w == 0 && r.h == 0,
            r.label is None,
            r.widgets@.len() == 0,
    {
        Form::new(0, 0, 0, 0, None)
    }
}

} // verus!
