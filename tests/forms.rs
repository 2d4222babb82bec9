use fltk_form::error::{FltkFormError, FltkFormErrorKind};
use fltk_form::utils::{adapt_color, color_map_adaptor};
use fltk_form::widget::{struct_form, Content, Widget};
use fltk_form::{enum_form, FltkForm, Form};

#[derive(Clone, Copy)]
enum Kind {
    A,
    B,
}

impl FltkForm for Kind {
    fn generate(&self) -> Widget {
        enum_form(vec![String::from("A"), String::from("B")], *self as usize)
    }
    fn view(&self) -> Widget {
        fltk_form::enum_view(match self {
            Kind::A => String::from("A"),
            Kind::B => String::from("B"),
        })
    }
}

struct Record {
    first: i32,
    kind: Kind,
}

impl FltkForm for Record {
    fn generate(&self) -> Widget {
        struct_form(
            String::from("Record"),
            vec![(String::from("First Value"), self.first.generate()), (String::from("kind"), self.kind.generate())],
        )
    }
    fn view(&self) -> Widget {
        struct_form(
            String::from("Record"),
            vec![(String::from("First Value"), self.first.view()), (String::from("kind"), self.kind.view())],
        )
    }
}

#[test]
fn form_reads_and_writes_its_data() {
    let mut form = Form::default().from_data(Record { first: 0, kind: Kind::B });
    assert_eq!(form.get_prop("First Value"), Some(String::from("0")));
    assert_eq!(form.get_prop("kind"), Some(String::from("B")));
    assert!(form.set_prop("kind", "A").is_ok());
    assert_eq!(form.get_prop("kind"), Some(String::from("A")));
    form.rename_prop("First Value", "first");
    assert_eq!(form.get_prop("first"), Some(String::from("0")));
    assert_eq!(form.get_props().len(), 2);
    let kind = form.get_widget("kind").unwrap();
    assert!(matches!(&kind.content, Content::Choice { selected: Some(0), .. }));
    assert_eq!(form.get_widget("first").unwrap().label, "first");
    assert!(form.get_widget("Record").is_none());
    assert!(form.get_widget("First Value").is_none());
}

#[test]
fn form_view_is_read_only_text() {
    let form = Form::new(10, 20, 300, 200, Some("title")).from_data_view(Record { first: -3, kind: Kind::A });
    assert_eq!((form.x, form.y, form.w, form.h), (10, 20, 300, 200));
    assert_eq!(form.label.as_deref(), Some("title"));
    assert_eq!(form.get_prop("First Value"), Some(String::from("-3")));
    assert_eq!(form.get_prop("kind"), Some(String::from("A")));
}

#[test]
fn empty_form_has_no_props() {
    let mut form = Form::default_fill(0, 0, 400, 300);
    assert_eq!((form.w, form.h), (400, 300));
    assert_eq!(form.get_prop("a"), None);
    assert!(form.get_props().is_empty());
    let r = form.set_prop("a", "1");
    assert!(matches!(r, Err(FltkFormError::Internal(FltkFormErrorKind::PropertyNotFound))));
    form.set_data(vec![Kind::A, Kind::A, Kind::A, Kind::A, Kind::A]);
    assert!(form.get_props().is_empty());
    assert_eq!(form.widgets.len(), 1);
    let first = form.get_widget("").unwrap();
    assert!(matches!(&first.content, Content::Choice { selected: Some(0), .. }));
    assert!(form.get_widget("A").is_none());
}

#[test]
fn color_names_become_hex() {
    assert_eq!(color_map_adaptor("Red"), "#ff0000");
    assert_eq!(color_map_adaptor("IndianRed"), "#cd5c5c");
    assert_eq!(color_map_adaptor("#123456"), "#123456");
    assert_eq!(color_map_adaptor("NoSuchColor"), "NoSuchColor");
    assert_eq!(color_map_adaptor(""), "");
    assert_eq!(adapt_color("x", Some((1, 2, 255))), "#0102ff");
    assert_eq!(adapt_color("#x", Some((1, 2, 255))), "#x");
    assert_eq!(adapt_color("x", None), "x");
}
