use fltk_form::error::{FltkFormError, FltkFormErrorKind};
use fltk_form::widget::{enum_form, struct_form, text_input, Content, InputKind, Widget};
use fltk_form::{FltkForm, HasProps};

fn sample() -> Widget {
    struct_form(
        String::from("MyStruct"),
        vec![
            (String::from("a"), 5i32.generate()),
            (String::from("b"), text_input(InputKind::Float, format!("{:?}", 3.0f64))),
            (String::from("c"), String::from("hello").generate()),
            (String::from("d"), enum_form(vec![String::from("A"), String::from("B"), String::from("C")], 1)),
            (String::from("e"), true.generate()),
        ],
    )
}

fn sorted(mut v: Vec<(String, String)>) -> Vec<(String, String)> {
    v.sort();
    v
}

fn not_found(r: Result<(), FltkFormError>) -> bool {
    matches!(r, Err(FltkFormError::Internal(FltkFormErrorKind::PropertyNotFound)))
}

#[test]
fn get_props_lists_every_field() {
    let w = sample();
    let props = sorted(w.get_props());
    assert_eq!(
        props,
        vec![
            (String::from("a"), String::from("5")),
            (String::from("b"), String::from("3.0")),
            (String::from("c"), String::from("hello")),
            (String::from("d"), String::from("B")),
            (String::from("e"), String::from("true")),
        ]
    );
    assert_eq!(w.get_prop("b"), Some(String::from("3.0")));
    assert_eq!(w.label, "MyStruct");
}

#[test]
fn get_prop_of_missing_label_is_none() {
    let w = sample();
    assert_eq!(w.get_prop("zzz"), None);
    assert_eq!(w.get_prop(""), None);
}

#[test]
fn get_prop_on_a_leaf_is_none() {
    let w = 5i32.generate();
    assert_eq!(w.get_prop(""), None);
    assert!(w.get_props().is_empty());
}

#[test]
fn rename_moves_the_value() {
    let mut w = sample();
    let before = w.get_prop("a");
    w.rename_prop("a", "First Value");
    assert_eq!(w.get_prop("First Value"), before);
    assert_eq!(w.get_prop("a"), None);
    assert_eq!(w.label, "MyStruct");
}

#[test]
fn rename_of_missing_label_changes_nothing() {
    let mut w = sample();
    let before = sorted(w.get_props());
    w.rename_prop("nope", "x");
    assert_eq!(sorted(w.get_props()), before);
}

#[test]
fn set_then_get_text_round_trips() {
    let mut w = sample();
    assert!(w.set_prop("c", "world").is_ok());
    assert_eq!(w.get_prop("c"), Some(String::from("world")));
    assert!(w.set_prop("a", "12").is_ok());
    assert_eq!(w.get_prop("a"), Some(String::from("12")));
}

#[test]
fn set_numeric_field_keeps_text_as_written() {
    let mut w = sample();
    assert!(w.set_prop("b", "4").is_ok());
    assert_eq!(w.get_prop("b"), Some(String::from("4")));
}

#[test]
fn set_then_get_checkbox() {
    let mut w = sample();
    assert!(w.set_prop("e", "false").is_ok());
    assert_eq!(w.get_prop("e"), Some(String::from("false")));
    assert!(w.set_prop("e", "true").is_ok());
    assert_eq!(w.get_prop("e"), Some(String::from("true")));
    assert!(w.set_prop("e", "yes").is_ok());
    assert_eq!(w.get_prop("e"), Some(String::from("false")));
}

#[test]
fn set_then_get_choice() {
    let mut w = sample();
    assert!(w.set_prop("d", "C").is_ok());
    assert_eq!(w.get_prop("d"), Some(String::from("C")));
    assert!(w.set_prop("d", "Q").is_ok());
    assert_eq!(w.get_prop("d"), None);
}

#[test]
fn set_missing_label_is_not_found_and_changes_nothing() {
    let mut w = sample();
    let before = sorted(w.get_props());
    assert!(not_found(w.set_prop("doesNotExist", "1")));
    assert_eq!(sorted(w.get_props()), before);
}

#[test]
fn set_on_a_leaf_is_not_found() {
    let mut w = true.generate();
    assert!(not_found(w.set_prop("", "true")));
}

#[test]
fn set_on_a_frame_fails_to_change_data() {
    let mut w = struct_form(String::from("S"), vec![(String::from("pic"), "caption".generate())]);
    let r = w.set_prop("pic", "x");
    assert!(matches!(r, Err(FltkFormError::Internal(FltkFormErrorKind::FailedToChangeData))));
    assert_eq!(w.get_prop("pic"), None);
}

#[test]
fn duplicate_labels_resolve_to_the_first() {
    let mut w = struct_form(
        String::from("S"),
        vec![(String::from("x"), 1u8.generate()), (String::from("x"), 2u8.generate())],
    );
    assert_eq!(w.get_prop("x"), Some(String::from("1")));
    assert_eq!(sorted(w.get_props()), vec![(String::from("x"), String::from("1"))]);
    assert!(w.set_prop("x", "9").is_ok());
    assert_eq!(w.get_prop("x"), Some(String::from("9")));
    w.rename_prop("x", "y");
    assert_eq!(w.get_prop("y"), Some(String::from("9")));
    assert_eq!(w.get_prop("x"), Some(String::from("2")));
}

#[test]
fn unlabelled_children_give_no_props() {
    let w = struct_form(String::from("S"), vec![(String::new(), 3i64.generate())]);
    assert!(w.get_props().is_empty());
}

#[test]
fn enum_selector_preselects_the_ordinal() {
    let names = vec![String::from("A"), String::from("B"), String::from("C")];
    let w = enum_form(names, 2);
    match &w.content {
        Content::Choice { options, selected } => {
            assert_eq!(options.len(), 3);
            assert_eq!(*selected, Some(2));
        }
        _ => panic!("not a selector"),
    }
    let s = struct_form(String::from("S"), vec![(String::from("kind"), w)]);
    assert_eq!(s.get_prop("kind"), Some(String::from("C")));
}

#[test]
fn enum_selector_out_of_range_selects_nothing() {
    let w = enum_form(vec![String::from("A")], 4);
    assert!(matches!(w.content, Content::Choice { selected: None, .. }));
}

#[test]
fn sequence_of_enum_selectors_has_no_props() {
    let names = || vec![String::from("A"), String::from("B"), String::from("C")];
    let children: Vec<Widget> = (0..5).map(|_| enum_form(names(), 1)).collect();
    let w = Widget { label: String::new(), content: Content::Group { children } };
    match &w.content {
        Content::Group { children } => {
            assert_eq!(children.len(), 5);
            assert!(children.iter().all(|c| c.label.is_empty()));
        }
        _ => panic!("not a container"),
    }
    assert!(w.get_props().is_empty());
}

#[test]
fn get_widget_finds_child_or_self() {
    let w = sample();
    let c = w.get_widget("c").unwrap();
    assert!(matches!(&c.content, Content::Input { value, .. } if value == "hello"));
    assert!(w.get_widget("nope").is_none());
    let leaf = fltk_form::widget::label_frame("title");
    assert_eq!(leaf.get_widget("title").unwrap().label, "title");
    assert!(leaf.get_widget("other").is_none());
}
