use fltk_form::text::{boolean_text, integer_text};
use fltk_form::widget::{Content, InputKind};
use fltk_form::{make_image_frame, FlImage, FltkForm};

#[test]
fn integer_text_is_decimal() {
    assert_eq!(integer_text(0), "0");
    assert_eq!(integer_text(-42), "-42");
    assert_eq!(integer_text(1234567890), "1234567890");
    assert_eq!(integer_text(i128::MIN), i128::MIN.to_string());
    assert_eq!(integer_text(i128::MAX), i128::MAX.to_string());
    assert_eq!(boolean_text(true), "true");
    assert_eq!(boolean_text(false), "false");
}

#[test]
fn integers_generate_integer_fields() {
    let w = (-7i8).generate();
    assert!(w.label.is_empty());
    assert!(matches!(&w.content, Content::Input { kind: InputKind::Integer, value } if value == "-7"));
    let w = u64::MAX.view();
    assert!(matches!(&w.content, Content::Output { value } if *value == u64::MAX.to_string()));
    let w = i64::MIN.generate();
    assert!(matches!(&w.content, Content::Input { value, .. } if *value == i64::MIN.to_string()));
    let w = 300usize.generate();
    assert!(matches!(&w.content, Content::Input { value, .. } if value == "300"));
}

#[test]
fn bools_generate_checkbox_and_view_text() {
    assert!(matches!(true.generate().content, Content::CheckButton { checked: true }));
    assert!(matches!(false.generate().content, Content::CheckButton { checked: false }));
    assert!(matches!(&false.view().content, Content::Output { value } if value == "false"));
}

#[test]
fn strings_generate_text_fields() {
    let s = String::from("abc");
    assert!(matches!(&s.generate().content, Content::Input { kind: InputKind::Text, value } if value == "abc"));
    assert!(matches!(&s.view().content, Content::Output { value } if value == "abc"));
    let w = "static".generate();
    assert_eq!(w.label, "static");
    assert!(matches!(w.content, Content::Frame { image: None }));
}

#[test]
fn images_generate_frames() {
    let img = FlImage(String::from("examples/orange_circle.svg"));
    let w = img.generate();
    assert!(matches!(&w.content, Content::Frame { image: Some(p) } if p == "examples/orange_circle.svg"));
    let w = make_image_frame("missing.png");
    assert!(matches!(&w.content, Content::Frame { image: Some(p) } if p == "missing.png"));
}

#[test]
fn vectors_stack_their_elements() {
    let v = vec![1i32, 2, 3];
    let w = v.generate();
    assert!(w.label.is_empty());
    match &w.content {
        Content::Group { children } => {
            assert_eq!(children.len(), 3);
            assert!(matches!(&children[2].content, Content::Input { value, .. } if value == "3"));
            assert!(children.iter().all(|c| c.label.is_empty()));
        }
        _ => panic!("not a container"),
    }
    let empty: Vec<bool> = Vec::new();
    assert!(matches!(&empty.view().content, Content::Group { children } if children.is_empty()));
}
