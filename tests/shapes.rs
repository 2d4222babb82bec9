use fltk_form::derive::{DataShape, FieldsShape, VariantShape};
use fltk_form::{impl_widget_deser_trait, Derived, TypeShape};

fn names(v: &[&str]) -> Vec<String> {
    v.iter().map(|s| s.to_string()).collect()
}

fn refused(shape: TypeShape) -> bool {
    match impl_widget_deser_trait(&shape) {
        Err(e) => e.message == "Expected a `struct` with named fields",
        Ok(_) => false,
    }
}

#[test]
fn named_struct_is_accepted() {
    let shape = TypeShape {
        name: String::from("MyStruct"),
        data: DataShape::Struct(FieldsShape::Named(names(&["a", "b", "c"]))),
    };
    match impl_widget_deser_trait(&shape) {
        Ok(Derived::Struct { name, fields }) => {
            assert_eq!(name, "MyStruct");
            assert_eq!(fields, names(&["a", "b", "c"]));
        }
        _ => panic!("refused"),
    }
}

#[test]
fn fieldless_enum_is_accepted() {
    let variants = ["A", "B", "C"]
        .iter()
        .map(|n| VariantShape { name: n.to_string(), fields: FieldsShape::Unit })
        .collect();
    let shape = TypeShape { name: String::from("MyEnum"), data: DataShape::Enum(variants) };
    match impl_widget_deser_trait(&shape) {
        Ok(Derived::Enum { name, variants }) => {
            assert_eq!(name, "MyEnum");
            assert_eq!(variants, names(&["A", "B", "C"]));
        }
        _ => panic!("refused"),
    }
}

#[test]
fn enum_with_data_is_refused() {
    let variants = vec![
        VariantShape { name: String::from("A"), fields: FieldsShape::Unit },
        VariantShape { name: String::from("B"), fields: FieldsShape::Unnamed(1) },
    ];
    assert!(refused(TypeShape { name: String::from("E"), data: DataShape::Enum(variants) }));
    let variants = vec![VariantShape { name: String::from("C"), fields: FieldsShape::Named(names(&["x"])) }];
    assert!(refused(TypeShape { name: String::from("E"), data: DataShape::Enum(variants) }));
}

#[test]
fn tuple_unit_struct_and_union_are_refused() {
    assert!(refused(TypeShape { name: String::from("T"), data: DataShape::Struct(FieldsShape::Unnamed(2)) }));
    assert!(refused(TypeShape { name: String::from("U"), data: DataShape::Struct(FieldsShape::Unit) }));
    assert!(refused(TypeShape { name: String::from("N"), data: DataShape::Union }));
}

#[test]
fn empty_enum_is_accepted() {
    let shape = TypeShape { name: String::from("Never"), data: DataShape::Enum(Vec::new()) };
    assert!(matches!(impl_widget_deser_trait(&shape), Ok(Derived::Enum { variants, .. }) if variants.is_empty()));
}
