use vstd::prelude::*;

verus! {

/// The fields of a struct or of an enum variant.
pub enum FieldsShape {
    /// Fields with names, in declaration order.
    Named(Vec<String>),
    /// Positional fields, by count.
    Unnamed(usize),
    /// No fields.
    Unit,
}

/// One variant of an enum.
pub struct VariantShape {
    pub name: String,
    pub fields: FieldsShape,
}

/// The body of a type declaration.
pub enum DataShape {
    Struct(FieldsShape),
    Enum(Vec<VariantShape>),
    Union,
}

/// A type declaration, as far as form generation reads it.
pub struct TypeShape {
    pub name: String,
    pub data: DataShape,
}

/// What the generated implementation renders for an accepted declaration.
pub enum Derived {
    /// A container labelled `name`, one child per field, labelled with the field's name.
    Struct { name: String, fields: Vec<String> },
    /// A selector over the variant names, with the value's variant selected.
    Enum { name: String, variants: Vec<String> },
}

/// Why a declaration was refused.
pub struct DeriveError {
    pub message: String,
}

/// The message for a declaration of a shape that has no form.
pub open spec fn refusal_message() -> Seq<char> {
    "Expected a `struct` with named fields"@
}

/// Every variant is fieldless.
pub open spec fn all_fieldless(vs: Seq<VariantShape>) -> bool {
    forall|i: int| 0 <= i < vs.len() ==> #[trigger] vs[i].fields is Unit
}

/// `names` are the names of `vs`, in order.
pub open spec fn names_of_variants(names: Seq<String>, vs: Seq<VariantShape>) -> bool {
    &&& names.len() == vs.len()
    &&& forall|i: int| 0 <= i < vs.len() ==> #[trigger] names[i]@ == vs[i].name@
}

/// A copy of a list of names.
fn copy_names(v: &Vec<String>) -> (r: Vec<String>)
    ensures
        r@ == v@,
{
    let mut r: Vec<String> = Vec::new();
    let mut i: usize = 0;
    while i < v.len()
        invariant
            i <= v@.len(),
            r@ == v@.subrange(0, i as int),
        decreases v@.len() - i,
    {
        r.push(v[i].clone());
        i = i + 1;
        assert(r@ =~= v@.subrange(0, i as int));
    }
    assert(v@.subrange(0, v@.len() as int) =~= v@);
    r
}

/// Decides what form a declaration gets: a struct with named fields gets a
/// container of its fields, an enum whose variants are all fieldless gets a
/// selector of its variants, and every other shape is refused.
pub fn impl_widget_deser_trait(ast: &TypeShape) -> (r: Result<Derived, DeriveError>)
    ensures
        match ast.data {
            DataShape::Struct(FieldsShape::Named(fs)) => r matches Ok(Derived::Struct { name, fields })
                && name@ == ast.name@ && fields@ == fs@,
            DataShape::Enum(vs) => if all_fieldless(vs@) {
                r matches Ok(Derived::Enum { name, variants }) && name@ == ast.name@
                    && names_of_variants(variants@, vs@)
            } else {
                r matches Err(e) && e.message@ == refusal_message()
            },
            _ => r matches Err(e) && e.message@ == refusal_message(),
        },
{
    match &ast.data {
        DataShape::Struct(FieldsShape::Named(fs)) => {
            Ok(Derived::Struct { name: ast.name.clone(), fields: copy_names(fs) })
        },
        DataShape::Enum(vs) => {
            let mut variants: Vec<String> = Vec::new();
            let mut i: usize = 0;
            while i < vs.len()
                invariant
                    ast.data == DataShape::Enum(*vs),
                    i <= vs@.len(),
                    names_of_variants(variants@, vs@.subrange(0, i as int)),
                    all_fieldless(vs@.subrange(0, i as int)),
                decreases vs@.len() - i,
            {
                match &vs[i].fields {
                    FieldsShape::Unit => {},
                    _ => {
                        assert(!all_fieldless(vs@));
                        return Err(DeriveError { message: String::from_str("Expected a `struct` with named fields") });
                    },
                }
                variants.push(vs[i].name.clone());
                i = i + 1;
                assert forall|j: int| 0 <= j < i implies #[trigger] variants@[j]@ == vs@.subrange(0, i as int)[j].name@ by {
                    if j < i - 1 {
                        assert(vs@.subrange(0, i as int)[j] == vs@.subrange(0, i - 1)[j]);
                    }
                }
                assert forall|j: int| 0 <= j < i implies #[trigger] vs@.subrange(0, i as int)[j].fields is Unit by {
                    if j < i - 1 {
                        assert(vs@.subrange(0, i as int)[j] == vs@.subrange(0, i - 1)[j]);
                    }
                }
            }
            assert(vs@.subrange(0, vs@.len() as int) =~= vs@);
            Ok(Derived::Enum { name: ast.name.clone(), variants })
        },
        _ => Err(DeriveError { message: String::from_str("Expected a `struct` with named fields") }),
    }
}

} // verus!
