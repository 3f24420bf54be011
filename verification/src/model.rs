//! The declaration of a record, as the generators read it.

use vstd::prelude::*;

verus! {

/// A type expression.
///
/// `text` is the expression as it is written in the declaration and is what the
/// generators emit wherever the type is named again. `shape` is what the type
/// inspector reads.
#[derive(Debug, PartialEq, Eq)]
pub struct Ty {
    pub text: String,
    pub shape: TyShape,
}

#[derive(Debug, PartialEq, Eq)]
pub enum TyShape {
    /// A path such as `std::collections::HashMap<i64, N>`.
    Path { segments: Vec<PathSegment> },
    /// Anything that is not a plain path: a reference, a tuple, an array, a
    /// function type.
    Other,
}

/// One segment of a path, with the types between its angle brackets: none
/// where it has no angle brackets.
#[derive(Debug, PartialEq, Eq)]
pub struct PathSegment {
    pub ident: String,
    pub types: Vec<Ty>,
}

/// An attribute on a field.
#[derive(Debug, PartialEq, Eq)]
pub enum Attribute {
    /// A bare word, `#[partition_key]`.
    Word { name: String },
    /// A list, `#[name(..)]`.
    List { name: String },
    /// A name with a value, `#[name = ".."]`.
    NameValue { name: String },
}

/// A named field of a record.
#[derive(Debug, PartialEq, Eq)]
pub struct Field {
    pub ident: String,
    pub ty: Ty,
    pub attrs: Vec<Attribute>,
}

/// What a declaration holds.
#[derive(Debug, PartialEq, Eq)]
pub enum Body {
    /// A struct with named fields, in source order.
    Struct { fields: Vec<Field> },
    /// A tuple struct.
    Tuple,
    /// A unit struct.
    Unit,
    /// An enum.
    Enum,
}

/// A declaration that a derive is applied to.
#[derive(Debug, PartialEq, Eq)]
pub struct DeriveInput {
    pub ident: String,
    pub body: Body,
}

/// The names of `fields`, in order.
pub open spec fn field_names(fields: Seq<Field>) -> Seq<Seq<char>> {
    Seq::new(fields.len(), |i: int| fields[i].ident@)
}

/// The type texts of `fields`, in order.
pub open spec fn field_types(fields: Seq<Field>) -> Seq<Seq<char>> {
    Seq::new(fields.len(), |i: int| fields[i].ty.text@)
}

/// The names of the fields that `fields` refer to, in order.
pub open spec fn ref_names(fields: Seq<&Field>) -> Seq<Seq<char>> {
    Seq::new(fields.len(), |i: int| fields[i].ident@)
}

/// The type texts of the fields that `fields` refer to, in order.
pub open spec fn ref_types(fields: Seq<&Field>) -> Seq<Seq<char>> {
    Seq::new(fields.len(), |i: int| fields[i].ty.text@)
}

impl Ty {
    /// The segments of the path, if the type is one.
    pub open spec fn segments(self) -> Option<Seq<PathSegment>> {
        match self.shape {
            TyShape::Path { segments } => Some(segments@),
            TyShape::Other => None,
        }
    }

    /// The last segment of the path, if the type is a path that has one.
    pub open spec fn last_segment(self) -> Option<PathSegment> {
        match self.segments() {
            Some(segments) => if segments.len() > 0 {
                Some(segments.last())
            } else {
                None
            },
            None => None,
        }
    }

    /// A path of one segment without type arguments.
    pub fn simple(name: &str) -> (ty: Ty)
        ensures
            ty.text@ == name@,
            ty.last_segment() matches Some(segment) && segment.ident@ == name@
                && segment.types@.len() == 0,
            ty.segments() matches Some(segments) && segments.len() == 1,
    {
        let mut segments: Vec<PathSegment> = Vec::new();
        segments.push(PathSegment { ident: name.to_owned(), types: Vec::new() });
        Ty { text: name.to_owned(), shape: TyShape::Path { segments } }
    }
}

impl DeriveInput {
    /// The named fields, if the declaration is a struct that has them.
    pub open spec fn named_fields(self) -> Option<Seq<Field>> {
        match self.body {
            Body::Struct { fields } => Some(fields@),
            _ => None,
        }
    }
}

} // verus!
