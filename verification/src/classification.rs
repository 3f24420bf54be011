//! The classification of a type expression, through its type arguments.

use crate::common::{
    get_ident_params_string, get_ident_string, get_map_params_string, ident_of, params_of,
    tag_of, type_tag, TypeTag,
};
use crate::error::{GenError, GenErrorView};
use crate::model::Ty;
use vstd::prelude::*;

verus! {

/// What a type expression is to the generators.
#[derive(Debug, PartialEq, Eq)]
pub enum TypeClassification {
    Blob,
    Text,
    Bool,
    I8,
    I16,
    I32,
    I64,
    F32,
    F64,
    Decimal,
    IpAddr,
    Uuid,
    Timestamp,
    /// A sequence of `element`.
    List { element: Box<TypeClassification> },
    /// A mapping from `key` to `value`.
    Mapping { key: Box<TypeClassification>, value: Box<TypeClassification> },
    /// A value of `inner` that may be absent.
    Optional { inner: Box<TypeClassification> },
    /// A nested record, by the name of its type.
    Udt { name: String },
}

/// A [`TypeClassification`] with its names as sequences of characters.
pub enum ClassificationView {
    Blob,
    Text,
    Bool,
    I8,
    I16,
    I32,
    I64,
    F32,
    F64,
    Decimal,
    IpAddr,
    Uuid,
    Timestamp,
    List { element: Box<ClassificationView> },
    Mapping { key: Box<ClassificationView>, value: Box<ClassificationView> },
    Optional { inner: Box<ClassificationView> },
    Udt { name: Seq<char> },
}

/// The view of a classification.
pub open spec fn classification_view(c: TypeClassification) -> ClassificationView
    decreases c,
{
    match c {
        TypeClassification::Blob => ClassificationView::Blob,
        TypeClassification::Text => ClassificationView::Text,
        TypeClassification::Bool => ClassificationView::Bool,
        TypeClassification::I8 => ClassificationView::I8,
        TypeClassification::I16 => ClassificationView::I16,
        TypeClassification::I32 => ClassificationView::I32,
        TypeClassification::I64 => ClassificationView::I64,
        TypeClassification::F32 => ClassificationView::F32,
        TypeClassification::F64 => ClassificationView::F64,
        TypeClassification::Decimal => ClassificationView::Decimal,
        TypeClassification::IpAddr => ClassificationView::IpAddr,
        TypeClassification::Uuid => ClassificationView::Uuid,
        TypeClassification::Timestamp => ClassificationView::Timestamp,
        TypeClassification::List { element } => ClassificationView::List {
            element: Box::new(classification_view(*element)),
        },
        TypeClassification::Mapping { key, value } => ClassificationView::Mapping {
            key: Box::new(classification_view(*key)),
            value: Box::new(classification_view(*value)),
        },
        TypeClassification::Optional { inner } => ClassificationView::Optional {
            inner: Box::new(classification_view(*inner)),
        },
        TypeClassification::Udt { name } => ClassificationView::Udt {
            name: name@,
        },
    }
}

impl View for TypeClassification {
    type V = ClassificationView;

    open spec fn view(&self) -> ClassificationView {
        classification_view(*self)
    }
}

impl ClassificationView {
    /// What the outermost level of the classification is.
    pub open spec fn tag(self) -> TypeTag {
        match self {
            ClassificationView::Blob => TypeTag::Blob,
            ClassificationView::Text => TypeTag::Text,
            ClassificationView::Bool => TypeTag::Bool,
            ClassificationView::I8 => TypeTag::I8,
            ClassificationView::I16 => TypeTag::I16,
            ClassificationView::I32 => TypeTag::I32,
            ClassificationView::I64 => TypeTag::I64,
            ClassificationView::F32 => TypeTag::F32,
            ClassificationView::F64 => TypeTag::F64,
            ClassificationView::Decimal => TypeTag::Decimal,
            ClassificationView::IpAddr => TypeTag::IpAddr,
            ClassificationView::Uuid => TypeTag::Uuid,
            ClassificationView::Timestamp => TypeTag::Timestamp,
            ClassificationView::List { .. } => TypeTag::List,
            ClassificationView::Mapping { .. } => TypeTag::Mapping,
            ClassificationView::Optional { .. } => TypeTag::Optional,
            ClassificationView::Udt { .. } => TypeTag::Udt,
        }
    }
}

/// The classification of a scalar leaf.
pub open spec fn scalar_classification(tag: TypeTag) -> ClassificationView {
    match tag {
        TypeTag::Blob => ClassificationView::Blob,
        TypeTag::Text => ClassificationView::Text,
        TypeTag::Bool => ClassificationView::Bool,
        TypeTag::I8 => ClassificationView::I8,
        TypeTag::I16 => ClassificationView::I16,
        TypeTag::I32 => ClassificationView::I32,
        TypeTag::I64 => ClassificationView::I64,
        TypeTag::F32 => ClassificationView::F32,
        TypeTag::F64 => ClassificationView::F64,
        TypeTag::Decimal => ClassificationView::Decimal,
        TypeTag::IpAddr => ClassificationView::IpAddr,
        TypeTag::Uuid => ClassificationView::Uuid,
        _ => ClassificationView::Timestamp,
    }
}

/// The classification of `ty`. The leaf name of the type decides what it is;
/// a sequence and an option are read by their last type argument, a mapping by
/// its first and its last. A name that is not recognized is a nested record.
pub open spec fn classification_of(ty: Ty) -> Result<ClassificationView, GenErrorView>
    decreases ty,
{
    match ident_of(ty) {
        Err(e) => Err(e),
        Ok(name) => match tag_of(name) {
            TypeTag::List => match params_of(ty) {
                Err(e) => Err(e),
                Ok(types) => match classification_of(types.last()) {
                    Err(e) => Err(e),
                    Ok(element) => Ok(ClassificationView::List { element: Box::new(element) }),
                },
            },
            TypeTag::Mapping => match params_of(ty) {
                Err(e) => Err(e),
                Ok(types) => match classification_of(types.first()) {
                    Err(e) => Err(e),
                    Ok(key) => match classification_of(types.last()) {
                        Err(e) => Err(e),
                        Ok(value) => Ok(
                            ClassificationView::Mapping {
                                key: Box::new(key),
                                value: Box::new(value),
                            },
                        ),
                    },
                },
            },
            TypeTag::Optional => match params_of(ty) {
                Err(e) => Err(e),
                Ok(types) => match classification_of(types.last()) {
                    Err(e) => Err(e),
                    Ok(inner) => Ok(ClassificationView::Optional { inner: Box::new(inner) }),
                },
            },
            TypeTag::Udt => Ok(ClassificationView::Udt { name }),
            tag => Ok(scalar_classification(tag)),
        },
    }
}

/// The view of a classification, or of the error in its place.
pub open spec fn classification_result(r: Result<TypeClassification, GenError>) -> Result<
    ClassificationView,
    GenErrorView,
> {
    match r {
        Ok(c) => Ok(c@),
        Err(e) => Err(e@),
    }
}

/// The classification of `ty`.
pub fn classify(ty: &Ty) -> (classification: Result<TypeClassification, GenError>)
    ensures
        classification_result(classification) == classification_of(*ty),
    decreases ty,
{
    let name = get_ident_string(ty)?;
    let classification = match type_tag(name.as_str()) {
        TypeTag::Blob => TypeClassification::Blob,
        TypeTag::Text => TypeClassification::Text,
        TypeTag::Bool => TypeClassification::Bool,
        TypeTag::I8 => TypeClassification::I8,
        TypeTag::I16 => TypeClassification::I16,
        TypeTag::I32 => TypeClassification::I32,
        TypeTag::I64 => TypeClassification::I64,
        TypeTag::F32 => TypeClassification::F32,
        TypeTag::F64 => TypeClassification::F64,
        TypeTag::Decimal => TypeClassification::Decimal,
        TypeTag::IpAddr => TypeClassification::IpAddr,
        TypeTag::Uuid => TypeClassification::Uuid,
        TypeTag::Timestamp => TypeClassification::Timestamp,
        TypeTag::List => {
            let element = classify(get_ident_params_string(ty)?)?;
            TypeClassification::List { element: Box::new(element) }
        },
        TypeTag::Mapping => {
            let (key_type, value_type) = get_map_params_string(ty)?;
            let key = classify(key_type)?;
            let value = classify(value_type)?;
            TypeClassification::Mapping { key: Box::new(key), value: Box::new(value) }
        },
        TypeTag::Optional => {
            let inner = classify(get_ident_params_string(ty)?)?;
            TypeClassification::Optional { inner: Box::new(inner) }
        },
        TypeTag::Udt => TypeClassification::Udt { name },
    };
    Ok(classification)
}

/// The outermost level of the classification of a type is what its leaf name
/// selects, whatever its type arguments are.
pub proof fn lemma_classification_tag(ty: Ty)
    requires
        classification_of(ty) is Ok,
    ensures
        ident_of(ty) matches Ok(name) && classification_of(ty)->Ok_0.tag() == tag_of(name),
{
}

} // verus!
