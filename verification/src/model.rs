//! Plain-value description of the struct that a builder is derived for.
//!
//! Each type here holds exactly what the generator reads of the parsed
//! item: names and attribute paths as strings, source text of types and
//! bounds, and the shape of each field's type as far as the detection of
//! `Arc<dyn ..>` and `Box<dyn ..>` fields looks into it.
use vstd::prelude::*;

verus! {

/// The kind of one bound of a trait object (`dyn A + B + 'a`).
#[derive(Clone, Copy, PartialEq, Eq, Structural)]
pub enum BoundKind {
    /// A trait bound such as `Send` or `Fn(u8) -> u8`.
    Trait,
    /// A lifetime bound such as `'static`.
    Lifetime,
    /// Any other bound form.
    Other,
}

/// One bound of a trait object, with its source text.
pub struct BoundModel {
    pub kind: BoundKind,
    pub text: String,
}

/// The shape of a field's type.
pub enum TypeModel {
    /// A path type such as `std::sync::Arc<dyn Trait>`; a qualified self type is not recorded.
    Path(Vec<SegmentModel>),
    /// A trait object `dyn A + B`, with its bounds in order.
    TraitObject(Vec<BoundModel>),
    /// Any other type (reference, tuple, parenthesised, ...).
    Other,
}

/// One segment of a path type.
pub struct SegmentModel {
    pub ident: String,
    pub arguments: ArgumentsModel,
}

/// The arguments of a path segment.
pub enum ArgumentsModel {
    /// No arguments.
    Bare,
    AngleBracketed(Vec<GenericArgModel>),
    Parenthesized,
}

/// One argument between angle brackets.
pub enum GenericArgModel {
    /// A type argument. When read from source, only whether it is a trait
    /// object (and its bounds) is recorded; any other type is `TypeModel::Other`.
    Type(TypeModel),
    /// A lifetime, a constant, an associated type binding, ...
    Other,
}

/// The arguments of an attribute, as the item's parser read them.
pub enum AttrArgs {
    /// No parenthesised arguments: `#[path]` or `#[path = value]`.
    Absent,
    /// `#[path(tokens)]` where the tokens parse as exactly one expression;
    /// the tokens as text.
    Expression(String),
    /// `#[path(tokens)]` where the tokens are not exactly one expression.
    NotExpression,
}

/// One outer attribute of a field.
pub struct AttributeModel {
    /// The identifier when the attribute's path is a single plain identifier
    /// (no leading `::`, no generic arguments); `None` for any other path.
    pub path_ident: Option<String>,
    pub args: AttrArgs,
}

/// One named field of the struct.
pub struct FieldModel {
    pub name: String,
    /// The field's type as source text.
    pub ty_text: String,
    /// The field's type as a shape.
    pub ty: TypeModel,
    pub attrs: Vec<AttributeModel>,
}

/// The fields of a struct.
pub enum FieldsModel {
    Named(Vec<FieldModel>),
    Unnamed,
    Unit,
}

/// The body of the item that the derive is applied to.
pub enum DataModel {
    Struct(FieldsModel),
    Enum,
    Union,
}

/// The item that the derive is applied to.
pub struct DeriveInputModel {
    pub ident: String,
    pub data: DataModel,
}

} // verus!
