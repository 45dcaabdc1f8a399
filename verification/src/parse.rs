//! Reading the item a builder is derived for: its source text is parsed with
//! syn, and the parsed item is described in the plain-value model.
use vstd::prelude::*;
use crate::model::{
    ArgumentsModel, AttrArgs, AttributeModel, BoundKind, BoundModel, DataModel, DeriveInputModel,
    FieldModel, FieldsModel, GenericArgModel, SegmentModel, TypeModel,
};

verus! {

#[verifier::external_type_specification]
#[verifier::external_body]
pub struct ExDeriveInput(syn::DeriveInput);

#[verifier::external_type_specification]
#[verifier::external_body]
pub struct ExField(syn::Field);

#[verifier::external_type_specification]
#[verifier::external_body]
pub struct ExAttribute(syn::Attribute);

#[verifier::external_type_specification]
#[verifier::external_body]
pub struct ExType(syn::Type);

#[verifier::external_type_specification]
#[verifier::external_body]
pub struct ExPathSegment(syn::PathSegment);

#[verifier::external_type_specification]
#[verifier::external_body]
pub struct ExGenericArgument(syn::GenericArgument);

#[verifier::external_type_specification]
#[verifier::external_body]
pub struct ExTypeParamBound(syn::TypeParamBound);

/// The body of a parsed item, with the named fields of a struct.
pub enum ParsedData<'a> {
    Named(Vec<&'a syn::Field>),
    Unnamed,
    Unit,
    Enum,
    Union,
}

/// The shape of a parsed type.
pub enum ParsedType<'a> {
    Path(Vec<&'a syn::PathSegment>),
    TraitObject(Vec<&'a syn::TypeParamBound>),
    Other,
}

/// The arguments of a parsed path segment.
pub enum ParsedArgs<'a> {
    Bare,
    AngleBracketed(Vec<&'a syn::GenericArgument>),
    Parenthesized,
}

/// Calls `syn::parse_str::<syn::DeriveInput>` on the item's source text.
/// Nothing is stated of the outcome: proc-macro2 lexes the text with the
/// compiler's lexer inside a procedural macro and with its own elsewhere, so
/// the outcome is not a function of the text alone.
#[verifier::external_body]
fn parse_derive_input(text: &str) -> Option<syn::DeriveInput> {
    match syn::parse_str::<syn::DeriveInput>(text) {
        Ok(input) => Some(input),
        Err(_) => None,
    }
}

/// The item's name: `DeriveInput::ident`, printed.
#[verifier::external_body]
fn input_ident(i: &syn::DeriveInput) -> String {
    i.ident.to_string()
}

/// The item's body: `DeriveInput::data`, with a struct's named fields listed.
#[verifier::external_body]
fn input_data(i: &syn::DeriveInput) -> ParsedData<'_> {
    match &i.data {
        syn::Data::Struct(s) => match &s.fields {
            syn::Fields::Named(n) => ParsedData::Named(n.named.iter().collect()),
            syn::Fields::Unnamed(_) => ParsedData::Unnamed,
            syn::Fields::Unit => ParsedData::Unit,
        },
        syn::Data::Enum(_) => ParsedData::Enum,
        syn::Data::Union(_) => ParsedData::Union,
    }
}

/// A field's name: `Field::ident`, printed; empty for an unnamed field.
#[verifier::external_body]
fn field_name(f: &syn::Field) -> String {
    match &f.ident {
        Some(id) => id.to_string(),
        None => String::new(),
    }
}

/// A field's type: `Field::ty`.
#[verifier::external_body]
fn field_type(f: &syn::Field) -> &syn::Type {
    &f.ty
}

/// A type's tokens, printed by `quote::ToTokens::to_token_stream`.
#[verifier::external_body]
fn type_text(t: &syn::Type) -> String {
    quote::ToTokens::to_token_stream(t).to_string()
}

/// A field's attributes: `Field::attrs`, in order.
#[verifier::external_body]
fn field_attrs(f: &syn::Field) -> Vec<&syn::Attribute> {
    f.attrs.iter().collect()
}

/// An attribute's path when it is one identifier: `Path::get_ident`, printed.
#[verifier::external_body]
fn attr_path_ident(a: &syn::Attribute) -> Option<String> {
    match a.path().get_ident() {
        Some(id) => Some(id.to_string()),
        None => None,
    }
}

/// An attribute's arguments: for the list form, its tokens when
/// `Attribute::parse_args::<syn::Expr>` succeeds on them. Nothing is stated
/// of the outcome; syn decides it on the compiler's or proc-macro2's tokens.
#[verifier::external_body]
fn attr_args(a: &syn::Attribute) -> AttrArgs {
    match &a.meta {
        syn::Meta::List(list) => match a.parse_args::<syn::Expr>() {
            Ok(_) => AttrArgs::Expression(list.tokens.to_string()),
            Err(_) => AttrArgs::NotExpression,
        },
        _ => AttrArgs::Absent,
    }
}

/// A type's shape: the segments of a path type, the bounds of a trait object.
#[verifier::external_body]
fn type_shape(t: &syn::Type) -> ParsedType<'_> {
    match t {
        syn::Type::Path(p) => ParsedType::Path(p.path.segments.iter().collect()),
        syn::Type::TraitObject(o) => ParsedType::TraitObject(o.bounds.iter().collect()),
        _ => ParsedType::Other,
    }
}

/// A path segment's identifier, printed.
#[verifier::external_body]
fn segment_ident(s: &syn::PathSegment) -> String {
    s.ident.to_string()
}

/// A path segment's arguments, with angle-bracketed ones listed.
#[verifier::external_body]
fn segment_args(s: &syn::PathSegment) -> ParsedArgs<'_> {
    match &s.arguments {
        syn::PathArguments::None => ParsedArgs::Bare,
        syn::PathArguments::AngleBracketed(a) => ParsedArgs::AngleBracketed(a.args.iter().collect()),
        syn::PathArguments::Parenthesized(_) => ParsedArgs::Parenthesized,
    }
}

/// The type of a type argument.
#[verifier::external_body]
fn generic_arg_type(g: &syn::GenericArgument) -> Option<&syn::Type> {
    match g {
        syn::GenericArgument::Type(t) => Some(t),
        _ => None,
    }
}

/// The kind of a bound.
#[verifier::external_body]
fn bound_kind(b: &syn::TypeParamBound) -> BoundKind {
    match b {
        syn::TypeParamBound::Trait(_) => BoundKind::Trait,
        syn::TypeParamBound::Lifetime(_) => BoundKind::Lifetime,
        _ => BoundKind::Other,
    }
}

/// A bound's tokens, printed by `quote::ToTokens::to_token_stream`.
#[verifier::external_body]
fn bound_text(b: &syn::TypeParamBound) -> String {
    quote::ToTokens::to_token_stream(b).to_string()
}

/// The bounds of a trait object.
fn bounds_model(bounds: &Vec<&syn::TypeParamBound>) -> (r: Vec<BoundModel>)
    ensures
        r@.len() == bounds@.len(),
{
    let mut r: Vec<BoundModel> = Vec::new();
    let mut i: usize = 0;
    while i < bounds.len()
        invariant
            i <= bounds@.len(),
            r@.len() == i,
        decreases bounds@.len() - i,
    {
        let b = bounds[i];
        r.push(BoundModel { kind: bound_kind(b), text: bound_text(b) });
        i += 1;
    }
    r
}

/// A type argument: whether it is a trait object, and its bounds. The
/// detection of wrapped fields reads no further into it.
fn argument_type_model(t: &syn::Type) -> TypeModel {
    match type_shape(t) {
        ParsedType::TraitObject(bounds) => TypeModel::TraitObject(bounds_model(&bounds)),
        _ => TypeModel::Other,
    }
}

/// The arguments of a path segment: one model argument per parsed argument, in order.
fn arguments_model(args: &ParsedArgs) -> (r: ArgumentsModel)
    ensures
        match *args {
            ParsedArgs::Bare => r is Bare,
            ParsedArgs::Parenthesized => r is Parenthesized,
            ParsedArgs::AngleBracketed(v) => r matches ArgumentsModel::AngleBracketed(m) && m@.len() == v@.len(),
        },
{
    match args {
        ParsedArgs::Bare => ArgumentsModel::Bare,
        ParsedArgs::Parenthesized => ArgumentsModel::Parenthesized,
        ParsedArgs::AngleBracketed(args) => {
            let mut r: Vec<GenericArgModel> = Vec::new();
            let mut i: usize = 0;
            while i < args.len()
                invariant
                    i <= args@.len(),
                    r@.len() == i,
                decreases args@.len() - i,
            {
                let arg = match generic_arg_type(args[i]) {
                    Some(t) => GenericArgModel::Type(argument_type_model(t)),
                    None => GenericArgModel::Other,
                };
                r.push(arg);
                i += 1;
            }
            ArgumentsModel::AngleBracketed(r)
        },
    }
}

/// A path segment.
fn segment_model(s: &syn::PathSegment) -> SegmentModel {
    let arguments = arguments_model(&segment_args(s));
    SegmentModel { ident: segment_ident(s), arguments }
}

/// The segments of a path type: one model segment per parsed segment, in
/// order, the last one included.
fn path_model(segments: &Vec<&syn::PathSegment>) -> (r: Vec<SegmentModel>)
    ensures
        r@.len() == segments@.len(),
{
    let mut r: Vec<SegmentModel> = Vec::new();
    let mut i: usize = 0;
    while i < segments.len()
        invariant
            i <= segments@.len(),
            r@.len() == i,
        decreases segments@.len() - i,
    {
        r.push(segment_model(segments[i]));
        i += 1;
    }
    r
}

/// A type of the shape that syn's parse gave: a path keeps all its segments,
/// a trait object all its bounds.
fn shape_model(shape: &ParsedType) -> (r: TypeModel)
    ensures
        match *shape {
            ParsedType::Path(v) => r matches TypeModel::Path(m) && m@.len() == v@.len(),
            ParsedType::TraitObject(v) => r matches TypeModel::TraitObject(m) && m@.len() == v@.len(),
            ParsedType::Other => r is Other,
        },
{
    match shape {
        ParsedType::Path(segments) => TypeModel::Path(path_model(segments)),
        ParsedType::TraitObject(bounds) => TypeModel::TraitObject(bounds_model(bounds)),
        ParsedType::Other => TypeModel::Other,
    }
}

/// A field's type.
fn type_model(t: &syn::Type) -> TypeModel {
    shape_model(&type_shape(t))
}

/// The attributes of a field: one per parsed attribute, in order.
fn attrs_model(attrs: &Vec<&syn::Attribute>) -> (r: Vec<AttributeModel>)
    ensures
        r@.len() == attrs@.len(),
{
    let mut models: Vec<AttributeModel> = Vec::new();
    let mut i: usize = 0;
    while i < attrs.len()
        invariant
            i <= attrs@.len(),
            models@.len() == i,
        decreases attrs@.len() - i,
    {
        models.push(AttributeModel { path_ident: attr_path_ident(attrs[i]), args: attr_args(attrs[i]) });
        i += 1;
    }
    models
}

/// A field.
fn field_model(f: &syn::Field) -> FieldModel {
    let attrs = attrs_model(&field_attrs(f));
    let ty = field_type(f);
    FieldModel { name: field_name(f), ty_text: type_text(ty), ty: type_model(ty), attrs }
}

/// The body of the item: a struct's named fields, one model field per parsed
/// field, in order.
fn data_model(data: &ParsedData) -> (r: DataModel)
    ensures
        match *data {
            ParsedData::Named(v) => r matches DataModel::Struct(FieldsModel::Named(m)) && m@.len() == v@.len(),
            ParsedData::Unnamed => r matches DataModel::Struct(FieldsModel::Unnamed),
            ParsedData::Unit => r matches DataModel::Struct(FieldsModel::Unit),
            ParsedData::Enum => r is Enum,
            ParsedData::Union => r is Union,
        },
{
    match data {
        ParsedData::Named(fields) => {
            let mut models: Vec<FieldModel> = Vec::new();
            let mut k: usize = 0;
            while k < fields.len()
                invariant
                    k <= fields@.len(),
                    models@.len() == k,
                decreases fields@.len() - k,
            {
                models.push(field_model(fields[k]));
                k += 1;
            }
            DataModel::Struct(FieldsModel::Named(models))
        },
        ParsedData::Unnamed => DataModel::Struct(FieldsModel::Unnamed),
        ParsedData::Unit => DataModel::Struct(FieldsModel::Unit),
        ParsedData::Enum => DataModel::Enum,
        ParsedData::Union => DataModel::Union,
    }
}

/// The item, described in the model.
fn input_model(i: &syn::DeriveInput) -> DeriveInputModel {
    let data = data_model(&input_data(i));
    DeriveInputModel { ident: input_ident(i), data }
}

/// Parses the source text of an item and describes it in the model; `None`
/// when the text is not an item that a derive applies to.
pub fn read_input(text: &str) -> Option<DeriveInputModel> {
    match parse_derive_input(text) {
        Some(input) => Some(input_model(&input)),
        None => None,
    }
}

} // verus!
