//! Detection of fields whose type is `Arc<dyn ..>` or `Box<dyn ..>`: their
//! setters take any value that implements the bounds and wrap it.
use vstd::prelude::*;
use crate::model::{ArgumentsModel, BoundModel, GenericArgModel, SegmentModel, TypeModel};
use crate::text::str_eq;

verus! {

/// The bounds of `dyn ..` when `ty` is a path whose last segment is `wrapper`
/// and whose first angle-bracketed argument is a trait object type.
pub open spec fn dyn_bounds_under(ty: TypeModel, wrapper: Seq<char>) -> Option<Seq<BoundModel>> {
    match ty {
        TypeModel::Path(segments) => {
            if segments@.len() == 0 {
                None
            } else if segments@.last().ident@ != wrapper {
                None
            } else {
                match segments@.last().arguments {
                    ArgumentsModel::AngleBracketed(args) => {
                        if args@.len() == 0 {
                            None
                        } else {
                            match args@[0] {
                                GenericArgModel::Type(TypeModel::TraitObject(bounds)) => Some(bounds@),
                                _ => None,
                            }
                        }
                    },
                    _ => None,
                }
            }
        },
        _ => None,
    }
}

/// The trait bounds when `ty` is `Arc<dyn ..>`.
pub open spec fn arc_bounds(ty: TypeModel) -> Option<Seq<BoundModel>> {
    dyn_bounds_under(ty, "Arc"@)
}

/// The trait bounds when `ty` is `Box<dyn ..>`.
pub open spec fn box_bounds(ty: TypeModel) -> Option<Seq<BoundModel>> {
    dyn_bounds_under(ty, "Box"@)
}

/// How a field's setter treats the value it is given.
pub enum WrapShape {
    /// The value is stored as it is.
    Plain,
    /// The value is stored in `std::sync::Arc::new(..)`; the bounds of the `dyn`.
    Shared(Seq<BoundModel>),
    /// The value is stored in `Box::new(..)`; the bounds of the `dyn`.
    Boxed(Seq<BoundModel>),
}

/// The wrapping of a field of type `ty`: `Arc` is tried first, then `Box`.
pub open spec fn wrap_of(ty: TypeModel) -> WrapShape {
    match arc_bounds(ty) {
        Some(b) => WrapShape::Shared(b),
        None => match box_bounds(ty) {
            Some(b) => WrapShape::Boxed(b),
            None => WrapShape::Plain,
        },
    }
}

/// The wrapping of a field, with the bounds borrowed from its type.
pub enum WrapperType<'a> {
    /// Regular field, no wrapping.
    Plain,
    /// `Arc<dyn Trait>`; the trait bounds.
    Arc(&'a Vec<BoundModel>),
    /// `Box<dyn Trait>`; the trait bounds.
    Box(&'a Vec<BoundModel>),
}

impl<'a> WrapperType<'a> {
    pub open spec fn shape(self) -> WrapShape {
        match self {
            WrapperType::Plain => WrapShape::Plain,
            WrapperType::Arc(b) => WrapShape::Shared(b@),
            WrapperType::Box(b) => WrapShape::Boxed(b@),
        }
    }
}

/// The bounds of `dyn ..` when `ty` is `wrapper<dyn ..>`.
fn dyn_trait_under<'a>(ty: &'a TypeModel, wrapper: &str) -> (r: Option<&'a Vec<BoundModel>>)
    ensures
        r matches Some(b) ==> dyn_bounds_under(*ty, wrapper@) == Some(b@),
        r is None ==> dyn_bounds_under(*ty, wrapper@) is None,
{
    if let TypeModel::Path(segments) = ty {
        let n = segments.len();
        if n == 0 {
            return None;
        }
        let last_segment: &SegmentModel = &segments[n - 1];
        if !str_eq(last_segment.ident.as_str(), wrapper) {
            return None;
        }
        if let ArgumentsModel::AngleBracketed(args) = &last_segment.arguments {
            if args.len() > 0 {
                if let GenericArgModel::Type(inner_ty) = &args[0] {
                    if let TypeModel::TraitObject(bounds) = inner_ty {
                        return Some(bounds);
                    }
                }
            }
        }
    }
    None
}

/// Checks whether a type is `Arc<dyn Trait>` and gives the trait bounds.
pub fn is_arc_dyn_trait(ty: &TypeModel) -> (r: Option<&Vec<BoundModel>>)
    ensures
        r matches Some(b) ==> arc_bounds(*ty) == Some(b@),
        r is None ==> arc_bounds(*ty) is None,
{
    dyn_trait_under(ty, "Arc")
}

/// Checks whether a type is `Box<dyn Trait>` and gives the trait bounds.
pub fn is_box_dyn_trait(ty: &TypeModel) -> (r: Option<&Vec<BoundModel>>)
    ensures
        r matches Some(b) ==> box_bounds(*ty) == Some(b@),
        r is None ==> box_bounds(*ty) is None,
{
    dyn_trait_under(ty, "Box")
}

/// Decides how a field of type `ty` is wrapped by its setter.
pub fn analyze_field_type(ty: &TypeModel) -> (r: WrapperType<'_>)
    ensures
        r.shape() == wrap_of(*ty),
{
    if let Some(bounds) = is_arc_dyn_trait(ty) {
        return WrapperType::Arc(bounds);
    }
    if let Some(bounds) = is_box_dyn_trait(ty) {
        return WrapperType::Box(bounds);
    }
    WrapperType::Plain
}

} // verus!
