//! What the generated code is, stated as text over the struct's fields.
//!
//! For a struct `S` with fields `fs`, the expansion declares a builder
//! `SBuilder` with one type parameter per regular field (a field without a
//! default value), a `new` constructor in which every regular field is `()`,
//! a `with_<field>` setter per field, a `build` method for the builder whose
//! parameters are the fields' own types, and, when some field counts as
//! incomplete, the alias `SIncomplete`.
use vstd::prelude::*;
use crate::analysis::{wrap_of, WrapShape};
use crate::attrs::{any_incomplete, default_value, has_incomplete};
use crate::categorize::{is_regular, type_param_name};
use crate::model::{BoundKind, BoundModel, FieldModel};
use crate::text::{concat, join};

verus! {

/// Whether one of the bounds is a lifetime.
pub open spec fn has_lifetime_bound(bounds: Seq<BoundModel>) -> bool {
    exists|i: int| 0 <= i < bounds.len() && (#[trigger] bounds[i]).kind == BoundKind::Lifetime
}

/// The texts of the bounds, in order.
pub open spec fn bound_texts(bounds: Seq<BoundModel>) -> Seq<Seq<char>>
    decreases bounds.len(),
{
    if bounds.len() == 0 {
        Seq::empty()
    } else {
        bound_texts(bounds.drop_last()).push(bounds.last().text@)
    }
}

/// The bounds of the argument of a wrapping setter: the trait object's
/// bounds joined by `+`, and `'static` added when none of them is a lifetime.
pub open spec fn trait_bounds_text(bounds: Seq<BoundModel>) -> Seq<char> {
    if has_lifetime_bound(bounds) {
        join(bound_texts(bounds), " + "@)
    } else {
        join(bound_texts(bounds), " + "@) + " + 'static"@
    }
}

/// The parameter of a field's setter: the field's own type, or `impl Bounds`
/// for a wrapped field.
pub open spec fn param_decl(f: FieldModel) -> Seq<char> {
    match wrap_of(f.ty) {
        WrapShape::Plain => f.name@ + ": "@ + f.ty_text@,
        WrapShape::Shared(b) => f.name@ + ": impl "@ + trait_bounds_text(b),
        WrapShape::Boxed(b) => f.name@ + ": impl "@ + trait_bounds_text(b),
    }
}

/// The value that a field's setter stores: the argument, or the argument
/// wrapped in `Arc::new` or `Box::new`.
pub open spec fn wrapped_value(f: FieldModel) -> Seq<char> {
    match wrap_of(f.ty) {
        WrapShape::Plain => f.name@,
        WrapShape::Shared(_) => "std::sync::Arc::new("@ + f.name@ + ")"@,
        WrapShape::Boxed(_) => "Box::new("@ + f.name@ + ")"@,
    }
}

/// The initializer of the set field in a regular setter's result.
pub open spec fn set_field_init(f: FieldModel) -> Seq<char> {
    match wrap_of(f.ty) {
        WrapShape::Plain => f.name@,
        _ => f.name@ + ": "@ + wrapped_value(f),
    }
}

/// `name: self.name`.
pub open spec fn self_assign(f: FieldModel) -> Seq<char> {
    f.name@ + ": self."@ + f.name@
}

/// `<a, b, c>`.
pub open spec fn angle(items: Seq<Seq<char>>) -> Seq<char> {
    "<"@ + join(items, ", "@) + ">"@
}

/// The builder's type parameters: one per regular field, in field order.
pub open spec fn regular_params(fs: Seq<FieldModel>) -> Seq<Seq<char>>
    decreases fs.len(),
{
    if fs.len() == 0 {
        Seq::empty()
    } else if is_regular(fs.last()) {
        regular_params(fs.drop_last()).push(type_param_name(fs.last().name@))
    } else {
        regular_params(fs.drop_last())
    }
}

/// The builder's arguments in `new`: `()` per regular field.
pub open spec fn unit_args(fs: Seq<FieldModel>) -> Seq<Seq<char>>
    decreases fs.len(),
{
    if fs.len() == 0 {
        Seq::empty()
    } else if is_regular(fs.last()) {
        unit_args(fs.drop_last()).push("()"@)
    } else {
        unit_args(fs.drop_last())
    }
}

/// The builder's arguments for `build`: each regular field's own type.
pub open spec fn concrete_types(fs: Seq<FieldModel>) -> Seq<Seq<char>>
    decreases fs.len(),
{
    if fs.len() == 0 {
        Seq::empty()
    } else if is_regular(fs.last()) {
        concrete_types(fs.drop_last()).push(fs.last().ty_text@)
    } else {
        concrete_types(fs.drop_last())
    }
}

/// The builder's arguments in the incomplete alias: `()` for a regular field
/// marked `#[incomplete]`, its own type for any other regular field.
pub open spec fn incomplete_args(fs: Seq<FieldModel>) -> Seq<Seq<char>>
    decreases fs.len(),
{
    if fs.len() == 0 {
        Seq::empty()
    } else if is_regular(fs.last()) {
        incomplete_args(fs.drop_last()).push(
            if has_incomplete(fs.last()) { "()"@ } else { fs.last().ty_text@ },
        )
    } else {
        incomplete_args(fs.drop_last())
    }
}

/// The builder's field declarations: a regular field has its type parameter,
/// a default field its own type.
pub open spec fn struct_field_defs(fs: Seq<FieldModel>) -> Seq<Seq<char>>
    decreases fs.len(),
{
    if fs.len() == 0 {
        Seq::empty()
    } else {
        struct_field_defs(fs.drop_last()).push(
            fs.last().name@ + ": "@ + if is_regular(fs.last()) {
                type_param_name(fs.last().name@)
            } else {
                fs.last().ty_text@
            },
        )
    }
}

/// The initializers in `new`: a default field gets its default value, a
/// regular field `()`.
pub open spec fn field_inits(fs: Seq<FieldModel>) -> Seq<Seq<char>>
    decreases fs.len(),
{
    if fs.len() == 0 {
        Seq::empty()
    } else {
        field_inits(fs.drop_last()).push(
            fs.last().name@ + ": "@ + match default_value(fs.last()) {
                Some(v) => v,
                None => "()"@,
            },
        )
    }
}

/// `name: self.name` for every field, as `build` moves them.
pub open spec fn build_assigns(fs: Seq<FieldModel>) -> Seq<Seq<char>>
    decreases fs.len(),
{
    if fs.len() == 0 {
        Seq::empty()
    } else {
        build_assigns(fs.drop_last()).push(self_assign(fs.last()))
    }
}

/// `f: self.f` for every field whose name is not `name`.
pub open spec fn other_assigns(fs: Seq<FieldModel>, name: Seq<char>) -> Seq<Seq<char>>
    decreases fs.len(),
{
    if fs.len() == 0 {
        Seq::empty()
    } else if fs.last().name@ != name {
        other_assigns(fs.drop_last(), name).push(self_assign(fs.last()))
    } else {
        other_assigns(fs.drop_last(), name)
    }
}

/// The position of field `k` among the type parameters.
pub open spec fn param_index(fs: Seq<FieldModel>, k: int) -> int {
    regular_params(fs.take(k)).len() as int
}

/// The builder's arguments in the result of the setter of regular field `k`:
/// the field's own type in its position, the other parameters unchanged.
pub open spec fn setter_args(fs: Seq<FieldModel>, k: int) -> Seq<Seq<char>> {
    regular_params(fs).update(param_index(fs, k), fs[k].ty_text@)
}

/// The setter of regular field `k`: it moves every other field and changes
/// the field's type parameter to the field's type.
pub open spec fn regular_setter(b: Seq<char>, fs: Seq<FieldModel>, k: int) -> Seq<char> {
    "pub fn with_"@ + fs[k].name@ + "(self, "@ + param_decl(fs[k]) + ") -> "@ + b + angle(
        setter_args(fs, k),
    ) + " { "@ + b + " { "@ + set_field_init(fs[k]) + ", "@ + join(
        other_assigns(fs, fs[k].name@),
        ", "@,
    ) + " } } "@
}

/// The setter of a default field: it replaces the field's value and keeps
/// the builder's type.
pub open spec fn default_setter(f: FieldModel) -> Seq<char> {
    "pub fn with_"@ + f.name@ + "(mut self, "@ + param_decl(f) + ") -> Self { self."@ + f.name@
        + " = "@ + wrapped_value(f) + "; self } "@
}

/// The setters of the regular fields among the first `n`.
pub open spec fn regular_setters_upto(b: Seq<char>, fs: Seq<FieldModel>, n: int) -> Seq<Seq<char>>
    decreases n,
{
    if n <= 0 {
        Seq::empty()
    } else if is_regular(fs[n - 1]) {
        regular_setters_upto(b, fs, n - 1).push(regular_setter(b, fs, n - 1))
    } else {
        regular_setters_upto(b, fs, n - 1)
    }
}

/// The setters of the default fields.
pub open spec fn default_setters(fs: Seq<FieldModel>) -> Seq<Seq<char>>
    decreases fs.len(),
{
    if fs.len() == 0 {
        Seq::empty()
    } else if !is_regular(fs.last()) {
        default_setters(fs.drop_last()).push(default_setter(fs.last()))
    } else {
        default_setters(fs.drop_last())
    }
}

/// `struct SBuilder<P..> { f: P, d: T, .. }`.
pub open spec fn builder_struct_text(b: Seq<char>, fs: Seq<FieldModel>) -> Seq<char> {
    "struct "@ + b + angle(regular_params(fs)) + " { "@ + join(struct_field_defs(fs), ", "@)
        + " }"@
}

/// `pub type SIncomplete = SBuilder<..>;` when some field counts as incomplete,
/// nothing otherwise.
pub open spec fn type_aliases_text(s: Seq<char>, b: Seq<char>, fs: Seq<FieldModel>) -> Seq<char> {
    if any_incomplete(fs) {
        "pub type "@ + (s + "Incomplete"@) + " = "@ + b + angle(incomplete_args(fs)) + ";"@
    } else {
        Seq::empty()
    }
}

/// `impl SBuilder<(), ..> { pub fn new() -> Self { .. } }`.
pub open spec fn constructor_text(b: Seq<char>, fs: Seq<FieldModel>) -> Seq<char> {
    "impl "@ + b + angle(unit_args(fs)) + " { pub fn new() -> Self { Self { "@ + join(
        field_inits(fs),
        ", "@,
    ) + " } } }"@
}

/// `impl<P..> SBuilder<P..> { setters }`: the regular setters, then the default ones.
pub open spec fn builder_methods_text(b: Seq<char>, fs: Seq<FieldModel>) -> Seq<char> {
    "impl"@ + angle(regular_params(fs)) + " "@ + b + angle(regular_params(fs)) + " { "@ + concat(
        regular_setters_upto(b, fs, fs.len() as int),
    ) + concat(default_setters(fs)) + "}"@
}

/// `impl SBuilder<T..> { pub fn build(self) -> S { .. } }`.
pub open spec fn build_method_text(s: Seq<char>, b: Seq<char>, fs: Seq<FieldModel>) -> Seq<char> {
    "impl "@ + b + angle(concrete_types(fs)) + " { pub fn build(self) -> "@ + s + " { "@ + s
        + " { "@ + join(build_assigns(fs), ", "@) + " } } }"@
}

/// The whole expansion for struct `s` with fields `fs`.
pub open spec fn expansion(s: Seq<char>, fs: Seq<FieldModel>) -> Seq<char> {
    let b = s + "Builder"@;
    builder_struct_text(b, fs) + " "@ + type_aliases_text(s, b, fs) + " "@ + constructor_text(b, fs)
        + " "@ + builder_methods_text(b, fs) + " "@ + build_method_text(s, b, fs)
}

} // verus!
