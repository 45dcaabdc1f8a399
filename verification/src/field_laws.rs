//! Properties that tie each field's attributes and type to what the
//! generated code declares, initializes and stores for it.
use vstd::prelude::*;
use crate::analysis::{arc_bounds, box_bounds};
use crate::attrs::{
    any_incomplete, attr_default, default_from, default_value, has_incomplete, invalid_attr_from,
    is_invalid_default, path_is,
};
use crate::categorize::{is_regular, type_param_name};
use crate::expansion::{
    angle, constructor_text, default_setter, field_inits, incomplete_args, other_assigns,
    param_decl, param_index, regular_params, regular_setter, set_field_init, setter_args, struct_field_defs,
    trait_bounds_text, type_aliases_text,
};
use crate::laws::lemma_position;
use crate::model::{AttrArgs, AttributeModel, FieldModel, TypeModel};
use crate::text::join;

verus! {

/// Whether the attribute's path is neither `incomplete` nor `default`.
pub open spec fn is_other_attribute(a: AttributeModel) -> bool {
    match a.path_ident {
        Some(id) => id@ != "incomplete"@ && id@ != "default"@,
        None => true,
    }
}

/// A field is marked `#[incomplete]` exactly when one of its attributes, at
/// any position, has the single identifier `incomplete` as its path.
pub proof fn law_incomplete_marker_anywhere(f: FieldModel)
    ensures
        has_incomplete(f) <==> exists|i: int|
            0 <= i < f.attrs@.len() && (#[trigger] f.attrs@[i]).path_ident is Some
                && f.attrs@[i].path_ident->0@ == "incomplete"@,
{
}

proof fn lemma_default_from_after(attrs: Seq<AttributeModel>, i: int, a: AttributeModel, j: int)
    requires
        0 <= i <= attrs.len(),
        i <= j,
    ensures
        default_from(attrs.insert(i, a), j + 1) == default_from(attrs, j),
        (invalid_attr_from(attrs.insert(i, a), j + 1) is Some) == (invalid_attr_from(attrs, j) is Some),
    decreases attrs.len() - j,
{
    let ins = attrs.insert(i, a);
    if j < attrs.len() {
        assert(ins[j + 1] == attrs[j]);
        lemma_default_from_after(attrs, i, a, j + 1);
    }
}

proof fn lemma_default_from_before(attrs: Seq<AttributeModel>, i: int, a: AttributeModel, j: int)
    requires
        0 <= i <= attrs.len(),
        0 <= j <= i,
        is_other_attribute(a),
    ensures
        default_from(attrs.insert(i, a), j) == default_from(attrs, j),
        (invalid_attr_from(attrs.insert(i, a), j) is Some) == (invalid_attr_from(attrs, j) is Some),
    decreases i - j,
{
    let ins = attrs.insert(i, a);
    if j < i {
        assert(ins[j] == attrs[j]);
        lemma_default_from_before(attrs, i, a, j + 1);
    } else {
        assert(ins[i] == a);
        assert(!path_is(a, "default"@));
        assert(attr_default(a) is None);
        assert(!is_invalid_default(a));
        lemma_default_from_after(attrs, i, a, i);
    }
}

/// Adding, at any position, an attribute whose path is neither `incomplete`
/// nor `default` (a doc comment, say) changes neither whether the field is
/// marked incomplete, nor its default value, nor whether it has an invalid
/// `#[default]`.
pub proof fn law_other_attribute_changes_nothing(f: FieldModel, g: FieldModel, i: int, a: AttributeModel)
    requires
        0 <= i <= f.attrs@.len(),
        g.attrs@ == f.attrs@.insert(i, a),
        is_other_attribute(a),
    ensures
        has_incomplete(g) == has_incomplete(f),
        default_value(g) == default_value(f),
        (invalid_attr_from(g.attrs@, 0) is Some) == (invalid_attr_from(f.attrs@, 0) is Some),
{
    lemma_default_from_before(f.attrs@, i, a, 0);
    let ins = f.attrs@.insert(i, a);
    if has_incomplete(f) {
        let j = choose|j: int| 0 <= j < f.attrs@.len() && path_is(#[trigger] f.attrs@[j], "incomplete"@);
        if j < i {
            assert(ins[j] == f.attrs@[j]);
        } else {
            assert(ins[j + 1] == f.attrs@[j]);
        }
    }
    if has_incomplete(g) {
        let j = choose|j: int| 0 <= j < g.attrs@.len() && path_is(#[trigger] g.attrs@[j], "incomplete"@);
        assert(j != i);
        if j < i {
            assert(ins[j] == f.attrs@[j]);
        } else {
            assert(ins[j] == f.attrs@[j - 1]);
        }
    }
}

/// Two fields agree on everything the incomplete alias reads of them.
pub open spec fn alias_agree(f: FieldModel, g: FieldModel) -> bool {
    &&& has_incomplete(f) == has_incomplete(g)
    &&& default_value(f) == default_value(g)
    &&& f.ty_text@ == g.ty_text@
}

proof fn lemma_incomplete_args_agree(fs: Seq<FieldModel>, gs: Seq<FieldModel>)
    requires
        fs.len() == gs.len(),
        forall|j: int| 0 <= j < fs.len() ==> alias_agree(#[trigger] fs[j], gs[j]),
    ensures
        incomplete_args(fs) == incomplete_args(gs),
        any_incomplete(fs) == any_incomplete(gs),
    decreases fs.len(),
{
    if fs.len() > 0 {
        let (f2, g2) = (fs.drop_last(), gs.drop_last());
        assert forall|j: int| 0 <= j < f2.len() implies alias_agree(#[trigger] f2[j], g2[j]) by {
            assert(f2[j] == fs[j] && g2[j] == gs[j]);
        }
        lemma_incomplete_args_agree(f2, g2);
        assert(alias_agree(fs[fs.len() - 1], gs[gs.len() - 1]));
    }
    if any_incomplete(fs) {
        let j = choose|j: int| 0 <= j < fs.len() && crate::attrs::counts_incomplete(#[trigger] fs[j]);
        assert(alias_agree(fs[j], gs[j]));
        assert(crate::attrs::counts_incomplete(gs[j]));
    }
    if any_incomplete(gs) {
        let j = choose|j: int| 0 <= j < gs.len() && crate::attrs::counts_incomplete(#[trigger] gs[j]);
        assert(alias_agree(fs[j], gs[j]));
        assert(crate::attrs::counts_incomplete(fs[j]));
    }
}

/// Adding a doc comment (or any attribute other than `incomplete` and
/// `default`) to one field, at any position among its attributes, leaves the
/// incomplete alias as it was: present or absent, and with the same arguments.
pub proof fn law_other_attribute_keeps_alias(
    s: Seq<char>,
    b: Seq<char>,
    fs: Seq<FieldModel>,
    gs: Seq<FieldModel>,
    k: int,
    i: int,
    a: AttributeModel,
)
    requires
        0 <= k < fs.len(),
        gs.len() == fs.len(),
        forall|j: int| 0 <= j < fs.len() && j != k ==> gs[j] == fs[j],
        gs[k].ty_text@ == fs[k].ty_text@,
        0 <= i <= fs[k].attrs@.len(),
        gs[k].attrs@ == fs[k].attrs@.insert(i, a),
        is_other_attribute(a),
    ensures
        type_aliases_text(s, b, gs) == type_aliases_text(s, b, fs),
{
    law_other_attribute_changes_nothing(fs[k], gs[k], i, a);
    assert forall|j: int| 0 <= j < fs.len() implies alias_agree(#[trigger] fs[j], gs[j]) by {
        if j != k {
            assert(gs[j] == fs[j]);
        }
    }
    lemma_incomplete_args_agree(fs, gs);
}

/// The setter of a default field stores what the field's type holds: the
/// argument in `std::sync::Arc::new` for `Arc<dyn ..>`, in `Box::new` for
/// `Box<dyn ..>`, as it is otherwise; and it takes `impl Bounds` exactly for
/// the wrapped types.
pub proof fn law_default_setter_stores_wrapped_argument(f: FieldModel)
    ensures
        arc_bounds(f.ty) matches Some(bs) ==> default_setter(f) == "pub fn with_"@ + f.name@
            + "(mut self, "@ + f.name@ + ": impl "@ + trait_bounds_text(bs) + ") -> Self { self."@
            + f.name@ + " = "@ + "std::sync::Arc::new("@ + f.name@ + ")"@ + "; self } "@,
        arc_bounds(f.ty) is None ==> (box_bounds(f.ty) matches Some(bs) ==> default_setter(f)
            == "pub fn with_"@ + f.name@ + "(mut self, "@ + f.name@ + ": impl "@ + trait_bounds_text(bs)
            + ") -> Self { self."@ + f.name@ + " = "@ + "Box::new("@ + f.name@ + ")"@ + "; self } "@),
        arc_bounds(f.ty) is None && box_bounds(f.ty) is None ==> default_setter(f) == "pub fn with_"@
            + f.name@ + "(mut self, "@ + f.name@ + ": "@ + f.ty_text@ + ") -> Self { self."@ + f.name@
            + " = "@ + f.name@ + "; self } "@,
{
    let n = f.name@;
    if let Some(bs) = arc_bounds(f.ty) {
        assert(default_setter(f) =~= "pub fn with_"@ + n + "(mut self, "@ + n + ": impl "@ + trait_bounds_text(bs)
            + ") -> Self { self."@ + n + " = "@ + "std::sync::Arc::new("@ + n + ")"@ + "; self } "@);
    } else if let Some(bs) = box_bounds(f.ty) {
        assert(default_setter(f) =~= "pub fn with_"@ + n + "(mut self, "@ + n + ": impl "@ + trait_bounds_text(bs)
            + ") -> Self { self."@ + n + " = "@ + "Box::new("@ + n + ")"@ + "; self } "@);
    } else {
        assert(default_setter(f) =~= "pub fn with_"@ + n + "(mut self, "@ + n + ": "@ + f.ty_text@
            + ") -> Self { self."@ + n + " = "@ + n + "; self } "@);
    }
}

/// What a setter takes and stores for a field, by the field's type: an
/// `Arc<dyn ..>` field takes `impl Bounds` and stores
/// `std::sync::Arc::new(arg)`, a `Box<dyn ..>` field takes `impl Bounds` and
/// stores `Box::new(arg)`, any other field takes its own type and stores the
/// argument (written as the field-init shorthand in a regular setter).
pub proof fn law_setter_parameter_and_stored_value(f: FieldModel)
    ensures
        arc_bounds(f.ty) matches Some(bs) ==> param_decl(f) == f.name@ + ": impl "@ + trait_bounds_text(bs)
            && set_field_init(f) == f.name@ + ": "@ + ("std::sync::Arc::new("@ + f.name@ + ")"@),
        arc_bounds(f.ty) is None ==> (box_bounds(f.ty) matches Some(bs) ==> param_decl(f) == f.name@
            + ": impl "@ + trait_bounds_text(bs) && set_field_init(f) == f.name@ + ": "@ + ("Box::new("@
            + f.name@ + ")"@)),
        arc_bounds(f.ty) is None && box_bounds(f.ty) is None ==> param_decl(f) == f.name@ + ": "@
            + f.ty_text@ && set_field_init(f) == f.name@,
{
}

/// The setter of regular field `k` takes the parameter and stores the value
/// that the field's type asks for, puts the field's type in its own type
/// parameter's place in the result, and moves every field of another name.
pub proof fn law_regular_setter_parts(b: Seq<char>, fs: Seq<FieldModel>, k: int)
    requires
        0 <= k < fs.len(),
    ensures
        regular_setter(b, fs, k) == ("pub fn with_"@ + fs[k].name@ + "(self, "@) + param_decl(fs[k]) + (
        ") -> "@ + b + angle(setter_args(fs, k)) + " { "@ + b + " { "@) + set_field_init(fs[k]) + (", "@
            + join(other_assigns(fs, fs[k].name@), ", "@) + " } } "@),
{
    assert(regular_setter(b, fs, k) =~= ("pub fn with_"@ + fs[k].name@ + "(self, "@) + param_decl(fs[k]) + (
    ") -> "@ + b + angle(setter_args(fs, k)) + " { "@ + b + " { "@) + set_field_init(fs[k]) + (", "@
        + join(other_assigns(fs, fs[k].name@), ", "@) + " } } "@));
}

proof fn lemma_struct_field_defs(fs: Seq<FieldModel>, k: int)
    requires
        0 <= k < fs.len(),
    ensures
        struct_field_defs(fs).len() == fs.len(),
        field_inits(fs).len() == fs.len(),
        struct_field_defs(fs)[k] == fs[k].name@ + ": "@ + if is_regular(fs[k]) {
            type_param_name(fs[k].name@)
        } else {
            fs[k].ty_text@
        },
        field_inits(fs)[k] == fs[k].name@ + ": "@ + match default_value(fs[k]) {
            Some(v) => v,
            None => "()"@,
        },
    decreases fs.len(),
{
    lemma_def_lengths(fs);
    if k < fs.len() - 1 {
        lemma_struct_field_defs(fs.drop_last(), k);
    } else {
        lemma_def_lengths(fs.drop_last());
    }
}

proof fn lemma_def_lengths(fs: Seq<FieldModel>)
    ensures
        struct_field_defs(fs).len() == fs.len(),
        field_inits(fs).len() == fs.len(),
    decreases fs.len(),
{
    if fs.len() > 0 {
        lemma_def_lengths(fs.drop_last());
    }
}

/// The builder struct declares each field without a default value with that
/// field's own type parameter, whatever the field's type (a wrapped
/// `Arc<dyn ..>` field included), and each default field with its own type.
pub proof fn law_struct_declares_parameters(fs: Seq<FieldModel>, k: int)
    requires
        0 <= k < fs.len(),
    ensures
        struct_field_defs(fs).len() == fs.len(),
        default_value(fs[k]) is None ==> struct_field_defs(fs)[k] == fs[k].name@ + ": "@
            + regular_params(fs)[param_index(fs, k)],
        default_value(fs[k]) is Some ==> struct_field_defs(fs)[k] == fs[k].name@ + ": "@ + fs[k].ty_text@,
{
    lemma_struct_field_defs(fs, k);
    if default_value(fs[k]) is None {
        lemma_position(fs, k);
    }
}

/// `new()` initializes each field to agree with its declaration in the
/// builder struct: a field declared with its type parameter starts as `()`,
/// a field declared with its own type starts as its default value, also when
/// the field is marked `#[incomplete]` as well.
pub proof fn law_initializers_agree_with_declarations(b: Seq<char>, fs: Seq<FieldModel>, k: int)
    requires
        0 <= k < fs.len(),
    ensures
        constructor_text(b, fs) == "impl "@ + b + angle(crate::expansion::unit_args(fs))
            + " { pub fn new() -> Self { Self { "@ + join(field_inits(fs), ", "@) + " } } }"@,
        field_inits(fs).len() == fs.len(),
        default_value(fs[k]) matches Some(v) ==> field_inits(fs)[k] == fs[k].name@ + ": "@ + v
            && struct_field_defs(fs)[k] == fs[k].name@ + ": "@ + fs[k].ty_text@,
        default_value(fs[k]) is None ==> field_inits(fs)[k] == fs[k].name@ + ": "@ + "()"@
            && struct_field_defs(fs)[k] == fs[k].name@ + ": "@ + regular_params(fs)[param_index(fs, k)],
{
    lemma_struct_field_defs(fs, k);
    law_struct_declares_parameters(fs, k);
}

/// Whether the attribute is `#[default(tokens)]` with tokens that form one
/// expression, and those tokens are `v`.
pub open spec fn gives_default(a: AttributeModel, v: Seq<char>) -> bool {
    &&& a.path_ident is Some
    &&& a.path_ident->0@ == "default"@
    &&& a.args matches AttrArgs::Expression(t) && t@ == v
}

proof fn lemma_default_from_first(attrs: Seq<AttributeModel>, j: int, v: Seq<char>)
    requires
        0 <= j <= attrs.len(),
    ensures
        default_from(attrs, j) == Some(v) <==> exists|i: int|
            j <= i < attrs.len() && gives_default(#[trigger] attrs[i], v) && forall|l: int|
                j <= l < i ==> !(exists|w: Seq<char>| gives_default(#[trigger] attrs[l], w)),
    decreases attrs.len() - j,
{
    if j < attrs.len() {
        lemma_default_from_first(attrs, j + 1, v);
        let a = attrs[j];
        if attr_default(a) is Some {
            let w = attr_default(a)->0;
            assert(gives_default(a, w));
            if default_from(attrs, j) != Some(v) {
                assert(w != v);
                if exists|i: int|
                    j <= i < attrs.len() && gives_default(#[trigger] attrs[i], v) && forall|l: int|
                        j <= l < i ==> !(exists|w: Seq<char>| gives_default(#[trigger] attrs[l], w)) {
                    let i = choose|i: int|
                        j <= i < attrs.len() && gives_default(#[trigger] attrs[i], v) && forall|l: int|
                            j <= l < i ==> !(exists|w: Seq<char>| gives_default(#[trigger] attrs[l], w));
                    if i > j {
                        assert(!(exists|w2: Seq<char>| gives_default(#[trigger] attrs[j], w2)));
                    }
                }
            } else {
                assert(gives_default(attrs[j], v));
            }
        } else {
            assert(!(exists|w: Seq<char>| gives_default(#[trigger] attrs[j], w))) by {
                if exists|w: Seq<char>| gives_default(#[trigger] attrs[j], w) {
                    let w = choose|w: Seq<char>| gives_default(#[trigger] attrs[j], w);
                    assert(path_is(attrs[j], "default"@));
                }
            }
            if default_from(attrs, j + 1) == Some(v) {
                let i = choose|i: int|
                    j + 1 <= i < attrs.len() && gives_default(#[trigger] attrs[i], v) && forall|l: int|
                        j + 1 <= l < i ==> !(exists|w: Seq<char>| gives_default(#[trigger] attrs[l], w));
                assert forall|l: int| j <= l < i implies !(exists|w: Seq<char>| gives_default(#[trigger] attrs[l], w)) by {
                    if l == j {
                    }
                }
            }
            if exists|i: int|
                j <= i < attrs.len() && gives_default(#[trigger] attrs[i], v) && forall|l: int|
                    j <= l < i ==> !(exists|w: Seq<char>| gives_default(#[trigger] attrs[l], w)) {
                let i = choose|i: int|
                    j <= i < attrs.len() && gives_default(#[trigger] attrs[i], v) && forall|l: int|
                        j <= l < i ==> !(exists|w: Seq<char>| gives_default(#[trigger] attrs[l], w));
                assert(i != j);
                assert forall|l: int| j + 1 <= l < i implies !(exists|w: Seq<char>| gives_default(#[trigger] attrs[l], w)) by {
                }
            }
        }
    }
}

/// A field's default value is `v` exactly when its first `#[default(..)]`
/// attribute whose arguments are one expression holds the tokens `v`.
pub proof fn law_default_is_first_default_attribute(f: FieldModel, v: Seq<char>)
    ensures
        default_value(f) == Some(v) <==> exists|i: int|
            0 <= i < f.attrs@.len() && gives_default(#[trigger] f.attrs@[i], v) && forall|l: int|
                0 <= l < i ==> !(exists|w: Seq<char>| gives_default(#[trigger] f.attrs@[l], w)),
{
    lemma_default_from_first(f.attrs@, 0, v);
}

/// Whether a field has an `Arc<dyn ..>` or `Box<dyn ..>` type depends only on
/// the last segment of its path: a path written with a prefix
/// (`std::sync::Arc<dyn T>`) is detected as the bare one (`Arc<dyn T>`).
pub proof fn law_wrapping_reads_last_segment(t1: TypeModel, t2: TypeModel)
    requires
        t1 matches TypeModel::Path(s1) && t2 matches TypeModel::Path(s2) && s1@.len() > 0 && s2@.len() > 0
            && s1@.last() == s2@.last(),
    ensures
        arc_bounds(t1) == arc_bounds(t2),
        box_bounds(t1) == box_bounds(t2),
{
}

} // verus!
