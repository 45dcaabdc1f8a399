//! The code generator: from the fields of a struct to the text of its builder.
use vstd::prelude::*;
use crate::analysis::WrapperType;
use crate::attrs::{find_invalid_default, first_invalid_default, has_any_incomplete_fields};
use crate::categorize::{
    categorize_fields, categorizes, create_builder_name, create_type_alias_name,
    field_name_to_type_param, CategorizedField, FieldCategory,
};
use crate::expansion::{
    angle, bound_texts, build_assigns, build_method_text, builder_methods_text,
    builder_struct_text, concrete_types, constructor_text, default_setter, default_setters,
    expansion, field_inits, has_lifetime_bound, incomplete_args, other_assigns, param_decl,
    param_index, regular_params, regular_setter, regular_setters_upto,
    set_field_init, setter_args, struct_field_defs, trait_bounds_text, type_aliases_text,
    unit_args, wrapped_value,
};
use crate::model::{BoundKind, BoundModel, DataModel, DeriveInputModel, FieldModel, FieldsModel};
use crate::parse::read_input;
use crate::text::{copy_string, lemma_views_push, push_concat, push_join, str_eq, views};

verus! {

/// `cat` is the categorization of `fs`, field by field.
pub open spec fn categorized_all(cat: Seq<CategorizedField>, fs: Seq<FieldModel>) -> bool {
    &&& cat.len() == fs.len()
    &&& forall|j: int| 0 <= j < fs.len() ==> categorizes(#[trigger] cat[j], fs[j])
}

/// Appends `<items joined by ", ">`.
fn push_angle(out: &mut String, items: &Vec<String>)
    ensures
        final(out)@ == old(out)@ + angle(views(items@)),
{
    let ghost start = out@;
    out.append("<");
    push_join(out, items, ", ");
    out.append(">");
    assert(out@ =~= start + angle(views(items@)));
}

/// The builder's type parameters.
fn regular_params_of(cat: &Vec<CategorizedField>, fs: Ghost<Seq<FieldModel>>) -> (r: Vec<String>)
    requires
        categorized_all(cat@, fs@),
    ensures
        views(r@) == regular_params(fs@),
{
    let n = cat.len();
    let mut r: Vec<String> = Vec::new();
    let mut i: usize = 0;
    assert(fs@.take(0) =~= Seq::<FieldModel>::empty());
    assert(views(r@) =~= Seq::<Seq<char>>::empty());
    while i < n
        invariant
            n == cat@.len(),
            i <= n,
            categorized_all(cat@, fs@),
            views(r@) == regular_params(fs@.take(i as int)),
        decreases n - i,
    {
        assert(fs@.take(i + 1).drop_last() =~= fs@.take(i as int));
        assert(categorizes(cat@[i as int], fs@[i as int]));
        let c = &cat[i];
        if let FieldCategory::Regular { .. } = &c.category {
            let p = field_name_to_type_param(c.name);
            proof { lemma_views_push(r@, p); }
            r.push(p);
        }
        i += 1;
    }
    assert(fs@.take(n as int) =~= fs@);
    r
}

/// The builder's field declarations.
fn struct_field_defs_of(cat: &Vec<CategorizedField>, fs: Ghost<Seq<FieldModel>>) -> (r: Vec<String>)
    requires
        categorized_all(cat@, fs@),
    ensures
        views(r@) == struct_field_defs(fs@),
{
    let n = cat.len();
    let mut r: Vec<String> = Vec::new();
    let mut i: usize = 0;
    assert(fs@.take(0) =~= Seq::<FieldModel>::empty());
    assert(views(r@) =~= Seq::<Seq<char>>::empty());
    while i < n
        invariant
            n == cat@.len(),
            i <= n,
            categorized_all(cat@, fs@),
            views(r@) == struct_field_defs(fs@.take(i as int)),
        decreases n - i,
    {
        assert(fs@.take(i + 1).drop_last() =~= fs@.take(i as int));
        assert(categorizes(cat@[i as int], fs@[i as int]));
        let c = &cat[i];
        let mut d = copy_string(c.name);
        d.append(": ");
        match &c.category {
            FieldCategory::Default { ty, .. } => {
                d.append(ty.as_str());
            },
            FieldCategory::Regular { .. } => {
                let p = field_name_to_type_param(c.name);
                d.append(p.as_str());
            },
        }
        proof { lemma_views_push(r@, d); }
        r.push(d);
        i += 1;
    }
    assert(fs@.take(n as int) =~= fs@);
    r
}

/// Generates the builder struct definition.
pub fn generate_builder_struct(builder_name: &String, fields: &[FieldModel]) -> (r: String)
    ensures
        r@ == builder_struct_text(builder_name@, fields@),
{
    let categorized = categorize_fields(fields);
    let type_params = regular_params_of(&categorized, Ghost(fields@));
    let field_defs = struct_field_defs_of(&categorized, Ghost(fields@));
    let mut out = String::new();
    out.append("struct ");
    out.append(builder_name.as_str());
    push_angle(&mut out, &type_params);
    out.append(" { ");
    push_join(&mut out, &field_defs, ", ");
    out.append(" }");
    assert(out@ =~= builder_struct_text(builder_name@, fields@));
    out
}

/// `()` per regular field.
fn unit_args_of(cat: &Vec<CategorizedField>, fs: Ghost<Seq<FieldModel>>) -> (r: Vec<String>)
    requires
        categorized_all(cat@, fs@),
    ensures
        views(r@) == unit_args(fs@),
{
    let n = cat.len();
    let mut r: Vec<String> = Vec::new();
    let mut i: usize = 0;
    assert(fs@.take(0) =~= Seq::<FieldModel>::empty());
    assert(views(r@) =~= Seq::<Seq<char>>::empty());
    while i < n
        invariant
            n == cat@.len(),
            i <= n,
            categorized_all(cat@, fs@),
            views(r@) == unit_args(fs@.take(i as int)),
        decreases n - i,
    {
        assert(fs@.take(i + 1).drop_last() =~= fs@.take(i as int));
        assert(categorizes(cat@[i as int], fs@[i as int]));
        if let FieldCategory::Regular { .. } = &cat[i].category {
            let mut u = String::new();
            u.append("()");
            proof { lemma_views_push(r@, u); }
            r.push(u);
        }
        i += 1;
    }
    assert(fs@.take(n as int) =~= fs@);
    r
}

/// Each regular field's own type.
fn concrete_types_of(cat: &Vec<CategorizedField>, fs: Ghost<Seq<FieldModel>>) -> (r: Vec<String>)
    requires
        categorized_all(cat@, fs@),
    ensures
        views(r@) == concrete_types(fs@),
{
    let n = cat.len();
    let mut r: Vec<String> = Vec::new();
    let mut i: usize = 0;
    assert(fs@.take(0) =~= Seq::<FieldModel>::empty());
    assert(views(r@) =~= Seq::<Seq<char>>::empty());
    while i < n
        invariant
            n == cat@.len(),
            i <= n,
            categorized_all(cat@, fs@),
            views(r@) == concrete_types(fs@.take(i as int)),
        decreases n - i,
    {
        assert(fs@.take(i + 1).drop_last() =~= fs@.take(i as int));
        assert(categorizes(cat@[i as int], fs@[i as int]));
        if let FieldCategory::Regular { ty } = &cat[i].category {
            let t = copy_string(ty);
            proof { lemma_views_push(r@, t); }
            r.push(t);
        }
        i += 1;
    }
    assert(fs@.take(n as int) =~= fs@);
    r
}

/// `()` for each regular field marked `#[incomplete]`, the own type for the others.
fn incomplete_args_of(cat: &Vec<CategorizedField>, fs: Ghost<Seq<FieldModel>>) -> (r: Vec<String>)
    requires
        categorized_all(cat@, fs@),
    ensures
        views(r@) == incomplete_args(fs@),
{
    let n = cat.len();
    let mut r: Vec<String> = Vec::new();
    let mut i: usize = 0;
    assert(fs@.take(0) =~= Seq::<FieldModel>::empty());
    assert(views(r@) =~= Seq::<Seq<char>>::empty());
    while i < n
        invariant
            n == cat@.len(),
            i <= n,
            categorized_all(cat@, fs@),
            views(r@) == incomplete_args(fs@.take(i as int)),
        decreases n - i,
    {
        assert(fs@.take(i + 1).drop_last() =~= fs@.take(i as int));
        assert(categorizes(cat@[i as int], fs@[i as int]));
        let c = &cat[i];
        if let FieldCategory::Regular { ty } = &c.category {
            let t = if c.has_incomplete {
                let mut u = String::new();
                u.append("()");
                u
            } else {
                copy_string(ty)
            };
            proof { lemma_views_push(r@, t); }
            r.push(t);
        }
        i += 1;
    }
    assert(fs@.take(n as int) =~= fs@);
    r
}

/// The initializers of `new`.
fn field_inits_of(cat: &Vec<CategorizedField>, fs: Ghost<Seq<FieldModel>>) -> (r: Vec<String>)
    requires
        categorized_all(cat@, fs@),
    ensures
        views(r@) == field_inits(fs@),
{
    let n = cat.len();
    let mut r: Vec<String> = Vec::new();
    let mut i: usize = 0;
    assert(fs@.take(0) =~= Seq::<FieldModel>::empty());
    assert(views(r@) =~= Seq::<Seq<char>>::empty());
    while i < n
        invariant
            n == cat@.len(),
            i <= n,
            categorized_all(cat@, fs@),
            views(r@) == field_inits(fs@.take(i as int)),
        decreases n - i,
    {
        assert(fs@.take(i + 1).drop_last() =~= fs@.take(i as int));
        assert(categorizes(cat@[i as int], fs@[i as int]));
        let c = &cat[i];
        let mut d = copy_string(c.name);
        d.append(": ");
        match &c.category {
            FieldCategory::Default { value, .. } => {
                d.append(value.as_str());
            },
            FieldCategory::Regular { .. } => {
                d.append("()");
            },
        }
        proof { lemma_views_push(r@, d); }
        r.push(d);
        i += 1;
    }
    assert(fs@.take(n as int) =~= fs@);
    r
}

/// `name: self.name` for a field.
fn self_assign_of(name: &String) -> (r: String)
    ensures
        r@ == name@ + ": self."@ + name@,
{
    let mut d = copy_string(name);
    d.append(": self.");
    d.append(name.as_str());
    d
}

/// `name: self.name` for every field.
fn build_assigns_of(cat: &Vec<CategorizedField>, fs: Ghost<Seq<FieldModel>>) -> (r: Vec<String>)
    requires
        categorized_all(cat@, fs@),
    ensures
        views(r@) == build_assigns(fs@),
{
    let n = cat.len();
    let mut r: Vec<String> = Vec::new();
    let mut i: usize = 0;
    assert(fs@.take(0) =~= Seq::<FieldModel>::empty());
    assert(views(r@) =~= Seq::<Seq<char>>::empty());
    while i < n
        invariant
            n == cat@.len(),
            i <= n,
            categorized_all(cat@, fs@),
            views(r@) == build_assigns(fs@.take(i as int)),
        decreases n - i,
    {
        assert(fs@.take(i + 1).drop_last() =~= fs@.take(i as int));
        assert(categorizes(cat@[i as int], fs@[i as int]));
        let d = self_assign_of(cat[i].name);
        proof { lemma_views_push(r@, d); }
        r.push(d);
        i += 1;
    }
    assert(fs@.take(n as int) =~= fs@);
    r
}

/// Generates the `{Struct}Incomplete` alias when some field is marked
/// `#[incomplete]` without a default value; nothing otherwise.
pub fn generate_type_aliases(struct_name: &String, builder_name: &String, fields: &[FieldModel]) -> (r: String)
    ensures
        r@ == type_aliases_text(struct_name@, builder_name@, fields@),
{
    if has_any_incomplete_fields(fields) {
        let categorized = categorize_fields(fields);
        let type_params_incomplete = incomplete_args_of(&categorized, Ghost(fields@));
        let incomplete_name = create_type_alias_name(struct_name, "Incomplete");
        let mut out = String::new();
        out.append("pub type ");
        out.append(incomplete_name.as_str());
        out.append(" = ");
        out.append(builder_name.as_str());
        push_angle(&mut out, &type_params_incomplete);
        out.append(";");
        assert(out@ =~= type_aliases_text(struct_name@, builder_name@, fields@));
        out
    } else {
        String::new()
    }
}

/// Generates the `new()` constructor.
pub fn generate_constructor(builder_name: &String, fields: &[FieldModel]) -> (r: String)
    ensures
        r@ == constructor_text(builder_name@, fields@),
{
    let categorized = categorize_fields(fields);
    let type_params = unit_args_of(&categorized, Ghost(fields@));
    let field_inits = field_inits_of(&categorized, Ghost(fields@));
    let mut out = String::new();
    out.append("impl ");
    out.append(builder_name.as_str());
    push_angle(&mut out, &type_params);
    out.append(" { pub fn new() -> Self { Self { ");
    push_join(&mut out, &field_inits, ", ");
    out.append(" } } }");
    assert(out@ =~= constructor_text(builder_name@, fields@));
    out
}

/// Generates the `build()` method of the fully concrete builder.
pub fn generate_build_method(struct_name: &String, builder_name: &String, fields: &[FieldModel]) -> (r: String)
    ensures
        r@ == build_method_text(struct_name@, builder_name@, fields@),
{
    let categorized = categorize_fields(fields);
    let concrete = concrete_types_of(&categorized, Ghost(fields@));
    let assigns = build_assigns_of(&categorized, Ghost(fields@));
    let mut out = String::new();
    out.append("impl ");
    out.append(builder_name.as_str());
    push_angle(&mut out, &concrete);
    out.append(" { pub fn build(self) -> ");
    out.append(struct_name.as_str());
    out.append(" { ");
    out.append(struct_name.as_str());
    out.append(" { ");
    push_join(&mut out, &assigns, ", ");
    out.append(" } } }");
    assert(out@ =~= build_method_text(struct_name@, builder_name@, fields@));
    out
}

/// The type parameters of a prefix of the fields are no more than those of all fields.
pub proof fn lemma_regular_params_prefix(fs: Seq<FieldModel>, m: int)
    requires
        0 <= m <= fs.len(),
    ensures
        regular_params(fs.take(m)).len() <= regular_params(fs).len(),
    decreases fs.len() - m,
{
    if m < fs.len() {
        assert(fs.take(m + 1).drop_last() =~= fs.take(m));
        lemma_regular_params_prefix(fs, m + 1);
    } else {
        assert(fs.take(m) =~= fs);
    }
}

/// Appends the bounds of a wrapping setter's argument.
fn push_trait_bounds(out: &mut String, bounds: &Vec<BoundModel>)
    ensures
        final(out)@ == old(out)@ + trait_bounds_text(bounds@),
{
    let n = bounds.len();
    let mut texts: Vec<String> = Vec::new();
    let mut has_lifetime = false;
    let mut i: usize = 0;
    assert(bounds@.take(0) =~= Seq::<BoundModel>::empty());
    assert(views(texts@) =~= Seq::<Seq<char>>::empty());
    while i < n
        invariant
            n == bounds@.len(),
            i <= n,
            views(texts@) == bound_texts(bounds@.take(i as int)),
            has_lifetime == has_lifetime_bound(bounds@.take(i as int)),
        decreases n - i,
    {
        assert(bounds@.take(i + 1).drop_last() =~= bounds@.take(i as int));
        let b = &bounds[i];
        let t = copy_string(&b.text);
        proof { lemma_views_push(texts@, t); }
        texts.push(t);
        let is_lifetime = match b.kind {
            BoundKind::Lifetime => true,
            _ => false,
        };
        proof {
            let prev = bounds@.take(i as int);
            let next = bounds@.take(i + 1);
            if is_lifetime {
                assert(next[i as int] == bounds@[i as int]);
            }
            if has_lifetime {
                let w = choose|j: int| 0 <= j < prev.len() && (#[trigger] prev[j]).kind == BoundKind::Lifetime;
                assert(next[w] == prev[w]);
            }
            if has_lifetime_bound(next) {
                let w = choose|j: int| 0 <= j < next.len() && (#[trigger] next[j]).kind == BoundKind::Lifetime;
                if w < i {
                    assert(prev[w] == next[w]);
                }
            }
        }
        has_lifetime = has_lifetime || is_lifetime;
        i += 1;
    }
    assert(bounds@.take(n as int) =~= bounds@);
    let ghost start = out@;
    push_join(out, &texts, " + ");
    if !has_lifetime {
        out.append(" + 'static");
    }
    assert(out@ =~= start + trait_bounds_text(bounds@));
}

/// The type text recorded in a field's category.
fn category_type<'a>(c: &CategorizedField<'a>) -> (r: &'a String)
    ensures
        r == match c.category {
            FieldCategory::Default { ty, .. } => ty,
            FieldCategory::Regular { ty } => ty,
        },
{
    match &c.category {
        FieldCategory::Default { ty, .. } => ty,
        FieldCategory::Regular { ty } => ty,
    }
}

/// Appends the parameter of a field's setter.
fn push_param_decl(out: &mut String, c: &CategorizedField, f: Ghost<FieldModel>)
    requires
        categorizes(*c, f@),
    ensures
        final(out)@ == old(out)@ + param_decl(f@),
{
    let ghost start = out@;
    out.append(c.name.as_str());
    match &c.wrapper {
        WrapperType::Plain => {
            out.append(": ");
            out.append(category_type(c).as_str());
        },
        WrapperType::Arc(bounds) => {
            out.append(": impl ");
            push_trait_bounds(out, bounds);
        },
        WrapperType::Box(bounds) => {
            out.append(": impl ");
            push_trait_bounds(out, bounds);
        },
    }
    assert(out@ =~= start + param_decl(f@));
}

/// Appends the value that a field's setter stores.
fn push_wrapped_value(out: &mut String, c: &CategorizedField, f: Ghost<FieldModel>)
    requires
        categorizes(*c, f@),
    ensures
        final(out)@ == old(out)@ + wrapped_value(f@),
{
    let ghost start = out@;
    match &c.wrapper {
        WrapperType::Plain => {
            out.append(c.name.as_str());
        },
        WrapperType::Arc(_) => {
            out.append("std::sync::Arc::new(");
            out.append(c.name.as_str());
            out.append(")");
        },
        WrapperType::Box(_) => {
            out.append("Box::new(");
            out.append(c.name.as_str());
            out.append(")");
        },
    }
    assert(out@ =~= start + wrapped_value(f@));
}

/// `f: self.f` for every field whose name is not `name`.
fn other_assigns_of(cat: &Vec<CategorizedField>, fs: Ghost<Seq<FieldModel>>, name: &String) -> (r: Vec<String>)
    requires
        categorized_all(cat@, fs@),
    ensures
        views(r@) == other_assigns(fs@, name@),
{
    let n = cat.len();
    let mut r: Vec<String> = Vec::new();
    let mut i: usize = 0;
    assert(fs@.take(0) =~= Seq::<FieldModel>::empty());
    assert(views(r@) =~= Seq::<Seq<char>>::empty());
    while i < n
        invariant
            n == cat@.len(),
            i <= n,
            categorized_all(cat@, fs@),
            views(r@) == other_assigns(fs@.take(i as int), name@),
        decreases n - i,
    {
        assert(fs@.take(i + 1).drop_last() =~= fs@.take(i as int));
        assert(categorizes(cat@[i as int], fs@[i as int]));
        let c = &cat[i];
        if !str_eq(c.name.as_str(), name.as_str()) {
            let d = self_assign_of(c.name);
            proof { lemma_views_push(r@, d); }
            r.push(d);
        }
        i += 1;
    }
    assert(fs@.take(n as int) =~= fs@);
    r
}

/// `params` with the one at `at` replaced by `ty`.
fn replace_param(params: &Vec<String>, at: usize, ty: &String) -> (r: Vec<String>)
    requires
        at < params@.len(),
    ensures
        views(r@) == views(params@).update(at as int, ty@),
{
    let n = params.len();
    let mut r: Vec<String> = Vec::new();
    let mut i: usize = 0;
    while i < n
        invariant
            n == params@.len(),
            i <= n,
            r@.len() == i,
            forall|j: int| 0 <= j < i ==> #[trigger] r@[j]@ == (if j == at { ty@ } else { params@[j]@ }),
        decreases n - i,
    {
        if i == at {
            r.push(copy_string(ty));
        } else {
            r.push(copy_string(&params[i]));
        }
        i += 1;
    }
    assert(views(r@) =~= views(params@).update(at as int, ty@));
    r
}

/// The setter of regular field `k`, whose type parameter is at `at`.
fn regular_setter_of(
    builder_name: &String,
    cat: &Vec<CategorizedField>,
    fs: Ghost<Seq<FieldModel>>,
    k: usize,
    params: &Vec<String>,
    at: usize,
) -> (r: String)
    requires
        categorized_all(cat@, fs@),
        k < fs@.len(),
        cat@[k as int].category is Regular,
        views(params@) == regular_params(fs@),
        at == param_index(fs@, k as int),
        at < params@.len(),
    ensures
        r@ == regular_setter(builder_name@, fs@, k as int),
{
    let c = &cat[k];
    let ghost f = fs@[k as int];
    assert(categorizes(cat@[k as int], f));
    let ty = category_type(c);
    let args = replace_param(params, at, ty);
    let others = other_assigns_of(cat, fs, c.name);
    let mut out = String::new();
    out.append("pub fn with_");
    out.append(c.name.as_str());
    out.append("(self, ");
    push_param_decl(&mut out, c, Ghost(f));
    out.append(") -> ");
    out.append(builder_name.as_str());
    push_angle(&mut out, &args);
    out.append(" { ");
    out.append(builder_name.as_str());
    out.append(" { ");
    let ghost before_init = out@;
    match &c.wrapper {
        WrapperType::Plain => {
            out.append(c.name.as_str());
        },
        _ => {
            out.append(c.name.as_str());
            out.append(": ");
            push_wrapped_value(&mut out, c, Ghost(f));
        },
    }
    assert(out@ =~= before_init + set_field_init(f));
    out.append(", ");
    push_join(&mut out, &others, ", ");
    out.append(" } } ");
    assert(setter_args(fs@, k as int) == views(args@));
    assert(out@ =~= regular_setter(builder_name@, fs@, k as int));
    out
}

/// The setter of a default field.
fn default_setter_of(c: &CategorizedField, f: Ghost<FieldModel>) -> (r: String)
    requires
        categorizes(*c, f@),
    ensures
        r@ == default_setter(f@),
{
    let mut out = String::new();
    out.append("pub fn with_");
    out.append(c.name.as_str());
    out.append("(mut self, ");
    push_param_decl(&mut out, c, f);
    out.append(") -> Self { self.");
    out.append(c.name.as_str());
    out.append(" = ");
    push_wrapped_value(&mut out, c, f);
    out.append("; self } ");
    assert(out@ =~= default_setter(f@));
    out
}

/// Generates the setters: a typestate setter per regular field, then a
/// consuming setter per default field.
pub fn generate_builder_methods(builder_name: &String, fields: &[FieldModel]) -> (r: String)
    ensures
        r@ == builder_methods_text(builder_name@, fields@),
{
    let ghost fs = fields@;
    let categorized = categorize_fields(fields);
    let type_params = regular_params_of(&categorized, Ghost(fs));
    let n = categorized.len();
    let param_count = type_params.len();
    let mut regular_methods: Vec<String> = Vec::new();
    let mut default_methods: Vec<String> = Vec::new();
    let mut regular_idx: usize = 0;
    let mut i: usize = 0;
    assert(fs.take(0) =~= Seq::<FieldModel>::empty());
    assert(views(regular_methods@) =~= Seq::<Seq<char>>::empty());
    assert(views(default_methods@) =~= Seq::<Seq<char>>::empty());
    while i < n
        invariant
            n == fs.len(),
            fs == fields@,
            i <= n,
            categorized_all(categorized@, fs),
            views(type_params@) == regular_params(fs),
            param_count == type_params@.len(),
            regular_idx == param_index(fs, i as int),
            views(regular_methods@) == regular_setters_upto(builder_name@, fs, i as int),
            views(default_methods@) == default_setters(fs.take(i as int)),
        decreases n - i,
    {
        assert(fs.take(i + 1).drop_last() =~= fs.take(i as int));
        assert(categorizes(categorized@[i as int], fs[i as int]));
        proof { lemma_regular_params_prefix(fs, i + 1); }
        let c = &categorized[i];
        match &c.category {
            FieldCategory::Regular { .. } => {
                assert(regular_params(fs.take(i + 1)).len() == regular_idx + 1);
                assert(regular_idx < type_params@.len());
                let m = regular_setter_of(builder_name, &categorized, Ghost(fs), i, &type_params, regular_idx);
                proof { lemma_views_push(regular_methods@, m); }
                regular_methods.push(m);
                regular_idx += 1;
            },
            FieldCategory::Default { .. } => {
                let m = default_setter_of(c, Ghost(fs[i as int]));
                proof { lemma_views_push(default_methods@, m); }
                default_methods.push(m);
            },
        }
        i += 1;
    }
    assert(fs.take(n as int) =~= fs);
    let mut out = String::new();
    out.append("impl");
    push_angle(&mut out, &type_params);
    out.append(" ");
    out.append(builder_name.as_str());
    push_angle(&mut out, &type_params);
    out.append(" { ");
    push_concat(&mut out, &regular_methods);
    push_concat(&mut out, &default_methods);
    out.append("}");
    assert(out@ =~= builder_methods_text(builder_name@, fields@));
    out
}

/// Why a builder cannot be derived for an item.
#[derive(Clone, Copy, PartialEq, Eq, Structural, Debug)]
pub enum DeriveError {
    /// The item is a struct whose fields are not named.
    NotNamedFields,
    /// The item is not a struct.
    NotStruct,
    /// Attribute `attr` of field `field` is a `#[default]` whose arguments are
    /// not one expression.
    InvalidDefault { field: usize, attr: usize },
}

/// The message reported for an error.
pub open spec fn error_message(e: DeriveError) -> Seq<char> {
    match e {
        DeriveError::NotNamedFields => "Builder can only be derived for structs with named fields"@,
        DeriveError::NotStruct => "Builder can only be derived for structs"@,
        DeriveError::InvalidDefault { .. } => "expected a single expression: #[default(expression)]"@,
    }
}

impl DeriveError {
    /// The message reported for this error.
    pub fn message(&self) -> (r: String)
        ensures
            r@ == error_message(*self),
    {
        let mut r = String::new();
        match self {
            DeriveError::NotNamedFields => r.append("Builder can only be derived for structs with named fields"),
            DeriveError::NotStruct => r.append("Builder can only be derived for structs"),
            DeriveError::InvalidDefault { .. } => r.append("expected a single expression: #[default(expression)]"),
        }
        r
    }
}

/// The named fields of the item, or why there are none.
pub open spec fn named_fields(input: DeriveInputModel) -> Result<Seq<FieldModel>, DeriveError> {
    match input.data {
        DataModel::Struct(FieldsModel::Named(fs)) => Ok(fs@),
        DataModel::Struct(_) => Err(DeriveError::NotNamedFields),
        _ => Err(DeriveError::NotStruct),
    }
}

/// Extracts the named fields of a struct.
pub fn extract_fields(input: &DeriveInputModel) -> (r: Result<&Vec<FieldModel>, DeriveError>)
    ensures
        match named_fields(*input) {
            Ok(fs) => r matches Ok(v) && v@ == fs,
            Err(e) => r == Err::<&Vec<FieldModel>, DeriveError>(e),
        },
{
    match &input.data {
        DataModel::Struct(fields) => match fields {
            FieldsModel::Named(named) => Ok(named),
            _ => Err(DeriveError::NotNamedFields),
        },
        _ => Err(DeriveError::NotStruct),
    }
}

/// What deriving the builder gives: the error for an item that is not a
/// struct with named fields, then the error for the first field with a
/// `#[default]` that is not one expression, and otherwise the expansion.
pub open spec fn derive_result(input: DeriveInputModel) -> Result<Seq<char>, DeriveError> {
    match named_fields(input) {
        Err(e) => Err(e),
        Ok(fs) => match first_invalid_default(fs) {
            Some((k, j)) => Err(DeriveError::InvalidDefault { field: k as usize, attr: j as usize }),
            None => Ok(expansion(input.ident@, fs)),
        },
    }
}

/// Derives the builder for an item described in the model: the text of the
/// builder struct, the incomplete alias, the constructor, the setters and the build method; or
/// the error when the item is not a struct with named fields or a field has
/// a `#[default]` attribute whose arguments are not one expression.
pub fn derive_from_model(input: &DeriveInputModel) -> (r: Result<String, DeriveError>)
    ensures
        match derive_result(*input) {
            Ok(t) => r matches Ok(text) && text@ == t,
            Err(e) => r == Err::<String, DeriveError>(e),
        },
{
    let struct_name = &input.ident;
    let fields = match extract_fields(input) {
        Ok(fields) => fields.as_slice(),
        Err(err) => return Err(err),
    };
    if let Some((field, attr)) = find_invalid_default(fields) {
        return Err(DeriveError::InvalidDefault { field, attr });
    }
    let builder_name = create_builder_name(struct_name);
    let builder_struct = generate_builder_struct(&builder_name, fields);
    let type_aliases = generate_type_aliases(struct_name, &builder_name, fields);
    let constructor = generate_constructor(&builder_name, fields);
    let builder_methods = generate_builder_methods(&builder_name, fields);
    let build_method = generate_build_method(struct_name, &builder_name, fields);
    let mut expanded = String::new();
    expanded.append(builder_struct.as_str());
    expanded.append(" ");
    expanded.append(type_aliases.as_str());
    expanded.append(" ");
    expanded.append(constructor.as_str());
    expanded.append(" ");
    expanded.append(builder_methods.as_str());
    expanded.append(" ");
    expanded.append(build_method.as_str());
    assert(expanded@ =~= expansion(struct_name@, fields@));
    Ok(expanded)
}

/// Derives the builder for the item whose source text is `input`: parses it
/// with syn, describes it in the model, and derives from that. Gives `None`
/// when the text does not parse as an item; otherwise the model that was read
/// and the result for it. Which model syn's parse gives is not stated (it
/// depends on which lexer proc-macro2 uses in the running process); the result
/// is exactly `derive_result` of that model.
pub fn derive_builder(input: &str) -> (r: Option<(DeriveInputModel, Result<String, DeriveError>)>)
    ensures
        r matches Some((m, res)) ==> match derive_result(m) {
            Ok(t) => res matches Ok(text) && text@ == t,
            Err(e) => res == Err::<String, DeriveError>(e),
        },
{
    match read_input(input) {
        Some(model) => {
            let res = derive_from_model(&model);
            Some((model, res))
        },
        None => None,
    }
}

} // verus!
