//! Sorting fields into default and regular ones, and the names that the
//! generated code uses.
use vstd::prelude::*;
use crate::analysis::{analyze_field_type, wrap_of, WrapperType};
use crate::attrs::{default_value, extract_default_value, has_incomplete, has_incomplete_attr, opt_view};
use crate::model::FieldModel;
use crate::text::{push_char, to_ascii_uppercase, upper_ascii};

verus! {

/// The category of a field.
pub enum FieldCategory<'a> {
    /// A field with `#[default(value)]`: its builder field has the concrete
    /// type and starts out holding `value`.
    Default { value: String, ty: &'a String },
    /// Any other field: its builder field is a type parameter that starts out as `()`.
    Regular { ty: &'a String },
}

/// A field with its name, category and wrapping.
pub struct CategorizedField<'a> {
    pub name: &'a String,
    pub category: FieldCategory<'a>,
    pub wrapper: WrapperType<'a>,
    /// Whether the field is marked `#[incomplete]`; never for a default field.
    pub has_incomplete: bool,
}

/// Whether the field is regular (it has no default value).
pub open spec fn is_regular(f: FieldModel) -> bool {
    default_value(f) is None
}

/// `c` is the categorization of `f` when `f`'s default value is `dv`.
pub open spec fn categorizes_as(c: CategorizedField, f: FieldModel, dv: Option<Seq<char>>) -> bool {
    &&& c.name@ == f.name@
    &&& c.wrapper.shape() == wrap_of(f.ty)
    &&& match c.category {
        FieldCategory::Default { value, ty } => {
            &&& dv == Some(value@)
            &&& ty@ == f.ty_text@
            &&& !c.has_incomplete
        },
        FieldCategory::Regular { ty } => {
            &&& dv is None
            &&& ty@ == f.ty_text@
            &&& c.has_incomplete == has_incomplete(f)
        },
    }
}

/// `c` is the categorization of `f`.
pub open spec fn categorizes(c: CategorizedField, f: FieldModel) -> bool {
    categorizes_as(c, f, default_value(f))
}

/// Whether `c` is an ASCII lower-case letter.
pub open spec fn is_lower_ascii(c: char) -> bool {
    'a' <= c && c <= 'z'
}

/// PascalCase of `s`, read from the state that `started` (a character other
/// than `_` has been seen) and `cap` (the next letter starts a word) describe.
/// An underscore after the start that precedes a lower-case letter separates
/// two words and is dropped; every other underscore is kept, and the letter
/// after it starts a word.
pub open spec fn pascal_from(s: Seq<char>, started: bool, cap: bool) -> Seq<char>
    decreases s.len(),
{
    if s.len() == 0 {
        Seq::empty()
    } else if s[0] == '_' && started && s.len() > 1 && is_lower_ascii(s[1]) {
        seq![upper_ascii(s[1])] + pascal_from(s.skip(2), true, false)
    } else if s[0] == '_' {
        seq!['_'] + pascal_from(s.drop_first(), started, true)
    } else {
        seq![if cap { upper_ascii(s[0]) } else { s[0] }] + pascal_from(s.drop_first(), true, false)
    }
}

/// The type parameter that stands for a field: its name in PascalCase
/// (`api_key` -> `ApiKey`), with leading underscores and the underscores not
/// followed by a lower-case letter kept (`_x` -> `_X`, `a__b` -> `A_B`,
/// `a_1` -> `A_1`), so that distinct snake_case names give distinct parameters.
/// Names outside snake_case can meet: `api_key` and `apiKey` both give `ApiKey`,
/// `a` and `A` both give `A`. A parameter can also coincide with a field's
/// type: `log_level: LogLevel` has the parameter `LogLevel`.
pub open spec fn type_param_name(name: Seq<char>) -> Seq<char> {
    pascal_from(name, false, true)
}

/// Categorizes a field whose default value, read from its attributes, is
/// `default`: `#[default]` takes precedence over `#[incomplete]`.
pub fn categorize_field_as(field: &FieldModel, default: Option<String>) -> (r: CategorizedField<'_>)
    ensures
        categorizes_as(r, *field, opt_view(default)),
{
    let wrapper = analyze_field_type(&field.ty);
    let has_incomplete = has_incomplete_attr(field);
    match default {
        Some(value) => CategorizedField {
            name: &field.name,
            category: FieldCategory::Default { value, ty: &field.ty_text },
            wrapper,
            has_incomplete: false,
        },
        None => CategorizedField {
            name: &field.name,
            category: FieldCategory::Regular { ty: &field.ty_text },
            wrapper,
            has_incomplete,
        },
    }
}

/// Categorizes a field as either default or regular.
pub fn categorize_field(field: &FieldModel) -> (r: CategorizedField<'_>)
    ensures
        categorizes(r, *field),
{
    let default = extract_default_value(field);
    categorize_field_as(field, default)
}

/// Categorizes all fields, in order.
pub fn categorize_fields(fields: &[FieldModel]) -> (r: Vec<CategorizedField<'_>>)
    ensures
        r@.len() == fields@.len(),
        forall|j: int| 0 <= j < fields@.len() ==> categorizes(#[trigger] r@[j], fields@[j]),
{
    let n = fields.len();
    let mut r: Vec<CategorizedField> = Vec::new();
    let mut i: usize = 0;
    while i < n
        invariant
            n == fields@.len(),
            i <= n,
            r@.len() == i,
            forall|j: int| 0 <= j < i ==> categorizes(#[trigger] r@[j], fields@[j]),
        decreases n - i,
    {
        r.push(categorize_field(&fields[i]));
        i += 1;
    }
    r
}

/// Converts a field name to the PascalCase type parameter that stands for it
/// (`api_key` -> `ApiKey`).
pub fn field_name_to_type_param(name: &String) -> (r: String)
    ensures
        r@ == type_param_name(name@),
{
    let s = name.as_str();
    let n = s.unicode_len();
    let mut r = String::new();
    let mut started = false;
    let mut cap = true;
    let mut i: usize = 0;
    assert(name@.skip(0) =~= name@);
    assert(r@ + pascal_from(name@.skip(0), started, cap) =~= type_param_name(name@));
    while i < n
        invariant
            n == name@.len(),
            s@ == name@,
            i <= n,
            r@ + pascal_from(name@.skip(i as int), started, cap) == type_param_name(name@),
        decreases n - i,
    {
        let ghost rest = name@.skip(i as int);
        let ghost before = r@;
        let ghost started0 = started;
        let ghost cap0 = cap;
        let c = s.get_char(i);
        let word_break = c == '_' && started && i + 1 < n && is_lower(s.get_char(i + 1));
        if word_break {
            let d = s.get_char(i + 1);
            assert(rest.skip(2) =~= name@.skip(i + 2));
            push_char(&mut r, to_ascii_uppercase(d));
            started = true;
            cap = false;
            i += 2;
        } else if c == '_' {
            assert(rest.drop_first() =~= name@.skip(i + 1));
            push_char(&mut r, '_');
            cap = true;
            i += 1;
        } else {
            assert(rest.drop_first() =~= name@.skip(i + 1));
            let x = if cap { to_ascii_uppercase(c) } else { c };
            push_char(&mut r, x);
            started = true;
            cap = false;
            i += 1;
        }
        assert(r@ + pascal_from(name@.skip(i as int), started, cap) =~= before + pascal_from(rest, started0, cap0));
    }
    assert(name@.skip(n as int) =~= Seq::<char>::empty());
    assert(r@ =~= type_param_name(name@));
    r
}

/// Whether `c` is an ASCII lower-case letter.
fn is_lower(c: char) -> (r: bool)
    ensures
        r == is_lower_ascii(c),
{
    'a' <= c && c <= 'z'
}

/// Creates the builder's name (`Config` -> `ConfigBuilder`).
pub fn create_builder_name(struct_name: &String) -> (r: String)
    ensures
        r@ == struct_name@ + "Builder"@,
{
    let mut r = String::new();
    r.append(struct_name.as_str());
    r.append("Builder");
    r
}

/// Creates a type alias name (`Config` and `Incomplete` -> `ConfigIncomplete`).
pub fn create_type_alias_name(struct_name: &String, suffix: &str) -> (r: String)
    ensures
        r@ == struct_name@ + suffix@,
{
    let mut r = String::new();
    r.append(struct_name.as_str());
    r.append(suffix);
    r
}

} // verus!
