//! The field attributes that the generator reads: `#[incomplete]` and
//! `#[default(expr)]`.
use vstd::prelude::*;
use crate::model::{AttrArgs, AttributeModel, FieldModel};
use crate::text::{copy_string, str_eq};

verus! {

/// The view of an optional string.
pub open spec fn opt_view(o: Option<String>) -> Option<Seq<char>> {
    match o {
        Some(s) => Some(s@),
        None => None,
    }
}

/// Whether the attribute's path is the single identifier `name`.
pub open spec fn path_is(a: AttributeModel, name: Seq<char>) -> bool {
    a.path_ident matches Some(id) && id@ == name
}

/// Whether the field carries `#[incomplete]`.
pub open spec fn has_incomplete(f: FieldModel) -> bool {
    exists|i: int| 0 <= i < f.attrs@.len() && path_is(#[trigger] f.attrs@[i], "incomplete"@)
}

/// The default value that one attribute gives: for `#[default(tokens)]` the
/// tokens, when they form one expression; nothing otherwise.
pub open spec fn attr_default(a: AttributeModel) -> Option<Seq<char>> {
    if path_is(a, "default"@) {
        match a.args {
            AttrArgs::Expression(t) => Some(t@),
            _ => None,
        }
    } else {
        None
    }
}

/// Whether the attribute is a `#[default]` without one expression as its
/// arguments: `#[default]`, `#[default = v]`, or `#[default(tokens)]` whose
/// tokens are not one expression.
pub open spec fn is_invalid_default(a: AttributeModel) -> bool {
    path_is(a, "default"@) && !(a.args is Expression)
}

/// The first invalid `#[default]` among the attributes from index `j` on.
pub open spec fn invalid_attr_from(attrs: Seq<AttributeModel>, j: int) -> Option<int>
    decreases attrs.len() - j,
{
    if j < 0 || j >= attrs.len() {
        None
    } else if is_invalid_default(attrs[j]) {
        Some(j)
    } else {
        invalid_attr_from(attrs, j + 1)
    }
}

/// The first field, from index `k` on, with an invalid `#[default]`, and the
/// index of its first such attribute.
pub open spec fn invalid_default_from(fields: Seq<FieldModel>, k: int) -> Option<(int, int)>
    decreases fields.len() - k,
{
    if k < 0 || k >= fields.len() {
        None
    } else {
        match invalid_attr_from(fields[k].attrs@, 0) {
            Some(j) => Some((k, j)),
            None => invalid_default_from(fields, k + 1),
        }
    }
}

/// The first field with an invalid `#[default]`, and its first such attribute.
pub open spec fn first_invalid_default(fields: Seq<FieldModel>) -> Option<(int, int)> {
    invalid_default_from(fields, 0)
}

/// The first default value given by the attributes from index `i` on.
pub open spec fn default_from(attrs: Seq<AttributeModel>, i: int) -> Option<Seq<char>>
    decreases attrs.len() - i,
{
    if i < 0 || i >= attrs.len() {
        None
    } else if attr_default(attrs[i]) is Some {
        attr_default(attrs[i])
    } else {
        default_from(attrs, i + 1)
    }
}

/// The default value of a field: the arguments of its first `#[default(..)]`
/// attribute whose arguments form an expression.
pub open spec fn default_value(f: FieldModel) -> Option<Seq<char>> {
    default_from(f.attrs@, 0)
}

/// Whether the field counts as incomplete: marked `#[incomplete]` and
/// without a default value.
pub open spec fn counts_incomplete(f: FieldModel) -> bool {
    has_incomplete(f) && default_value(f) is None
}

/// Whether some field counts as incomplete.
pub open spec fn any_incomplete(fields: Seq<FieldModel>) -> bool {
    exists|i: int| 0 <= i < fields.len() && counts_incomplete(#[trigger] fields[i])
}

/// Whether the attribute's path is the single identifier `name`.
fn attr_path_is(a: &AttributeModel, name: &str) -> (r: bool)
    ensures
        r == path_is(*a, name@),
{
    match &a.path_ident {
        Some(id) => str_eq(id.as_str(), name),
        None => false,
    }
}

/// Checks whether a field has the `#[incomplete]` attribute.
pub fn has_incomplete_attr(field: &FieldModel) -> (r: bool)
    ensures
        r == has_incomplete(*field),
{
    let n = field.attrs.len();
    let mut i: usize = 0;
    while i < n
        invariant
            n == field.attrs@.len(),
            i <= n,
            forall|j: int| 0 <= j < i ==> !path_is(#[trigger] field.attrs@[j], "incomplete"@),
        decreases n - i,
    {
        if attr_path_is(&field.attrs[i], "incomplete") {
            return true;
        }
        i += 1;
    }
    false
}

/// Extracts the default value from the field's `#[default(...)]` attribute:
/// the arguments of the first one whose arguments are one expression.
pub fn extract_default_value(field: &FieldModel) -> (r: Option<String>)
    ensures
        opt_view(r) == default_value(*field),
{
    let n = field.attrs.len();
    let mut i: usize = 0;
    while i < n
        invariant
            n == field.attrs@.len(),
            i <= n,
            default_value(*field) == default_from(field.attrs@, i as int),
        decreases n - i,
    {
        let attr = &field.attrs[i];
        if attr_path_is(attr, "default") {
            if let AttrArgs::Expression(tokens) = &attr.args {
                return Some(copy_string(tokens));
            }
        }
        i += 1;
    }
    None
}

/// Checks whether a field has a `#[default(...)]` attribute that gives a value.
pub fn has_default_attr(field: &FieldModel) -> (r: bool)
    ensures
        r == (default_value(*field) is Some),
{
    extract_default_value(field).is_some()
}

/// Checks whether any field is marked `#[incomplete]` without also having a
/// default value.
pub fn has_any_incomplete_fields(fields: &[FieldModel]) -> (r: bool)
    ensures
        r == any_incomplete(fields@),
{
    let n = fields.len();
    let mut i: usize = 0;
    while i < n
        invariant
            n == fields@.len(),
            i <= n,
            forall|j: int| 0 <= j < i ==> !counts_incomplete(#[trigger] fields@[j]),
        decreases n - i,
    {
        if has_incomplete_attr(&fields[i]) && !has_default_attr(&fields[i]) {
            assert(counts_incomplete(fields@[i as int]));
            return true;
        }
        i += 1;
    }
    false
}

/// Finds the first field with a `#[default]` attribute whose arguments are
/// not one expression, and that attribute's index.
pub fn find_invalid_default(fields: &[FieldModel]) -> (r: Option<(usize, usize)>)
    ensures
        match first_invalid_default(fields@) {
            Some((k, j)) => r == Some((k as usize, j as usize)),
            None => r is None,
        },
{
    let n = fields.len();
    let mut k: usize = 0;
    while k < n
        invariant
            n == fields@.len(),
            k <= n,
            first_invalid_default(fields@) == invalid_default_from(fields@, k as int),
        decreases n - k,
    {
        let attrs = &fields[k].attrs;
        let m = attrs.len();
        let mut j: usize = 0;
        while j < m
            invariant
                m == attrs@.len(),
                j <= m,
                n == fields@.len(),
                k < n,
                *attrs == fields@[k as int].attrs,
                first_invalid_default(fields@) == invalid_default_from(fields@, k as int),
                invalid_attr_from(attrs@, 0) == invalid_attr_from(attrs@, j as int),
            decreases m - j,
        {
            let a = &attrs[j];
            if attr_path_is(a, "default") {
                match &a.args {
                    AttrArgs::Expression(_) => {},
                    _ => {
                        return Some((k, j));
                    },
                }
            }
            j += 1;
        }
        k += 1;
    }
    None
}

} // verus!
