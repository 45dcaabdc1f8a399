//! Properties of the generated builders that hold for every struct.
use vstd::prelude::*;
use crate::analysis::{arc_bounds, box_bounds};
use crate::attrs::{any_incomplete, has_incomplete};
use crate::categorize::{is_lower_ascii, is_regular, pascal_from, type_param_name};
use crate::expansion::{
    build_assigns, concrete_types, default_setters, incomplete_args, other_assigns, param_index,
    regular_params, self_assign,
    regular_setters_upto, setter_args, type_aliases_text, unit_args,
};
use crate::generate::lemma_regular_params_prefix;
use crate::model::{FieldModel, TypeModel};
use crate::text::upper_ascii;

verus! {

/// `k` is the index of a regular field.
pub open spec fn is_regular_index(fs: Seq<FieldModel>, k: int) -> bool {
    0 <= k < fs.len() && is_regular(fs[k])
}

/// The builder's type arguments after the setters of the fields at the
/// indices in `order` were called, in that order, on a builder whose type
/// arguments were `state`: each setter puts its field's type in its field's
/// position.
///
/// This reads each setter's result by substituting the builder's arguments
/// for its type parameters, which is what the generated code means when no
/// regular field's type text is one of the parameter names. When one is (for
/// instance `log_level: LogLevel`, whose parameter is also `LogLevel`), that
/// type inside the generated `impl<..>` names the parameter, the setter leaves
/// the argument unchanged, and the laws below do not describe the generated code.
pub open spec fn apply_setters(fs: Seq<FieldModel>, state: Seq<Seq<char>>, order: Seq<int>) -> Seq<Seq<char>>
    decreases order.len(),
{
    if order.len() == 0 {
        state
    } else {
        apply_setters(fs, state, order.drop_last()).update(
            param_index(fs, order.last()),
            fs[order.last()].ty_text@,
        )
    }
}

/// Whether the setter of some field in `order` writes position `j`.
pub open spec fn sets_position(fs: Seq<FieldModel>, order: Seq<int>, j: int) -> bool {
    exists|i: int| 0 <= i < order.len() && param_index(fs, #[trigger] order[i]) == j
}

/// The builder's type parameters, the arguments of `new`, those of `build`
/// and those of the incomplete alias are equally many.
pub proof fn lemma_arity(fs: Seq<FieldModel>)
    ensures
        unit_args(fs).len() == regular_params(fs).len(),
        concrete_types(fs).len() == regular_params(fs).len(),
        incomplete_args(fs).len() == regular_params(fs).len(),
    decreases fs.len(),
{
    if fs.len() > 0 {
        lemma_arity(fs.drop_last());
    }
}

/// The position of regular field `k` among the type parameters is in range,
/// and there `new` has `()`, `build` has the field's type, and the incomplete
/// alias has `()` or the field's type as the field is marked `#[incomplete]`.
pub proof fn lemma_position(fs: Seq<FieldModel>, k: int)
    requires
        is_regular_index(fs, k),
    ensures
        0 <= param_index(fs, k) < regular_params(fs).len(),
        regular_params(fs)[param_index(fs, k)] == type_param_name(fs[k].name@),
        unit_args(fs)[param_index(fs, k)] == "()"@,
        concrete_types(fs)[param_index(fs, k)] == fs[k].ty_text@,
        incomplete_args(fs)[param_index(fs, k)] == (if has_incomplete(fs[k]) {
            "()"@
        } else {
            fs[k].ty_text@
        }),
    decreases fs.len(),
{
    let last = fs.len() - 1;
    assert(fs.drop_last().take(k) =~= fs.take(k));
    lemma_arity(fs.drop_last());
    if k == last {
        assert(fs.take(k) =~= fs.drop_last());
    } else {
        lemma_position(fs.drop_last(), k);
    }
}

/// Every position among the type parameters belongs to a regular field.
pub proof fn lemma_position_owner(fs: Seq<FieldModel>, j: int) -> (k: int)
    requires
        0 <= j < regular_params(fs).len(),
    ensures
        is_regular_index(fs, k),
        param_index(fs, k) == j,
    decreases fs.len(),
{
    let last = fs.len() - 1;
    if j < regular_params(fs.drop_last()).len() {
        let k = lemma_position_owner(fs.drop_last(), j);
        assert(fs.drop_last().take(k) =~= fs.take(k));
        k
    } else {
        assert(fs.take(last) =~= fs.drop_last());
        last
    }
}

/// Distinct regular fields have distinct positions.
pub proof fn lemma_position_injective(fs: Seq<FieldModel>, k1: int, k2: int)
    requires
        is_regular_index(fs, k1),
        is_regular_index(fs, k2),
        k1 < k2,
    ensures
        param_index(fs, k1) < param_index(fs, k2),
{
    let pre = fs.take(k2);
    assert(fs.take(k1 + 1).drop_last() =~= fs.take(k1));
    assert(pre.take(k1 + 1) =~= fs.take(k1 + 1));
    lemma_regular_params_prefix(pre, k1 + 1);
}

/// Each setter fixes its own field's type parameter and no other: after any
/// sequence of setter calls, a position holds the field's type when that
/// field's setter was called, and what it held before otherwise.
pub proof fn lemma_apply_setters(fs: Seq<FieldModel>, state: Seq<Seq<char>>, order: Seq<int>)
    requires
        state.len() == regular_params(fs).len(),
        forall|i: int| 0 <= i < order.len() ==> is_regular_index(fs, #[trigger] order[i]),
    ensures
        apply_setters(fs, state, order).len() == state.len(),
        forall|j: int|
            0 <= j < state.len() ==> #[trigger] apply_setters(fs, state, order)[j] == if sets_position(
                fs,
                order,
                j,
            ) {
                concrete_types(fs)[j]
            } else {
                state[j]
            },
    decreases order.len(),
{
    if order.len() > 0 {
        let prev = order.drop_last();
        assert forall|i: int| 0 <= i < prev.len() implies is_regular_index(fs, #[trigger] prev[i]) by {
            assert(prev[i] == order[i]);
        }
        lemma_apply_setters(fs, state, prev);
        let k = order.last();
        assert(is_regular_index(fs, order[order.len() - 1]));
        lemma_position(fs, k);
        lemma_arity(fs);
        assert forall|j: int| 0 <= j < state.len() implies #[trigger] apply_setters(fs, state, order)[j]
            == if sets_position(fs, order, j) { concrete_types(fs)[j] } else { state[j] } by {
            if j == param_index(fs, k) {
                assert(order[order.len() - 1] == k);
                assert(sets_position(fs, order, j));
            } else {
                if sets_position(fs, order, j) {
                    let i = choose|i: int| 0 <= i < order.len() && param_index(fs, #[trigger] order[i]) == j;
                    assert(i != order.len() - 1);
                    assert(prev[i] == order[i]);
                    assert(sets_position(fs, prev, j));
                }
                if sets_position(fs, prev, j) {
                    let i = choose|i: int| 0 <= i < prev.len() && param_index(fs, #[trigger] prev[i]) == j;
                    assert(prev[i] == order[i]);
                    assert(sets_position(fs, order, j));
                }
            }
        }
    }
}

/// Calling the setter of every regular field, in any order and any number
/// of times, on the builder that `new` returns gives exactly the builder
/// that `build` is defined for.
/// (Read through `apply_setters`, under its premise on type texts.)
pub proof fn law_all_setters_reach_build(fs: Seq<FieldModel>, order: Seq<int>)
    requires
        forall|i: int| 0 <= i < order.len() ==> is_regular_index(fs, #[trigger] order[i]),
        forall|k: int| is_regular_index(fs, k) ==> order.contains(k),
    ensures
        apply_setters(fs, unit_args(fs), order) == concrete_types(fs),
{
    lemma_arity(fs);
    lemma_apply_setters(fs, unit_args(fs), order);
    assert forall|j: int| 0 <= j < unit_args(fs).len() implies sets_position(fs, order, j) by {
        let k = lemma_position_owner(fs, j);
        assert(order.contains(k));
        let i = choose|i: int| 0 <= i < order.len() && order[i] == k;
        assert(param_index(fs, order[i]) == j);
    }
    assert(apply_setters(fs, unit_args(fs), order) =~= concrete_types(fs));
}

/// A regular field whose setter was not called keeps `()` as its type
/// argument, so the builder is not yet the one that `build` is defined for
/// unless the field's own type is written `()`.
/// (Read through `apply_setters`, under its premise on type texts.)
pub proof fn law_unset_field_stays_unit(fs: Seq<FieldModel>, order: Seq<int>, k: int)
    requires
        forall|i: int| 0 <= i < order.len() ==> is_regular_index(fs, #[trigger] order[i]),
        is_regular_index(fs, k),
        !order.contains(k),
    ensures
        apply_setters(fs, unit_args(fs), order)[param_index(fs, k)] == "()"@,
{
    lemma_arity(fs);
    lemma_position(fs, k);
    lemma_apply_setters(fs, unit_args(fs), order);
    if sets_position(fs, order, param_index(fs, k)) {
        let i = choose|i: int| 0 <= i < order.len() && param_index(fs, #[trigger] order[i]) == param_index(fs, k);
        let k2 = order[i];
        assert(k2 != k);
        if k2 < k {
            lemma_position_injective(fs, k2, k);
        } else {
            lemma_position_injective(fs, k, k2);
        }
    }
}

/// Calling, on the builder that `new` returns, the setters of exactly the
/// regular fields not marked `#[incomplete]` gives the builder named by the
/// incomplete alias.
/// (Read through `apply_setters`, under its premise on type texts.)
pub proof fn law_incomplete_alias_state(fs: Seq<FieldModel>, order: Seq<int>)
    requires
        forall|i: int| 0 <= i < order.len() ==> is_regular_index(fs, #[trigger] order[i]),
        forall|i: int| 0 <= i < order.len() ==> !has_incomplete(fs[#[trigger] order[i]]),
        forall|k: int| is_regular_index(fs, k) && !has_incomplete(fs[k]) ==> order.contains(k),
    ensures
        apply_setters(fs, unit_args(fs), order) == incomplete_args(fs),
{
    lemma_arity(fs);
    lemma_apply_setters(fs, unit_args(fs), order);
    assert forall|j: int| 0 <= j < unit_args(fs).len() implies #[trigger] apply_setters(
        fs,
        unit_args(fs),
        order,
    )[j] == incomplete_args(fs)[j] by {
        let k = lemma_position_owner(fs, j);
        lemma_position(fs, k);
        if has_incomplete(fs[k]) {
            if sets_position(fs, order, j) {
                let i = choose|i: int| 0 <= i < order.len() && param_index(fs, #[trigger] order[i]) == j;
                let k2 = order[i];
                if k2 < k {
                    lemma_position_injective(fs, k2, k);
                } else if k < k2 {
                    lemma_position_injective(fs, k, k2);
                }
            }
        } else {
            assert(order.contains(k));
            let i = choose|i: int| 0 <= i < order.len() && order[i] == k;
            assert(param_index(fs, order[i]) == j);
        }
    }
    assert(apply_setters(fs, unit_args(fs), order) =~= incomplete_args(fs));
}

/// Every field gets exactly one setter: a typestate setter per regular
/// field and a consuming setter per default field.
pub proof fn law_one_setter_per_field(b: Seq<char>, fs: Seq<FieldModel>)
    ensures
        regular_setters_upto(b, fs, fs.len() as int).len() + default_setters(fs).len() == fs.len(),
    decreases fs.len(),
{
    if fs.len() > 0 {
        let prev = fs.drop_last();
        law_one_setter_per_field(b, prev);
        lemma_setters_upto_prefix(b, fs, prev.len() as int);
    }
}

/// The regular setters among the first `n` fields count the same whatever
/// fields follow them.
proof fn lemma_setters_upto_prefix(b: Seq<char>, fs: Seq<FieldModel>, n: int)
    requires
        0 <= n < fs.len(),
    ensures
        regular_setters_upto(b, fs, n).len() == regular_setters_upto(b, fs.drop_last(), n).len(),
    decreases n,
{
    if n > 0 {
        lemma_setters_upto_prefix(b, fs, n - 1);
        assert(fs.drop_last()[n - 1] == fs[n - 1]);
    }
}

/// No type is both `Arc<dyn ..>` and `Box<dyn ..>`.
pub proof fn law_wrappers_exclusive(ty: TypeModel)
    ensures
        !(arc_bounds(ty) is Some && box_bounds(ty) is Some),
{
    reveal_strlit("Arc");
    reveal_strlit("Box");
    assert("Arc"@[0] != "Box"@[0]);
    assert("Arc"@ != "Box"@);
}

/// The result type of the setter of regular field `k` keeps every type
/// parameter but the field's own, which becomes the field's type.
pub proof fn law_setter_changes_only_its_parameter(fs: Seq<FieldModel>, k: int, j: int)
    requires
        is_regular_index(fs, k),
        0 <= j < regular_params(fs).len(),
    ensures
        setter_args(fs, k).len() == regular_params(fs).len(),
        setter_args(fs, k)[j] == if j == param_index(fs, k) {
            fs[k].ty_text@
        } else {
            regular_params(fs)[j]
        },
{
    lemma_position(fs, k);
}

/// The incomplete alias is generated exactly when some field is marked
/// `#[incomplete]` and has no default value.
pub proof fn law_incomplete_alias_present_iff(s: Seq<char>, b: Seq<char>, fs: Seq<FieldModel>)
    ensures
        (type_aliases_text(s, b, fs).len() > 0) <==> any_incomplete(fs),
{
    reveal_strlit("pub type ");
    assert("pub type "@.len() > 0);
}

/// Whether `c` may stand in a snake_case name: a lower-case ASCII letter, a
/// digit or `_`.
pub open spec fn is_snake_char(c: char) -> bool {
    is_lower_ascii(c) || ('0' <= c && c <= '9') || c == '_'
}

/// Whether `name` is snake_case: made of lower-case ASCII letters, digits and `_`.
pub open spec fn is_snake_name(name: Seq<char>) -> bool {
    forall|i: int| 0 <= i < name.len() ==> is_snake_char(#[trigger] name[i])
}

/// `c` in ASCII lower case.
pub open spec fn lower_ascii(c: char) -> char {
    if 'A' <= c && c <= 'Z' {
        ((c as int) + 32) as char
    } else {
        c
    }
}

/// Reads a PascalCase parameter back into the snake_case name it came from:
/// an upper-case letter after the start stands for `_` and its lower-case form.
pub open spec fn snake_from(t: Seq<char>, started: bool) -> Seq<char>
    decreases t.len(),
{
    if t.len() == 0 {
        Seq::empty()
    } else if t[0] == '_' {
        seq!['_'] + snake_from(t.drop_first(), started)
    } else if 'A' <= t[0] && t[0] <= 'Z' {
        (if started {
            seq!['_', lower_ascii(t[0])]
        } else {
            seq![lower_ascii(t[0])]
        }) + snake_from(t.drop_first(), true)
    } else {
        seq![t[0]] + snake_from(t.drop_first(), true)
    }
}

/// Reading back the PascalCase of a snake_case name gives the name.
proof fn lemma_snake_round_trip(s: Seq<char>, started: bool, cap: bool)
    requires
        is_snake_name(s),
        !started ==> cap,
        started && cap ==> (s.len() == 0 || !is_lower_ascii(s[0])),
    ensures
        snake_from(pascal_from(s, started, cap), started) == s,
    decreases s.len(),
{
    if s.len() > 0 {
        let c = s[0];
        assert(is_snake_char(s[0]));
        if c == '_' && started && s.len() > 1 && is_lower_ascii(s[1]) {
            let rest = s.skip(2);
            assert(is_snake_name(rest)) by {
                assert forall|i: int| 0 <= i < rest.len() implies is_snake_char(#[trigger] rest[i]) by {
                    assert(rest[i] == s[i + 2]);
                }
            }
            lemma_snake_round_trip(rest, true, false);
            let u = upper_ascii(s[1]);
            let t = seq![u] + pascal_from(rest, true, false);
            assert(t.drop_first() =~= pascal_from(rest, true, false));
            assert('A' <= u && u <= 'Z');
            assert(lower_ascii(u) == s[1]);
            assert(s =~= seq!['_', s[1]] + rest);
        } else if c == '_' {
            let rest = s.drop_first();
            assert(is_snake_name(rest)) by {
                assert forall|i: int| 0 <= i < rest.len() implies is_snake_char(#[trigger] rest[i]) by {
                    assert(rest[i] == s[i + 1]);
                }
            }
            if started && rest.len() > 0 {
                assert(rest[0] == s[1]);
            }
            lemma_snake_round_trip(rest, started, true);
            let t = seq!['_'] + pascal_from(rest, started, true);
            assert(t.drop_first() =~= pascal_from(rest, started, true));
            assert(s =~= seq!['_'] + rest);
        } else {
            let rest = s.drop_first();
            assert(is_snake_name(rest)) by {
                assert forall|i: int| 0 <= i < rest.len() implies is_snake_char(#[trigger] rest[i]) by {
                    assert(rest[i] == s[i + 1]);
                }
            }
            lemma_snake_round_trip(rest, true, false);
            let x = if cap { upper_ascii(c) } else { c };
            let t = seq![x] + pascal_from(rest, true, false);
            assert(t.drop_first() =~= pascal_from(rest, true, false));
            if is_lower_ascii(c) && cap {
                assert(!started);
                assert('A' <= x && x <= 'Z');
                assert(lower_ascii(x) == c);
            }
            assert(s =~= seq![c] + rest);
        }
    }
}

/// Distinct snake_case field names give distinct type parameters.
pub proof fn law_type_params_distinct(a: Seq<char>, b: Seq<char>)
    requires
        is_snake_name(a),
        is_snake_name(b),
        a != b,
    ensures
        type_param_name(a) != type_param_name(b),
{
    lemma_snake_round_trip(a, false, true);
    lemma_snake_round_trip(b, false, true);
}

/// When the fields have distinct snake_case names, the builder's type
/// parameters are pairwise distinct.
pub proof fn law_builder_params_distinct(fs: Seq<FieldModel>)
    requires
        forall|k: int| 0 <= k < fs.len() ==> is_snake_name(#[trigger] fs[k].name@),
        forall|k1: int, k2: int|
            0 <= k1 < fs.len() && 0 <= k2 < fs.len() && k1 != k2 ==> #[trigger] fs[k1].name@
                != #[trigger] fs[k2].name@,
    ensures
        forall|j1: int, j2: int|
            0 <= j1 < regular_params(fs).len() && 0 <= j2 < regular_params(fs).len() && j1 != j2
                ==> #[trigger] regular_params(fs)[j1] != #[trigger] regular_params(fs)[j2],
{
    assert forall|j1: int, j2: int|
        0 <= j1 < regular_params(fs).len() && 0 <= j2 < regular_params(fs).len() && j1 != j2
            implies #[trigger] regular_params(fs)[j1] != #[trigger] regular_params(fs)[j2] by {
        let k1 = lemma_position_owner(fs, j1);
        let k2 = lemma_position_owner(fs, j2);
        lemma_position(fs, k1);
        lemma_position(fs, k2);
        assert(fs[k1].name@ != fs[k2].name@);
        law_type_params_distinct(fs[k1].name@, fs[k2].name@);
    }
}

/// In the result of the setter of field `k`, every field named differently is
/// moved from the builder unchanged (`f: self.f`).
pub proof fn law_setter_moves_other_fields(fs: Seq<FieldModel>, name: Seq<char>, j: int)
    requires
        0 <= j < fs.len(),
        fs[j].name@ != name,
    ensures
        other_assigns(fs, name).contains(self_assign(fs[j])),
    decreases fs.len(),
{
    let last = fs.len() - 1;
    if j == last {
        assert(other_assigns(fs, name).last() == self_assign(fs[j]));
    } else {
        law_setter_moves_other_fields(fs.drop_last(), name, j);
        let prev = other_assigns(fs.drop_last(), name);
        let i = choose|i: int| 0 <= i < prev.len() && prev[i] == self_assign(fs[j]);
        assert(other_assigns(fs, name)[i] == prev[i]);
    }
}

/// The result of a setter moves only fields named differently from the set
/// one: every moved field is some field of another name.
pub proof fn law_setter_moves_only_other_fields(fs: Seq<FieldModel>, name: Seq<char>, i: int)
    requires
        0 <= i < other_assigns(fs, name).len(),
    ensures
        exists|j: int| 0 <= j < fs.len() && fs[j].name@ != name
            && other_assigns(fs, name)[i] == #[trigger] self_assign(fs[j]),
    decreases fs.len(),
{
    let prev = other_assigns(fs.drop_last(), name);
    if i < prev.len() {
        law_setter_moves_only_other_fields(fs.drop_last(), name, i);
        let j = choose|j: int| 0 <= j < fs.drop_last().len() && fs.drop_last()[j].name@ != name
            && prev[i] == #[trigger] self_assign(fs.drop_last()[j]);
        assert(fs[j] == fs.drop_last()[j]);
    } else {
        assert(self_assign(fs[fs.len() - 1]) == other_assigns(fs, name)[i]);
    }
}

/// `build` moves every field of the builder into the struct, in field order.
pub proof fn law_build_moves_every_field(fs: Seq<FieldModel>, j: int)
    requires
        0 <= j < fs.len(),
    ensures
        build_assigns(fs).len() == fs.len(),
        build_assigns(fs)[j] == self_assign(fs[j]),
    decreases fs.len(),
{
    lemma_build_assigns_len(fs);
    if j < fs.len() - 1 {
        law_build_moves_every_field(fs.drop_last(), j);
    }
}

proof fn lemma_build_assigns_len(fs: Seq<FieldModel>)
    ensures
        build_assigns(fs).len() == fs.len(),
    decreases fs.len(),
{
    if fs.len() > 0 {
        lemma_build_assigns_len(fs.drop_last());
    }
}

/// The field values of a builder after the calls `calls`, each a field
/// index and the value its setter stores, made on a builder holding `values`:
/// each setter stores its value in its own field and keeps the others, as
/// the setter texts say.
pub open spec fn apply_values<V>(values: Seq<V>, calls: Seq<(int, V)>) -> Seq<V>
    decreases calls.len(),
{
    if calls.len() == 0 {
        values
    } else {
        apply_values(values, calls.drop_last()).update(calls.last().0, calls.last().1)
    }
}

/// After `calls`, a field holds the value of the last call that set it, and
/// its initial value when none did.
pub proof fn lemma_apply_values<V>(values: Seq<V>, calls: Seq<(int, V)>, j: int)
    requires
        forall|i: int| 0 <= i < calls.len() ==> 0 <= (#[trigger] calls[i]).0 < values.len(),
        0 <= j < values.len(),
    ensures
        apply_values(values, calls).len() == values.len(),
        (forall|i: int| 0 <= i < calls.len() ==> (#[trigger] calls[i]).0 != j) ==> apply_values(
            values,
            calls,
        )[j] == values[j],
        forall|i: int|
            0 <= i < calls.len() && (#[trigger] calls[i]).0 == j && (forall|i2: int|
                i < i2 < calls.len() ==> (#[trigger] calls[i2]).0 != j) ==> apply_values(
                values,
                calls,
            )[j] == calls[i].1,
    decreases calls.len(),
{
    if calls.len() > 0 {
        let prev = calls.drop_last();
        assert forall|i: int| 0 <= i < prev.len() implies 0 <= (#[trigger] prev[i]).0 < values.len() by {
            assert(prev[i] == calls[i]);
        }
        lemma_apply_values(values, prev, j);
        assert(calls[calls.len() - 1] == calls.last());
        assert forall|i: int|
            0 <= i < calls.len() && (#[trigger] calls[i]).0 == j && (forall|i2: int|
                i < i2 < calls.len() ==> (#[trigger] calls[i2]).0 != j) implies apply_values(
            values,
            calls,
        )[j] == calls[i].1 by {
            if i < calls.len() - 1 {
                assert(prev[i] == calls[i]);
                assert forall|i2: int| i < i2 < prev.len() implies (#[trigger] prev[i2]).0 != j by {
                    assert(prev[i2] == calls[i2]);
                }
            }
        }
        if forall|i: int| 0 <= i < calls.len() ==> (#[trigger] calls[i]).0 != j {
            assert forall|i: int| 0 <= i < prev.len() implies (#[trigger] prev[i]).0 != j by {
                assert(prev[i] == calls[i]);
            }
        }
    }
}

/// Calling a default field's setter twice is the same as calling it once
/// with the second value: the last write wins.
pub proof fn law_last_write_wins<V>(values: Seq<V>, calls: Seq<(int, V)>, k: int, x: V, y: V)
    requires
        forall|i: int| 0 <= i < calls.len() ==> 0 <= (#[trigger] calls[i]).0 < values.len(),
        0 <= k < values.len(),
    ensures
        apply_values(values, calls.push((k, x)).push((k, y))) == apply_values(values, calls.push((k, y))),
{
    lemma_apply_values(values, calls, k);
    assert(calls.push((k, x)).push((k, y)).drop_last() =~= calls.push((k, x)));
    assert(calls.push((k, x)).drop_last() =~= calls);
    assert(calls.push((k, y)).drop_last() =~= calls);
    let a = apply_values(values, calls);
    let cx = calls.push((k, x));
    let cxy = cx.push((k, y));
    let cy = calls.push((k, y));
    assert(cx.last() == (k, x));
    assert(cxy.last() == (k, y));
    assert(cy.last() == (k, y));
    assert(apply_values(values, cx) == a.update(k, x));
    assert(apply_values(values, cxy) == a.update(k, x).update(k, y));
    assert(apply_values(values, cy) == a.update(k, y));
    assert(a.update(k, x).update(k, y) =~= a.update(k, y));
}

/// Whether one of `calls` sets field `j`.
pub open spec fn sets_field<V>(calls: Seq<(int, V)>, j: int) -> bool {
    exists|i: int| 0 <= i < calls.len() && (#[trigger] calls[i]).0 == j
}

/// Setting every field, in any order, each to the value of the same field of
/// `s`, gives field values equal to `s`, which `build` moves into the struct.
pub proof fn law_build_round_trip<V>(values: Seq<V>, calls: Seq<(int, V)>, s: Seq<V>)
    requires
        s.len() == values.len(),
        forall|i: int| 0 <= i < calls.len() ==> 0 <= (#[trigger] calls[i]).0 < values.len(),
        forall|i: int| 0 <= i < calls.len() ==> (#[trigger] calls[i]).1 == s[calls[i].0],
        forall|j: int| 0 <= j < values.len() ==> #[trigger] sets_field(calls, j),
    ensures
        apply_values(values, calls) == s,
{
    assert forall|j: int| 0 <= j < values.len() implies apply_values(values, calls)[j] == s[j] by {
        assert(sets_field(calls, j));
        lemma_apply_values(values, calls, j);
        let i0 = choose|i: int| 0 <= i < calls.len() && (#[trigger] calls[i]).0 == j;
        let i = lemma_last_call(calls, j, i0);
        assert(calls[i].1 == s[j]);
    }
    if values.len() > 0 {
        lemma_apply_values(values, calls, 0);
    } else if calls.len() > 0 {
        assert(0 <= calls[0].0 < values.len());
    }
    assert(apply_values(values, calls) =~= s);
}

/// The last call that sets field `j`, given one that does.
proof fn lemma_last_call<V>(calls: Seq<(int, V)>, j: int, i0: int) -> (i: int)
    requires
        0 <= i0 < calls.len(),
        calls[i0].0 == j,
    ensures
        0 <= i < calls.len(),
        calls[i].0 == j,
        forall|i2: int| i < i2 < calls.len() ==> (#[trigger] calls[i2]).0 != j,
    decreases calls.len() - i0,
{
    if forall|i2: int| i0 < i2 < calls.len() ==> (#[trigger] calls[i2]).0 != j {
        i0
    } else {
        let i1 = choose|i2: int| i0 < i2 < calls.len() && (#[trigger] calls[i2]).0 == j;
        lemma_last_call(calls, j, i1)
    }
}

} // verus!
