//! Every declaration of a plan can be handed to the generator.
//!
//! The names in a plan come from the catalogue of operations, from the names
//! of the primitive types, and from the name of the wrapper. All but the last
//! are fixed, so a plan for a wrapper that is called by an identifier holds
//! only names of the form that the generator takes.

use crate::Group;
use crate::gen::ImplView;
use crate::gen::names_of;
use crate::laws::lemma_flatten_member;
use crate::ops::Accumulation;
use crate::ops::Arithmetic;
use crate::ops::BinaryView;
use crate::ops::Bit;
use crate::ops::Comparison;
use crate::ops::Formatting;
use crate::ops::Op;
use crate::ops::OpData;
use crate::ops::OpNames;
use crate::ops::group_plan;
use crate::ops::int_type_names;
use crate::ops::is_int;
use crate::ops::is_primitive;
use crate::planned;
use crate::planned_for;
use crate::text::is_ident;
use crate::text::is_type_text;
use vstd::prelude::*;

verus! {

/// An identifier is the text of a type.
pub proof fn lemma_ident_is_type_text(s: Seq<char>)
    requires
        is_ident(s),
    ensures
        is_type_text(s),
{
}

/// Whether the names `names` are of the form that the generator takes.
pub open spec fn emittable_names(names: OpNames) -> bool {
    is_type_text(names.trait_name) && is_ident(names.fn_name)
}

/// The names of every arithmetic operator are of the form that the generator
/// takes.
proof fn lemma_arithmetic_names(op: Arithmetic)
    ensures
        emittable_names(names_of(&op)),
        op.spec_assign() matches Some(assign) ==> emittable_names(assign),
{
    reveal_strlit("core::ops::Add");
    reveal_strlit("core::ops::Sub");
    reveal_strlit("core::ops::Mul");
    reveal_strlit("core::ops::Div");
    reveal_strlit("core::ops::Rem");
    reveal_strlit("core::ops::Neg");
    reveal_strlit("core::ops::AddAssign");
    reveal_strlit("core::ops::SubAssign");
    reveal_strlit("core::ops::MulAssign");
    reveal_strlit("core::ops::DivAssign");
    reveal_strlit("core::ops::RemAssign");
    reveal_strlit("add");
    reveal_strlit("sub");
    reveal_strlit("mul");
    reveal_strlit("div");
    reveal_strlit("rem");
    reveal_strlit("neg");
    reveal_strlit("add_assign");
    reveal_strlit("sub_assign");
    reveal_strlit("mul_assign");
    reveal_strlit("div_assign");
    reveal_strlit("rem_assign");
}

/// The names of every bitwise operator are of the form that the generator
/// takes.
proof fn lemma_bitwise_names(op: Bit)
    ensures
        emittable_names(names_of(&op)),
        op.spec_assign() matches Some(assign) ==> emittable_names(assign),
{
    reveal_strlit("core::ops::BitAnd");
    reveal_strlit("core::ops::BitOr");
    reveal_strlit("core::ops::BitXor");
    reveal_strlit("core::ops::Shl");
    reveal_strlit("core::ops::Shr");
    reveal_strlit("core::ops::Not");
    reveal_strlit("core::ops::BitAndAssign");
    reveal_strlit("core::ops::BitOrAssign");
    reveal_strlit("core::ops::BitXorAssign");
    reveal_strlit("core::ops::ShlAssign");
    reveal_strlit("core::ops::ShrAssign");
    reveal_strlit("bitand");
    reveal_strlit("bitor");
    reveal_strlit("bitxor");
    reveal_strlit("shl");
    reveal_strlit("shr");
    reveal_strlit("not");
    reveal_strlit("bitand_assign");
    reveal_strlit("bitor_assign");
    reveal_strlit("bitxor_assign");
    reveal_strlit("shl_assign");
    reveal_strlit("shr_assign");
}

/// The names of every formatting trait are of the form that the generator
/// takes.
proof fn lemma_formatting_names(op: Formatting)
    ensures
        emittable_names(names_of(&op)),
{
    reveal_strlit("core::fmt::Debug");
    reveal_strlit("core::fmt::Display");
    reveal_strlit("core::fmt::Binary");
    reveal_strlit("core::fmt::Octal");
    reveal_strlit("core::fmt::LowerExp");
    reveal_strlit("core::fmt::LowerHex");
    reveal_strlit("core::fmt::UpperExp");
    reveal_strlit("core::fmt::UpperHex");
    reveal_strlit("fmt");
}

/// The names of every comparison are of the form that the generator takes.
proof fn lemma_comparison_names(op: Comparison)
    ensures
        emittable_names(names_of(&op)),
{
    reveal_strlit("PartialEq");
    reveal_strlit("PartialOrd");
    reveal_strlit("eq");
    reveal_strlit("partial_cmp");
}

/// The names of every fold are of the form that the generator takes.
proof fn lemma_accumulation_names(op: Accumulation)
    ensures
        emittable_names(names_of(&op)),
{
    reveal_strlit("core::iter::Sum");
    reveal_strlit("core::iter::Product");
    reveal_strlit("sum");
    reveal_strlit("product");
}

/// The name of every primitive type is an identifier, and so are `Self` and
/// the name of the type parameter of a fold.
proof fn lemma_fixed_names(inner: Seq<char>)
    ensures
        is_primitive(inner) ==> is_ident(inner),
        is_ident("Self"@),
        is_ident("I"@),
{
    reveal_strlit("u8");
    reveal_strlit("u16");
    reveal_strlit("u32");
    reveal_strlit("u64");
    reveal_strlit("u128");
    reveal_strlit("usize");
    reveal_strlit("i8");
    reveal_strlit("i16");
    reveal_strlit("i32");
    reveal_strlit("i64");
    reveal_strlit("i128");
    reveal_strlit("isize");
    reveal_strlit("f32");
    reveal_strlit("f64");
    reveal_strlit("bool");
    reveal_strlit("Self");
    reveal_strlit("I");
    if is_int(inner) {
        let i = choose|i: int| 0 <= i < int_type_names().len() && int_type_names()[i] == inner;
        assert(int_type_names()[i] == inner);
    }
}

/// Whether the names in the ordering `b` are texts of types.
pub open spec fn emittable_request(b: BinaryView) -> bool {
    is_type_text(b.target) && is_type_text(b.rhs_type)
}

/// The declarations of orderings whose names are texts of types, under names
/// of the form that the generator takes, are of that form.
proof fn lemma_binary_emittable(op: OpNames, assign: OpNames, ops: Seq<BinaryView>, k: int)
    requires
        emittable_names(op),
        emittable_names(assign),
        forall|i: int| 0 <= i < ops.len() ==> emittable_request(#[trigger] ops[i]),
        0 <= k < ImplView::binary(op, assign, ops).len(),
    ensures
        ImplView::binary(op, assign, ops)[k].emittable(),
{
    if k < ops.len() {
        assert(emittable_request(ops[k]));
    } else {
        assert(emittable_request(ops[k - ops.len()]));
    }
}

/// The names in the three orderings of a wrapper and its inner type are texts
/// of types.
proof fn lemma_permutations_emittable(target: Seq<char>, inner: Seq<char>)
    requires
        is_ident(target),
        is_ident(inner),
    ensures
        forall|i: int|
            0 <= i < BinaryView::permutations(target, inner).len() ==> emittable_request(
                #[trigger] BinaryView::permutations(target, inner)[i],
            ),
{
    lemma_fixed_names(inner);
    lemma_ident_is_type_text(target);
    lemma_ident_is_type_text(inner);
    lemma_ident_is_type_text("Self"@);
}

/// The names in the orderings of a shift of an integer wrapper are texts of
/// types.
proof fn lemma_matrix_emittable(target: Seq<char>, inner: Seq<char>, widths: Seq<Seq<char>>)
    requires
        is_ident(target),
        forall|k: int| 0 <= k < widths.len() ==> is_ident(#[trigger] widths[k]),
    ensures
        forall|g: int, i: int|
            0 <= g < Bit::shift_matrix(target, inner, widths).len() && 0 <= i < Bit::shift_matrix(
                target,
                inner,
                widths,
            )[g].len() ==> emittable_request(
                #[trigger] Bit::shift_matrix(target, inner, widths)[g][i],
            ),
    decreases widths.len(),
{
    if widths.len() > 0 {
        let rest = widths.drop_last();
        assert forall|k: int| 0 <= k < rest.len() implies is_ident(#[trigger] rest[k]) by {
            assert(rest[k] == widths[k]);
        }
        lemma_matrix_emittable(target, inner, rest);
        assert(is_ident(widths[widths.len() - 1]));
        lemma_ident_is_type_text(target);
        lemma_ident_is_type_text(widths.last());
        let before = Bit::shift_matrix(target, inner, rest);
        let matrix = Bit::shift_matrix(target, inner, widths);
        assert forall|g: int, i: int|
            0 <= g < matrix.len() && 0 <= i < matrix[g].len() implies emittable_request(
            #[trigger] matrix[g][i],
        ) by {
            if g < before.len() {
                assert(emittable_request(before[g][i]));
            } else {
                let pair = BinaryView::inner_permutations(target, inner, widths.last());
                assert(matrix[g] == pair);
                assert(emittable_request(pair[0]));
                assert(emittable_request(pair[1]));
            }
        }
    }
}

/// Every declaration of an arithmetic operator is of the form that the
/// generator takes.
proof fn lemma_arithmetic_emittable(op: Arithmetic, target: Seq<char>, inner: Seq<char>, k: int)
    requires
        is_ident(target),
        is_ident(inner),
        0 <= k < op.spec_generate(target, inner).len(),
    ensures
        op.spec_generate(target, inner)[k].emittable(),
{
    lemma_arithmetic_names(op);
    lemma_ident_is_type_text(target);
    if op.spec_assign() is Some {
        lemma_permutations_emittable(target, inner);
        lemma_binary_emittable(
            names_of(&op),
            op.spec_assign()->0,
            BinaryView::permutations(target, inner),
            k,
        );
    }
}

/// Every declaration of a bitwise operator is of the form that the generator
/// takes.
proof fn lemma_bitwise_emittable(op: Bit, target: Seq<char>, inner: Seq<char>, k: int)
    requires
        is_ident(target),
        is_ident(inner),
        0 <= k < op.spec_generate(target, inner).len(),
    ensures
        op.spec_generate(target, inner)[k].emittable(),
{
    let names = names_of(&op);
    lemma_bitwise_names(op);
    lemma_ident_is_type_text(target);
    lemma_permutations_emittable(target, inner);
    if op.is_shift() {
        let assign = op.spec_assign()->0;
        let widths = int_type_names();
        let groups = Bit::shift_requests(target, inner);
        let matrix = Bit::shift_matrix(target, inner, widths);
        let parts = groups.map_values(|ops: Seq<BinaryView>| ImplView::binary(names, assign, ops));
        assert forall|w: int| 0 <= w < widths.len() implies is_ident(#[trigger] widths[w]) by {
            assert(is_int(widths[w]));
            lemma_fixed_names(widths[w]);
        }
        lemma_matrix_emittable(target, inner, widths);
        lemma_fixed_names(inner);
        lemma_ident_is_type_text("Self"@);
        let at = lemma_flatten_member(parts, k);
        assert forall|i: int| 0 <= i < groups[at.0].len() implies emittable_request(
            #[trigger] groups[at.0][i],
        ) by {
            if at.0 > 0 {
                assert(groups[at.0] == matrix[at.0 - 1]);
                assert(emittable_request(matrix[at.0 - 1][i]));
            }
        }
        lemma_binary_emittable(names, assign, groups[at.0], at.1);
    } else if op.spec_assign() is Some {
        lemma_binary_emittable(
            names,
            op.spec_assign()->0,
            BinaryView::permutations(target, inner),
            k,
        );
    }
}

/// Every declaration that is planned for one group is of the form that the
/// generator takes.
proof fn lemma_group_emittable(
    group: Group,
    groups: Set<Group>,
    target: Seq<char>,
    inner: Seq<char>,
    k: int,
)
    requires
        is_ident(target),
        is_ident(inner),
        0 <= k < planned_for(group, groups, target, inner).len(),
    ensures
        planned_for(group, groups, target, inner)[k].emittable(),
{
    lemma_fixed_names(inner);
    lemma_ident_is_type_text(target);
    lemma_ident_is_type_text(inner);
    lemma_ident_is_type_text("Self"@);
    match group {
        Group::Arithmetic => {
            let ops = Arithmetic::spec_supported(inner);
            let parts = ops.map_values(|op: Arithmetic| op.spec_generate(target, inner));
            let at = lemma_flatten_member(parts, k);
            lemma_arithmetic_emittable(ops[at.0], target, inner, at.1);
        },
        Group::Bitwise => {
            let ops = Bit::spec_supported(inner);
            let parts = ops.map_values(|op: Bit| op.spec_generate(target, inner));
            let at = lemma_flatten_member(parts, k);
            lemma_bitwise_emittable(ops[at.0], target, inner, at.1);
        },
        Group::Formatting => {
            let ops = Formatting::spec_supported(inner);
            let parts = ops.map_values(|op: Formatting| op.spec_generate(target, inner));
            let at = lemma_flatten_member(parts, k);
            lemma_formatting_names(ops[at.0]);
        },
        Group::Comparison => {
            let ops = Comparison::spec_supported(inner);
            let parts = ops.map_values(|op: Comparison| op.spec_generate(target, inner));
            let at = lemma_flatten_member(parts, k);
            lemma_comparison_names(ops[at.0]);
        },
        Group::Accumulation => {
            let ops = Accumulation::spec_supported(inner);
            let parts = ops.map_values(|op: Accumulation| op.spec_generate(target, inner));
            let at = lemma_flatten_member(parts, k);
            lemma_accumulation_names(ops[at.0]);
        },
    }
}

/// A plan for a wrapper that is called by an identifier holds only
/// declarations of the form that the generator takes. So the generator is
/// never refused such a plan for the form of a name.
pub proof fn lemma_plans_are_emittable(
    target: Seq<char>,
    inner: Seq<char>,
    groups: Set<Group>,
    k: int,
)
    requires
        is_ident(target),
        is_primitive(inner),
        0 <= k < planned(target, inner, groups).len(),
    ensures
        planned(target, inner, groups)[k].emittable(),
{
    lemma_fixed_names(inner);
    let first = planned_for(Group::Arithmetic, groups, target, inner);
    let second = planned_for(Group::Bitwise, groups, target, inner);
    let third = planned_for(Group::Formatting, groups, target, inner);
    let fourth = planned_for(Group::Comparison, groups, target, inner);
    if k < first.len() {
        lemma_group_emittable(Group::Arithmetic, groups, target, inner, k);
    } else if k < first.len() + second.len() {
        lemma_group_emittable(Group::Bitwise, groups, target, inner, k - first.len());
    } else if k < first.len() + second.len() + third.len() {
        lemma_group_emittable(
            Group::Formatting,
            groups,
            target,
            inner,
            k - first.len() - second.len(),
        );
    } else if k < first.len() + second.len() + third.len() + fourth.len() {
        lemma_group_emittable(
            Group::Comparison,
            groups,
            target,
            inner,
            k - first.len() - second.len() - third.len(),
        );
    } else {
        lemma_group_emittable(
            Group::Accumulation,
            groups,
            target,
            inner,
            k - first.len() - second.len() - third.len() - fourth.len(),
        );
    }
}

} // verus!
