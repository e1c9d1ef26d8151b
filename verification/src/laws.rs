//! What holds of every plan.
//!
//! Each proof function here states one rule of the planner over the
//! specifications that the contracts of the functions use, and Verus proves it
//! from them.

use crate::Group;
use crate::gen::ImplView;
use crate::gen::Receiver;
use crate::gen::names_of;
use crate::ops::Accumulation;
use crate::ops::Arithmetic;
use crate::ops::BinaryView;
use crate::ops::Bit;
use crate::ops::Comparison;
use crate::ops::Formatting;
use crate::ops::Op;
use crate::ops::OpData;
use crate::ops::OpNames;
use crate::ops::group_plan;
use crate::ops::int_type_names;
use crate::ops::is_bool;
use crate::ops::is_float;
use crate::ops::is_int;
use crate::ops::is_signed_int;
use crate::ops::is_unsigned_int;
use crate::ops::lemma_int_names_differ;
use crate::ops::lemma_primitive_name;
use crate::planned;
use crate::planned_for;
use vstd::prelude::*;

verus! {

/// Negation follows the sign: no unsigned integer type has it, and every
/// signed integer type and every float type has it.
pub proof fn lemma_negation_follows_sign(inner: Seq<char>)
    ensures
        is_unsigned_int(inner) ==> !Arithmetic::spec_supported(inner).contains(Arithmetic::Neg),
        is_signed_int(inner) || is_float(inner) ==> Arithmetic::spec_supported(inner).contains(
            Arithmetic::Neg,
        ),
{
    lemma_primitive_name(inner);
    if is_signed_int(inner) || is_float(inner) {
        assert(Arithmetic::spec_supported(inner)[5] == Arithmetic::Neg);
    }
}

/// A float type has no bitwise operator. The boolean type has the three
/// logical operators and negation, and neither shift.
pub proof fn lemma_bitwise_eligibility(inner: Seq<char>)
    ensures
        is_float(inner) ==> Bit::spec_supported(inner) == Seq::<Bit>::empty(),
        is_bool(inner) ==> ({
            let ops = Bit::spec_supported(inner);
            &&& ops.contains(Bit::BitAnd)
            &&& ops.contains(Bit::BitOr)
            &&& ops.contains(Bit::BitXor)
            &&& ops.contains(Bit::Not)
            &&& !ops.contains(Bit::Shl)
            &&& !ops.contains(Bit::Shr)
        }),
{
    lemma_primitive_name(inner);
    if is_float(inner) {
        assert(Bit::spec_supported(inner) =~= Seq::<Bit>::empty());
    }
    if is_bool(inner) {
        let ops = Bit::spec_supported(inner);
        assert(ops[0] == Bit::BitAnd);
        assert(ops[1] == Bit::BitOr);
        assert(ops[2] == Bit::BitXor);
        assert(ops[3] == Bit::Not);
    }
}

/// Every binary operator that is no shift is planned in exactly three
/// orderings: wrapper with wrapper, wrapper with primitive, and primitive with
/// wrapper, one of each.
pub proof fn lemma_three_orderings(target: Seq<char>, inner: Seq<char>)
    ensures
        forall|op: Arithmetic|
            op.spec_assign() is Some ==> #[trigger] op.requests(target, inner) == seq![
                BinaryView::self_self(target),
                BinaryView::self_inner(target, inner),
                BinaryView::inner_self(target, inner),
            ],
        forall|op: Bit|
            op.spec_assign() is Some && !op.is_shift() ==> #[trigger] op.requests(target, inner)
                == seq![
                BinaryView::self_self(target),
                BinaryView::self_inner(target, inner),
                BinaryView::inner_self(target, inner),
            ],
{
}

/// The orderings that are planned for the arithmetic operators that apply to
/// `inner`.
pub open spec fn arithmetic_requests(target: Seq<char>, inner: Seq<char>) -> Seq<BinaryView> {
    Arithmetic::spec_supported(inner).map_values(|op: Arithmetic| op.requests(target, inner))
        .flatten()
}

/// The orderings that are planned for the bitwise operators that apply to
/// `inner` and are no shifts.
pub open spec fn bitwise_requests(target: Seq<char>, inner: Seq<char>) -> Seq<BinaryView> {
    Bit::spec_supported(inner).map_values(
        |op: Bit|
            if op.is_shift() {
                seq![]
            } else {
                op.requests(target, inner)
            },
    ).flatten()
}

/// Where each of `ops` gives three parts if it meets `counted` and none if it
/// does not, there are three parts for each of `ops` that meets it.
proof fn lemma_three_each<O, A>(
    ops: Seq<O>,
    parts: spec_fn(O) -> Seq<A>,
    counted: spec_fn(O) -> bool,
)
    requires
        forall|op: O|
            (#[trigger] parts(op)).len() == if counted(op) {
                3int
            } else {
                0int
            },
    ensures
        ops.map_values(parts).flatten().len() == 3 * ops.filter(counted).len(),
    decreases ops.len(),
{
    reveal(Seq::filter);
    if ops.len() == 0 {
        assert(ops.map_values(parts) =~= Seq::<Seq<A>>::empty());
    } else {
        let rest = ops.drop_last();
        lemma_three_each(rest, parts, counted);
        assert(ops.map_values(parts) =~= rest.map_values(parts).push(parts(ops.last())));
        rest.map_values(parts).lemma_flatten_push(parts(ops.last()));
    }
}

/// The number of orderings that are planned for the binary operators that are
/// no shifts is three times the number of those operators.
pub proof fn lemma_request_count(target: Seq<char>, inner: Seq<char>)
    ensures
        arithmetic_requests(target, inner).len() == 3 * Arithmetic::spec_supported(inner).filter(
            |op: Arithmetic| op.spec_assign() is Some,
        ).len(),
        bitwise_requests(target, inner).len() == 3 * Bit::spec_supported(inner).filter(
            |op: Bit| op.spec_assign() is Some && !op.is_shift(),
        ).len(),
{
    lemma_three_each(
        Arithmetic::spec_supported(inner),
        |op: Arithmetic| op.requests(target, inner),
        |op: Arithmetic| op.spec_assign() is Some,
    );
    lemma_three_each(
        Bit::spec_supported(inner),
        |op: Bit|
            if op.is_shift() {
                seq![]
            } else {
                op.requests(target, inner)
            },
        |op: Bit| op.spec_assign() is Some && !op.is_shift(),
    );
}

/// Of the types `widths`, each named once, a shift is planned with every one
/// but the inner type: the matrix has one pair of orderings for each of them,
/// and nothing else.
proof fn lemma_shift_matrix(target: Seq<char>, inner: Seq<char>, widths: Seq<Seq<char>>)
    requires
        widths.no_duplicates(),
    ensures
        Bit::shift_matrix(target, inner, widths).len() == if widths.contains(inner) {
            widths.len() - 1
        } else {
            widths.len() as int
        },
        forall|k: int|
            0 <= k < widths.len() && widths[k] != inner ==> Bit::shift_matrix(
                target,
                inner,
                widths,
            ).contains(#[trigger] BinaryView::inner_permutations(target, inner, widths[k])),
        forall|g: int|
            0 <= g < Bit::shift_matrix(target, inner, widths).len() ==> (#[trigger] Bit::shift_matrix(
                target,
                inner,
                widths,
            )[g]).len() == 2,
    decreases widths.len(),
{
    if widths.len() > 0 {
        let rest = widths.drop_last();
        let last = widths.last();
        let before = Bit::shift_matrix(target, inner, rest);
        let matrix = Bit::shift_matrix(target, inner, widths);
        lemma_shift_matrix(target, inner, rest);
        if rest.contains(inner) {
            let k = choose|k: int| 0 <= k < rest.len() && rest[k] == inner;
            assert(widths[k] == inner);
            assert(last != inner);
        }
        if widths.contains(inner) && last != inner {
            let k = choose|k: int| 0 <= k < widths.len() && widths[k] == inner;
            assert(rest[k] == inner);
        }
        if last == inner {
            assert(widths[widths.len() - 1] == inner);
        }
        assert forall|k: int| 0 <= k < widths.len() && widths[k] != inner implies matrix.contains(
            #[trigger] BinaryView::inner_permutations(target, inner, widths[k]),
        ) by {
            let pair = BinaryView::inner_permutations(target, inner, widths[k]);
            if k < rest.len() {
                assert(rest[k] == widths[k]);
                let g = choose|g: int| 0 <= g < before.len() && before[g] == pair;
                assert(matrix[g] == pair);
            } else {
                assert(matrix[matrix.len() - 1] == pair);
            }
        }
    }
}

/// Where every part holds `n` items, all parts together hold `n` items for
/// each part.
proof fn lemma_flatten_uniform<A>(parts: Seq<Seq<A>>, n: nat)
    requires
        forall|g: int| 0 <= g < parts.len() ==> (#[trigger] parts[g]).len() == n,
    ensures
        parts.flatten().len() == n * parts.len(),
    decreases parts.len(),
{
    if parts.len() > 0 {
        let rest = parts.drop_last();
        lemma_flatten_uniform(rest, n);
        assert(parts =~= rest.push(parts.last()));
        rest.lemma_flatten_push(parts.last());
        assert(n * parts.len() == n * rest.len() + n) by (nonlinear_arith)
            requires
                parts.len() == rest.len() + 1,
        ;
    }
}

/// A shift of an integer wrapper is planned with every integer type as the
/// type of the count. The wrapper's own width is covered by the shift of a
/// wrapper by a wrapper, which comes first. For every other integer type the
/// wrapper is shifted by it and it is shifted by the wrapper. Nothing else is
/// planned: there are eleven such pairs after the first ordering, and so
/// twenty-three orderings in all.
pub proof fn lemma_shift_orderings(op: Bit, target: Seq<char>, inner: Seq<char>)
    requires
        op.is_shift(),
        is_int(inner),
    ensures
        Bit::shift_requests(target, inner).len() == 12,
        Bit::shift_requests(target, inner)[0] == seq![BinaryView::self_self(target)],
        forall|k: int|
            0 <= k < int_type_names().len() && int_type_names()[k] != inner
                ==> Bit::shift_requests(target, inner).contains(
                #[trigger] BinaryView::inner_permutations(target, inner, int_type_names()[k]),
            ),
        op.requests(target, inner).len() == 23,
        op.requests(target, inner)[0] == BinaryView::self_self(target),
{
    let widths = int_type_names();
    let first = seq![seq![BinaryView::self_self(target)]];
    let matrix = Bit::shift_matrix(target, inner, widths);
    let groups = Bit::shift_requests(target, inner);
    lemma_int_names_differ();
    lemma_shift_matrix(target, inner, widths);
    assert(widths.contains(inner));
    assert(groups =~= first + matrix);
    assert forall|k: int| 0 <= k < widths.len() && widths[k] != inner implies groups.contains(
        #[trigger] BinaryView::inner_permutations(target, inner, widths[k]),
    ) by {
        let pair = BinaryView::inner_permutations(target, inner, widths[k]);
        let g = choose|g: int| 0 <= g < matrix.len() && matrix[g] == pair;
        assert(groups[g + 1] == pair);
    }
    vstd::seq_lib::lemma_flatten_concat(first, matrix);
    first.lemma_flatten_one_element();
    lemma_flatten_uniform(matrix, 2);
    assert(groups.flatten() =~= first.flatten() + matrix.flatten());
}

/// What the by-value form of the ordering `b` yields: the receiver itself, or
/// what `b` makes of it.
pub open spec fn yielded(b: BinaryView) -> Seq<char> {
    match b.base_ret {
        Some(ret) => ret,
        None => "self"@,
    }
}

/// A binary operator by value only delegates. For each ordering two
/// declarations are made: the by-value form and the compound assignment. The
/// body of the by-value form is the call of the compound assignment on the
/// borrowed receiver with the operand, followed by what it yields, and nothing
/// else. Where the receiver is the wrapper, that call is the very body of the
/// compound assignment.
pub proof fn lemma_by_value_delegates(op: OpNames, assign: OpNames, ops: Seq<BinaryView>, i: int)
    requires
        0 <= i < ops.len(),
    ensures
        ({
            let decls = ImplView::binary(op, assign, ops);
            let by_value = decls[i];
            let in_place = decls[ops.len() + i];
            &&& decls.len() == 2 * ops.len()
            &&& by_value == ImplView::binary_base(op, assign, ops[i])
            &&& in_place == ImplView::binary_assign(assign, ops[i])
            &&& by_value.trait_name == op.trait_name
            &&& by_value.func.receiver == Receiver::ByValueMut
            &&& in_place.trait_name == assign.trait_name
            &&& in_place.func.receiver == Receiver::ByRefMut
            &&& by_value.func.body == ImplView::delegation(assign, "&mut "@ + ops[i].lhs) + " "@
                + yielded(ops[i])
            &&& ops[i].lhs_mut ==> by_value.func.body == in_place.func.body + " "@ + yielded(
                ops[i],
            )
        }),
{
}

/// Whether `decl` is one of the two declarations that are made of the
/// ordering `b` of a binary operator.
pub open spec fn declared_of(decl: ImplView, op: OpNames, assign: OpNames, b: BinaryView) -> bool {
    decl == ImplView::binary_base(op, assign, b) || decl == ImplView::binary_assign(assign, b)
}

/// Every item of the parts taken together is an item of one part.
pub proof fn lemma_flatten_member<A>(parts: Seq<Seq<A>>, k: int) -> (at: (int, int))
    requires
        0 <= k < parts.flatten().len(),
    ensures
        0 <= at.0 < parts.len(),
        0 <= at.1 < parts[at.0].len(),
        parts.flatten()[k] == parts[at.0][at.1],
    decreases parts.len(),
{
    if k < parts.first().len() {
        (0, k)
    } else {
        let rest = parts.drop_first();
        let at = lemma_flatten_member(rest, k - parts.first().len());
        assert(rest[at.0] == parts[at.0 + 1]);
        (at.0 + 1, at.1)
    }
}

/// Every item of a part is an item of the parts taken together.
pub proof fn lemma_flatten_contains<A>(parts: Seq<Seq<A>>, g: int, j: int)
    requires
        0 <= g < parts.len(),
        0 <= j < parts[g].len(),
    ensures
        parts.flatten().contains(parts[g][j]),
    decreases parts.len(),
{
    if g == 0 {
        assert(parts.flatten()[j] == parts[g][j]);
    } else {
        let rest = parts.drop_first();
        assert(rest[g - 1] == parts[g]);
        lemma_flatten_contains(rest, g - 1, j);
        let k = choose|k: int| 0 <= k < rest.flatten().len() && rest.flatten()[k] == parts[g][j];
        assert(parts.flatten()[parts.first().len() + k] == parts[g][j]);
    }
}

/// Every declaration of the orderings `ops` is made of one of them.
pub proof fn lemma_binary_member(op: OpNames, assign: OpNames, ops: Seq<BinaryView>, k: int)
    requires
        0 <= k < ImplView::binary(op, assign, ops).len(),
    ensures
        exists|b: BinaryView| #[trigger]
            ops.contains(b) && declared_of(ImplView::binary(op, assign, ops)[k], op, assign, b),
{
    if k < ops.len() {
        assert(ops.contains(ops[k]));
        assert(declared_of(ImplView::binary(op, assign, ops)[k], op, assign, ops[k]));
    } else {
        assert(ops.contains(ops[k - ops.len()]));
        assert(declared_of(ImplView::binary(op, assign, ops)[k], op, assign, ops[k - ops.len()]));
    }
}

/// Every declaration that is planned for a binary arithmetic operator is the
/// by-value form or the compound assignment of one of its orderings.
pub proof fn lemma_arithmetic_declarations(
    op: Arithmetic,
    target: Seq<char>,
    inner: Seq<char>,
    k: int,
)
    requires
        op.spec_assign() is Some,
        0 <= k < op.spec_generate(target, inner).len(),
    ensures
        exists|b: BinaryView| #[trigger]
            op.requests(target, inner).contains(b) && declared_of(
                op.spec_generate(target, inner)[k],
                names_of(&op),
                op.spec_assign()->0,
                b,
            ),
{
    lemma_binary_member(names_of(&op), op.spec_assign()->0, op.requests(target, inner), k);
}

/// Every declaration that is planned for a binary bitwise operator, a shift
/// too, is the by-value form or the compound assignment of one of its
/// orderings.
pub proof fn lemma_bitwise_declarations(op: Bit, target: Seq<char>, inner: Seq<char>, k: int)
    requires
        op.spec_assign() is Some,
        0 <= k < op.spec_generate(target, inner).len(),
    ensures
        exists|b: BinaryView| #[trigger]
            op.requests(target, inner).contains(b) && declared_of(
                op.spec_generate(target, inner)[k],
                names_of(&op),
                op.spec_assign()->0,
                b,
            ),
{
    let names = names_of(&op);
    let assign = op.spec_assign()->0;
    if op.is_shift() {
        let groups = Bit::shift_requests(target, inner);
        let parts = groups.map_values(|ops: Seq<BinaryView>| ImplView::binary(names, assign, ops));
        let at = lemma_flatten_member(parts, k);
        lemma_binary_member(names, assign, groups[at.0], at.1);
        let b = choose|b: BinaryView| #[trigger]
            groups[at.0].contains(b) && declared_of(parts[at.0][at.1], names, assign, b);
        let j = choose|j: int| 0 <= j < groups[at.0].len() && groups[at.0][j] == b;
        lemma_flatten_contains(groups, at.0, j);
        assert(op.requests(target, inner).contains(b));
    } else {
        lemma_binary_member(names, assign, op.requests(target, inner), k);
    }
}

/// Whether the operation `op` is declared under the trait `name`: by itself,
/// or by its compound assignment.
pub open spec fn declared_under<O: Op>(op: O, name: Seq<char>) -> bool {
    op.spec_trait_name() == name || (op.spec_assign() is Some && op.spec_assign()->0.trait_name
        == name)
}

/// Whether an operation of the group `O` is declared under the trait `name`.
pub open spec fn declares<O: Op>(name: Seq<char>) -> bool {
    exists|op: O| declared_under(op, name)
}

/// The group whose operations are declared under the trait `name`.
pub open spec fn declaring_group(name: Seq<char>) -> Option<Group> {
    if declares::<Arithmetic>(name) {
        Some(Group::Arithmetic)
    } else if declares::<Bit>(name) {
        Some(Group::Bitwise)
    } else if declares::<Formatting>(name) {
        Some(Group::Formatting)
    } else if declares::<Comparison>(name) {
        Some(Group::Comparison)
    } else if declares::<Accumulation>(name) {
        Some(Group::Accumulation)
    } else {
        None
    }
}

/// The characters that tell the traits of one group from those of another:
/// the first, the first after `core::`, and the first two of the trait's own
/// name after `core::ops::`.
spec fn marks(name: Seq<char>) -> (char, char, char, char) {
    (name[0], name[6], name[11], name[12])
}

proof fn lemma_arithmetic_marks(op: Arithmetic, name: Seq<char>)
    requires
        declared_under(op, name),
    ensures
        marks(name) == match op {
            Arithmetic::Add => ('c', 'o', 'A', 'd'),
            Arithmetic::Sub => ('c', 'o', 'S', 'u'),
            Arithmetic::Mul => ('c', 'o', 'M', 'u'),
            Arithmetic::Div => ('c', 'o', 'D', 'i'),
            Arithmetic::Rem => ('c', 'o', 'R', 'e'),
            Arithmetic::Neg => ('c', 'o', 'N', 'e'),
        },
{
    reveal_strlit("core::ops::Add");
    reveal_strlit("core::ops::Sub");
    reveal_strlit("core::ops::Mul");
    reveal_strlit("core::ops::Div");
    reveal_strlit("core::ops::Rem");
    reveal_strlit("core::ops::Neg");
    reveal_strlit("core::ops::AddAssign");
    reveal_strlit("core::ops::SubAssign");
    reveal_strlit("core::ops::MulAssign");
    reveal_strlit("core::ops::DivAssign");
    reveal_strlit("core::ops::RemAssign");
}

proof fn lemma_bitwise_marks(op: Bit, name: Seq<char>)
    requires
        declared_under(op, name),
    ensures
        marks(name) == match op {
            Bit::BitAnd => ('c', 'o', 'B', 'i'),
            Bit::BitOr => ('c', 'o', 'B', 'i'),
            Bit::BitXor => ('c', 'o', 'B', 'i'),
            Bit::Shl => ('c', 'o', 'S', 'h'),
            Bit::Shr => ('c', 'o', 'S', 'h'),
            Bit::Not => ('c', 'o', 'N', 'o'),
        },
{
    reveal_strlit("core::ops::BitAnd");
    reveal_strlit("core::ops::BitOr");
    reveal_strlit("core::ops::BitXor");
    reveal_strlit("core::ops::Shl");
    reveal_strlit("core::ops::Shr");
    reveal_strlit("core::ops::Not");
    reveal_strlit("core::ops::BitAndAssign");
    reveal_strlit("core::ops::BitOrAssign");
    reveal_strlit("core::ops::BitXorAssign");
    reveal_strlit("core::ops::ShlAssign");
    reveal_strlit("core::ops::ShrAssign");
}

proof fn lemma_formatting_marks(op: Formatting, name: Seq<char>)
    requires
        declared_under(op, name),
    ensures
        marks(name).0 == 'c',
        marks(name).1 == 'f',
{
    reveal_strlit("core::fmt::Debug");
    reveal_strlit("core::fmt::Display");
    reveal_strlit("core::fmt::Binary");
    reveal_strlit("core::fmt::Octal");
    reveal_strlit("core::fmt::LowerExp");
    reveal_strlit("core::fmt::LowerHex");
    reveal_strlit("core::fmt::UpperExp");
    reveal_strlit("core::fmt::UpperHex");
}

proof fn lemma_comparison_marks(op: Comparison, name: Seq<char>)
    requires
        declared_under(op, name),
    ensures
        marks(name).0 == 'P',
{
    reveal_strlit("PartialEq");
    reveal_strlit("PartialOrd");
}

proof fn lemma_accumulation_marks(op: Accumulation, name: Seq<char>)
    requires
        declared_under(op, name),
    ensures
        marks(name).0 == 'c',
        marks(name).1 == 'i',
{
    reveal_strlit("core::iter::Sum");
    reveal_strlit("core::iter::Product");
}

/// No trait belongs to two groups.
pub proof fn lemma_groups_apart(name: Seq<char>)
    ensures
        declares::<Arithmetic>(name) ==> declaring_group(name) == Some(Group::Arithmetic),
        declares::<Bit>(name) ==> declaring_group(name) == Some(Group::Bitwise),
        declares::<Formatting>(name) ==> declaring_group(name) == Some(Group::Formatting),
        declares::<Comparison>(name) ==> declaring_group(name) == Some(Group::Comparison),
        declares::<Accumulation>(name) ==> declaring_group(name) == Some(Group::Accumulation),
{
    if declares::<Arithmetic>(name) {
        let op = choose|op: Arithmetic| declared_under(op, name);
        lemma_arithmetic_marks(op, name);
    }
    if declares::<Bit>(name) {
        let op = choose|op: Bit| declared_under(op, name);
        lemma_bitwise_marks(op, name);
    }
    if declares::<Formatting>(name) {
        let op = choose|op: Formatting| declared_under(op, name);
        lemma_formatting_marks(op, name);
    }
    if declares::<Comparison>(name) {
        let op = choose|op: Comparison| declared_under(op, name);
        lemma_comparison_marks(op, name);
    }
    if declares::<Accumulation>(name) {
        let op = choose|op: Accumulation| declared_under(op, name);
        lemma_accumulation_marks(op, name);
    }
}

/// Every declaration of the orderings `ops` names the trait of the operator
/// or that of its compound assignment.
proof fn lemma_binary_traits(op: OpNames, assign: OpNames, ops: Seq<BinaryView>, k: int)
    requires
        0 <= k < ImplView::binary(op, assign, ops).len(),
    ensures
        ImplView::binary(op, assign, ops)[k].trait_name == op.trait_name || ImplView::binary(
            op,
            assign,
            ops,
        )[k].trait_name == assign.trait_name,
{
}

/// Every declaration of the arithmetic group names an arithmetic trait.
proof fn lemma_arithmetic_traits(target: Seq<char>, inner: Seq<char>, k: int)
    requires
        0 <= k < group_plan::<Arithmetic>(target, inner).len(),
    ensures
        declares::<Arithmetic>(group_plan::<Arithmetic>(target, inner)[k].trait_name),
{
    let ops = Arithmetic::spec_supported(inner);
    let parts = ops.map_values(|op: Arithmetic| op.spec_generate(target, inner));
    let at = lemma_flatten_member(parts, k);
    let op = ops[at.0];
    let decl = parts[at.0][at.1];
    if op.spec_assign() is Some {
        lemma_binary_traits(names_of(&op), op.spec_assign()->0, op.requests(target, inner), at.1);
    }
    assert(declared_under(op, decl.trait_name));
}

/// Every declaration of the bitwise group names a bitwise trait.
proof fn lemma_bitwise_traits(target: Seq<char>, inner: Seq<char>, k: int)
    requires
        0 <= k < group_plan::<Bit>(target, inner).len(),
    ensures
        declares::<Bit>(group_plan::<Bit>(target, inner)[k].trait_name),
{
    let ops = Bit::spec_supported(inner);
    let parts = ops.map_values(|op: Bit| op.spec_generate(target, inner));
    let at = lemma_flatten_member(parts, k);
    let op = ops[at.0];
    let decl = parts[at.0][at.1];
    let names = names_of(&op);
    if op.is_shift() {
        let assign = op.spec_assign()->0;
        let groups = Bit::shift_requests(target, inner);
        let each = groups.map_values(|ops: Seq<BinaryView>| ImplView::binary(names, assign, ops));
        let inside = lemma_flatten_member(each, at.1);
        lemma_binary_traits(names, assign, groups[inside.0], inside.1);
    } else if op.spec_assign() is Some {
        lemma_binary_traits(names, op.spec_assign()->0, op.requests(target, inner), at.1);
    }
    assert(declared_under(op, decl.trait_name));
}

/// Every declaration of the formatting group names a formatting trait.
proof fn lemma_formatting_traits(target: Seq<char>, inner: Seq<char>, k: int)
    requires
        0 <= k < group_plan::<Formatting>(target, inner).len(),
    ensures
        declares::<Formatting>(group_plan::<Formatting>(target, inner)[k].trait_name),
{
    let ops = Formatting::spec_supported(inner);
    let parts = ops.map_values(|op: Formatting| op.spec_generate(target, inner));
    let at = lemma_flatten_member(parts, k);
    assert(declared_under(ops[at.0], parts[at.0][at.1].trait_name));
}

/// Every declaration of the comparison group names a comparison trait.
proof fn lemma_comparison_traits(target: Seq<char>, inner: Seq<char>, k: int)
    requires
        0 <= k < group_plan::<Comparison>(target, inner).len(),
    ensures
        declares::<Comparison>(group_plan::<Comparison>(target, inner)[k].trait_name),
{
    let ops = Comparison::spec_supported(inner);
    let parts = ops.map_values(|op: Comparison| op.spec_generate(target, inner));
    let at = lemma_flatten_member(parts, k);
    assert(declared_under(ops[at.0], parts[at.0][at.1].trait_name));
}

/// Every declaration of the accumulation group names an accumulation trait.
proof fn lemma_accumulation_traits(target: Seq<char>, inner: Seq<char>, k: int)
    requires
        0 <= k < group_plan::<Accumulation>(target, inner).len(),
    ensures
        declares::<Accumulation>(group_plan::<Accumulation>(target, inner)[k].trait_name),
{
    let ops = Accumulation::spec_supported(inner);
    let parts = ops.map_values(|op: Accumulation| op.spec_generate(target, inner));
    let at = lemma_flatten_member(parts, k);
    assert(declared_under(ops[at.0], parts[at.0][at.1].trait_name));
}

/// Every declaration of what is planned for `group` names a trait of that
/// group, and the group was asked for.
pub proof fn lemma_planned_for_traits(
    group: Group,
    groups: Set<Group>,
    target: Seq<char>,
    inner: Seq<char>,
    k: int,
)
    requires
        0 <= k < planned_for(group, groups, target, inner).len(),
    ensures
        groups.contains(group),
        declaring_group(planned_for(group, groups, target, inner)[k].trait_name) == Some(group),
{
    let name = planned_for(group, groups, target, inner)[k].trait_name;
    match group {
        Group::Arithmetic => lemma_arithmetic_traits(target, inner, k),
        Group::Bitwise => lemma_bitwise_traits(target, inner, k),
        Group::Formatting => lemma_formatting_traits(target, inner, k),
        Group::Comparison => lemma_comparison_traits(target, inner, k),
        Group::Accumulation => lemma_accumulation_traits(target, inner, k),
    }
    lemma_groups_apart(name);
}

/// Only what is asked for is declared: every declaration of a plan names a
/// trait of one of the groups that were asked for.
pub proof fn lemma_only_requested_groups(
    target: Seq<char>,
    inner: Seq<char>,
    groups: Set<Group>,
    k: int,
)
    requires
        0 <= k < planned(target, inner, groups).len(),
    ensures
        declaring_group(planned(target, inner, groups)[k].trait_name) is Some,
        groups.contains(declaring_group(planned(target, inner, groups)[k].trait_name)->0),
        declaring_group(planned(target, inner, groups)[k].trait_name) == Some(Group::Accumulation)
            ==> groups.contains(Group::Arithmetic),
{
    let first = planned_for(Group::Arithmetic, groups, target, inner);
    let second = planned_for(Group::Bitwise, groups, target, inner);
    let third = planned_for(Group::Formatting, groups, target, inner);
    let fourth = planned_for(Group::Comparison, groups, target, inner);
    let fifth = planned_for(Group::Accumulation, groups, target, inner);
    if k < first.len() {
        lemma_planned_for_traits(Group::Arithmetic, groups, target, inner, k);
    } else if k < first.len() + second.len() {
        lemma_planned_for_traits(Group::Bitwise, groups, target, inner, k - first.len());
    } else if k < first.len() + second.len() + third.len() {
        lemma_planned_for_traits(
            Group::Formatting,
            groups,
            target,
            inner,
            k - first.len() - second.len(),
        );
    } else if k < first.len() + second.len() + third.len() + fourth.len() {
        lemma_planned_for_traits(
            Group::Comparison,
            groups,
            target,
            inner,
            k - first.len() - second.len() - third.len(),
        );
    } else {
        lemma_planned_for_traits(
            Group::Accumulation,
            groups,
            target,
            inner,
            k - first.len() - second.len() - third.len() - fourth.len(),
        );
    }
}

/// Where only the arithmetic group is asked for, the plan is that of the
/// arithmetic group, and no declaration in it names a trait of a comparison,
/// of formatting or of a fold.
pub proof fn lemma_arithmetic_alone(target: Seq<char>, inner: Seq<char>)
    ensures
        planned(target, inner, set![Group::Arithmetic]) == group_plan::<Arithmetic>(target, inner),
        forall|k: int|
            0 <= k < planned(target, inner, set![Group::Arithmetic]).len() ==> {
                let name = (#[trigger] planned(target, inner, set![Group::Arithmetic])[k])
                    .trait_name;
                &&& declares::<Arithmetic>(name)
                &&& !declares::<Comparison>(name)
                &&& !declares::<Formatting>(name)
                &&& !declares::<Accumulation>(name)
            },
{
    let groups = set![Group::Arithmetic];
    let plan = planned(target, inner, groups);
    assert(plan =~= group_plan::<Arithmetic>(target, inner));
    assert forall|k: int| 0 <= k < plan.len() implies {
        let name = (#[trigger] plan[k]).trait_name;
        &&& declares::<Arithmetic>(name)
        &&& !declares::<Comparison>(name)
        &&& !declares::<Formatting>(name)
        &&& !declares::<Accumulation>(name)
    } by {
        lemma_arithmetic_traits(target, inner, k);
        lemma_groups_apart(plan[k].trait_name);
    }
}

/// The body that does the work of the ordering `b` by the compound assignment
/// `assign`: the call of the assignment on the borrowed receiver with the
/// operand, followed by what the ordering yields.
pub open spec fn delegating_body(assign: OpNames, b: BinaryView) -> Seq<char> {
    ImplView::delegation(assign, "&mut "@ + b.lhs) + " "@ + yielded(b)
}

/// Whether `decl` is a binary operator by value: its function takes a mutable
/// `self` by value and an operand.
pub open spec fn is_binary_by_value(decl: ImplView) -> bool {
    decl.func.receiver == Receiver::ByValueMut && decl.func.param is Some
}

/// Whether `body` only delegates to a compound assignment.
pub open spec fn delegates(body: Seq<char>) -> bool {
    exists|assign: OpNames, b: BinaryView| body == #[trigger] delegating_body(assign, b)
}

/// A binary operator by value among the declarations of `ops` only delegates.
proof fn lemma_binary_delegates(op: OpNames, assign: OpNames, ops: Seq<BinaryView>, k: int)
    requires
        0 <= k < ImplView::binary(op, assign, ops).len(),
        is_binary_by_value(ImplView::binary(op, assign, ops)[k]),
    ensures
        delegates(ImplView::binary(op, assign, ops)[k].func.body),
{
    assert(k < ops.len());
    assert(ImplView::binary(op, assign, ops)[k].func.body == delegating_body(assign, ops[k]));
}

/// In every plan, every binary operator by value only delegates: its body is
/// the call of a compound assignment on the borrowed receiver with the
/// operand, followed by what it yields.
pub proof fn lemma_planned_by_value_delegates(
    target: Seq<char>,
    inner: Seq<char>,
    groups: Set<Group>,
    k: int,
)
    requires
        0 <= k < planned(target, inner, groups).len(),
        is_binary_by_value(planned(target, inner, groups)[k]),
    ensures
        delegates(planned(target, inner, groups)[k].func.body),
{
    let first = planned_for(Group::Arithmetic, groups, target, inner);
    let second = planned_for(Group::Bitwise, groups, target, inner);
    let third = planned_for(Group::Formatting, groups, target, inner);
    let fourth = planned_for(Group::Comparison, groups, target, inner);
    if k < first.len() {
        let ops = Arithmetic::spec_supported(inner);
        let parts = ops.map_values(|op: Arithmetic| op.spec_generate(target, inner));
        let at = lemma_flatten_member(parts, k);
        let op = ops[at.0];
        lemma_binary_delegates(
            names_of(&op),
            op.spec_assign()->0,
            op.requests(target, inner),
            at.1,
        );
    } else if k < first.len() + second.len() {
        let ops = Bit::spec_supported(inner);
        let parts = ops.map_values(|op: Bit| op.spec_generate(target, inner));
        let at = lemma_flatten_member(parts, k - first.len());
        let op = ops[at.0];
        let names = names_of(&op);
        let assign = op.spec_assign()->0;
        if op.is_shift() {
            let orderings = Bit::shift_requests(target, inner);
            let each = orderings.map_values(
                |ops: Seq<BinaryView>| ImplView::binary(names, assign, ops),
            );
            let inside = lemma_flatten_member(each, at.1);
            lemma_binary_delegates(names, assign, orderings[inside.0], inside.1);
        } else {
            lemma_binary_delegates(names, assign, op.requests(target, inner), at.1);
        }
    } else if k < first.len() + second.len() + third.len() {
        let ops = Formatting::spec_supported(inner);
        let parts = ops.map_values(|op: Formatting| op.spec_generate(target, inner));
        let at = lemma_flatten_member(parts, k - first.len() - second.len());
        assert(!is_binary_by_value(parts[at.0][at.1]));
    } else if k < first.len() + second.len() + third.len() + fourth.len() {
        let ops = Comparison::spec_supported(inner);
        let parts = ops.map_values(|op: Comparison| op.spec_generate(target, inner));
        let at = lemma_flatten_member(parts, k - first.len() - second.len() - third.len());
        assert(!is_binary_by_value(parts[at.0][at.1]));
    } else {
        let ops = Accumulation::spec_supported(inner);
        let parts = ops.map_values(|op: Accumulation| op.spec_generate(target, inner));
        let at = lemma_flatten_member(
            parts,
            k - first.len() - second.len() - third.len() - fourth.len(),
        );
        assert(!is_binary_by_value(parts[at.0][at.1]));
    }
}

/// Only a binary operator has a compound assignment: the two negations have
/// none, and neither has any comparison, formatting trait or fold.
pub proof fn lemma_only_binary_operators_assign()
    ensures
        forall|op: Arithmetic| #[trigger] op.spec_assign() is None <==> op == Arithmetic::Neg,
        forall|op: Bit| #[trigger] op.spec_assign() is None <==> op == Bit::Not,
        forall|op: Comparison| #[trigger] op.spec_assign() is None,
        forall|op: Formatting| #[trigger] op.spec_assign() is None,
        forall|op: Accumulation| #[trigger] op.spec_assign() is None,
{
}

/// A unary operator is declared once, for the wrapper, and its function takes
/// no operand.
pub proof fn lemma_unary_is_declared_once(target: Seq<char>, inner: Seq<char>)
    ensures
        Arithmetic::Neg.spec_generate(target, inner) == seq![
            ImplView::unary(names_of(&Arithmetic::Neg), target),
        ],
        Bit::Not.spec_generate(target, inner) == seq![
            ImplView::unary(names_of(&Bit::Not), target),
        ],
        ImplView::unary(names_of(&Arithmetic::Neg), target).func.param is None,
        ImplView::unary(names_of(&Bit::Not), target).func.param is None,
        ImplView::unary(names_of(&Arithmetic::Neg), target).target == target,
        ImplView::unary(names_of(&Bit::Not), target).target == target,
{
}

/// A fold is declared in three orderings: wrappers into a wrapper, primitives
/// into a wrapper, and wrappers into a primitive.
pub proof fn lemma_fold_orderings(op: Accumulation, target: Seq<char>, inner: Seq<char>)
    ensures
        ({
            let decls = op.spec_generate(target, inner);
            &&& decls.len() == 3
            &&& decls[0].target == target && decls[0].trait_generic == Some("Self"@)
            &&& decls[1].target == target && decls[1].trait_generic == Some(inner)
            &&& decls[2].target == inner && decls[2].trait_generic == Some(target)
        }),
{
}

/// A comparison is declared in two orderings, each between the wrapper and
/// its inner type, and never between two wrappers.
pub proof fn lemma_comparison_orderings(op: Comparison, target: Seq<char>, inner: Seq<char>)
    ensures
        ({
            let decls = op.spec_generate(target, inner);
            &&& decls.len() == 2
            &&& decls[0].target == target && decls[0].trait_generic == Some(inner)
            &&& decls[1].target == inner && decls[1].trait_generic == Some(target)
        }),
{
}

} // verus!
