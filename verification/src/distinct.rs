//! No declaration is planned twice.
//!
//! A plan is put together from groups, a group from operations, and an
//! operation from orderings. Declarations of two groups or of two operations
//! differ in the trait that they name. Declarations of two orderings of one
//! operation differ in who receives them, in the type of the operand or in its
//! binding.

use crate::Group;
use crate::gen::ImplView;
use crate::gen::names_of;
use crate::laws::declared_of;
use crate::laws::declared_under;
use crate::laws::lemma_binary_member;
use crate::laws::lemma_flatten_member;
use crate::laws::lemma_planned_for_traits;
use crate::ops::Accumulation;
use crate::ops::Arithmetic;
use crate::ops::BinaryView;
use crate::ops::Bit;
use crate::ops::Comparison;
use crate::ops::Formatting;
use crate::ops::Op;
use crate::ops::OpData;
use crate::ops::OpNames;
use crate::ops::group_plan;
use crate::ops::int_type_names;
use crate::ops::is_int;
use crate::ops::is_primitive;
use crate::ops::lemma_int_names_differ;
use crate::ops::lemma_primitive_name;
use crate::planned;
use crate::planned_for;
use vstd::prelude::*;
use vstd::seq_lib::lemma_no_dup_in_concat;

verus! {

/// Where no part holds an item twice and no two parts share an item, the
/// parts taken together hold no item twice.
pub proof fn lemma_flatten_no_duplicates<A>(parts: Seq<Seq<A>>)
    requires
        forall|g: int| 0 <= g < parts.len() ==> (#[trigger] parts[g]).no_duplicates(),
        forall|g: int, h: int, i: int, j: int|
            #![trigger parts[g][i], parts[h][j]]
            0 <= g < h < parts.len() && 0 <= i < parts[g].len() && 0 <= j < parts[h].len()
                ==> parts[g][i] != parts[h][j],
    ensures
        parts.flatten().no_duplicates(),
    decreases parts.len(),
{
    if parts.len() == 0 {
    } else {
        let rest = parts.drop_last();
        let last = parts.last();
        assert forall|g: int| 0 <= g < rest.len() implies (#[trigger] rest[g]).no_duplicates() by {
            assert(rest[g] == parts[g]);
        }
        assert forall|g: int, h: int, i: int, j: int|
            #![trigger rest[g][i], rest[h][j]]
            0 <= g < h < rest.len() && 0 <= i < rest[g].len() && 0 <= j < rest[h].len()
                implies rest[g][i] != rest[h][j] by {
            assert(rest[g][i] == parts[g][i]);
            assert(rest[h][j] == parts[h][j]);
        }
        lemma_flatten_no_duplicates(rest);
        assert(parts =~= rest.push(last));
        rest.lemma_flatten_push(last);
        assert forall|k: int, j: int|
            0 <= k < rest.flatten().len() && 0 <= j < last.len() implies rest.flatten()[k]
            != last[j] by {
            let at = lemma_flatten_member(rest, k);
            assert(rest[at.0][at.1] == parts[at.0][at.1]);
            assert(last[j] == parts[parts.len() - 1][j]);
        }
        lemma_no_dup_in_concat(rest.flatten(), last);
    }
}

/// What tells the declarations of one ordering from those of another: who
/// receives them, the type of the operand, and its binding.
pub open spec fn shape(b: BinaryView) -> (Seq<char>, Seq<char>, Seq<char>) {
    (b.target, b.rhs_type, b.rhs_bind)
}

/// Whether no two of the orderings `ops` have the same shape.
pub open spec fn shapes_differ(ops: Seq<BinaryView>) -> bool {
    forall|i: int, j: int| 0 <= i < j < ops.len() ==> shape(#[trigger] ops[i]) != shape(#[trigger] ops[j])
}

/// Declarations of two orderings of different shape differ.
proof fn lemma_shapes_apart(
    op: OpNames,
    assign: OpNames,
    first: ImplView,
    b: BinaryView,
    second: ImplView,
    c: BinaryView,
)
    requires
        declared_of(first, op, assign, b),
        declared_of(second, op, assign, c),
        shape(b) != shape(c),
    ensures
        first != second,
{
}

/// The declarations of orderings of different shapes differ from one another.
proof fn lemma_binary_no_duplicates(op: OpNames, assign: OpNames, ops: Seq<BinaryView>)
    requires
        shapes_differ(ops),
    ensures
        ImplView::binary(op, assign, ops).no_duplicates(),
{
    let decls = ImplView::binary(op, assign, ops);
    let n = ops.len() as int;
    assert forall|i: int, j: int| 0 <= i < decls.len() && 0 <= j < decls.len() && i != j implies
        decls[i] != decls[j] by {
        let b = if i < n {
            ops[i]
        } else {
            ops[i - n]
        };
        let c = if j < n {
            ops[j]
        } else {
            ops[j - n]
        };
        if (i < n) == (j < n) {
            if i < j {
                assert(shape(b) != shape(c));
            } else {
                assert(shape(c) != shape(b));
            }
        }
    }
}

/// The three orderings of wrapper and inner type are of three shapes, as long
/// as the inner type is not called `Self`.
proof fn lemma_permutations_differ(target: Seq<char>, inner: Seq<char>)
    requires
        inner != "Self"@,
    ensures
        shapes_differ(BinaryView::permutations(target, inner)),
{
    reveal_strlit("Self(rhs)");
    reveal_strlit("rhs");
    reveal_strlit("(rhs)");
    let ops = BinaryView::permutations(target, inner);
    assert("Self(rhs)"@.len() != "rhs"@.len());
    assert((target + "(rhs)"@).len() != "rhs"@.len());
    assert(shape(ops[0]) != shape(ops[1]));
    assert(shape(ops[1]) != shape(ops[2]));
    assert(shape(ops[0]) != shape(ops[2]));
}

/// The two orderings of a wrapper and another type are of two shapes.
proof fn lemma_inner_permutations_differ(target: Seq<char>, inner: Seq<char>, other: Seq<char>)
    ensures
        shapes_differ(BinaryView::inner_permutations(target, inner, other)),
{
    reveal_strlit("rhs");
    reveal_strlit("(rhs)");
    let ops = BinaryView::inner_permutations(target, inner, other);
    assert((target + "(rhs)"@).len() != "rhs"@.len());
    assert(shape(ops[0]) != shape(ops[1]));
}

/// Every pair in the matrix of a shift is the pair of one of the types
/// `widths` that is not the inner type, and no two pairs are of the same type.
proof fn lemma_matrix_pairs(target: Seq<char>, inner: Seq<char>, widths: Seq<Seq<char>>)
    requires
        widths.no_duplicates(),
    ensures
        forall|g: int|
            0 <= g < Bit::shift_matrix(target, inner, widths).len() ==> exists|k: int|
                0 <= k < widths.len() && widths[k] != inner && #[trigger] Bit::shift_matrix(
                    target,
                    inner,
                    widths,
                )[g] == BinaryView::inner_permutations(target, inner, widths[k]),
        forall|g: int, h: int|
            0 <= g < h < Bit::shift_matrix(target, inner, widths).len() ==> (
            #[trigger] Bit::shift_matrix(target, inner, widths)[g])[0].rhs_type != (
            #[trigger] Bit::shift_matrix(target, inner, widths)[h])[0].rhs_type,
    decreases widths.len(),
{
    if widths.len() > 0 {
        let rest = widths.drop_last();
        let last = widths.last();
        let before = Bit::shift_matrix(target, inner, rest);
        let matrix = Bit::shift_matrix(target, inner, widths);
        lemma_matrix_pairs(target, inner, rest);
        assert forall|g: int| 0 <= g < matrix.len() implies exists|k: int|
            0 <= k < widths.len() && widths[k] != inner && #[trigger] matrix[g]
                == BinaryView::inner_permutations(target, inner, widths[k]) by {
            if g < before.len() {
                let k = choose|k: int|
                    0 <= k < rest.len() && rest[k] != inner && before[g]
                        == BinaryView::inner_permutations(target, inner, rest[k]);
                assert(widths[k] == rest[k]);
            } else {
                assert(widths[widths.len() - 1] == last);
            }
        }
        assert forall|g: int, h: int| 0 <= g < h < matrix.len() implies (#[trigger] matrix[g])[0].rhs_type
            != (#[trigger] matrix[h])[0].rhs_type by {
            if h >= before.len() {
                let k = choose|k: int|
                    0 <= k < rest.len() && rest[k] != inner && before[g]
                        == BinaryView::inner_permutations(target, inner, rest[k]);
                assert(widths[k] == rest[k]);
                assert(widths[widths.len() - 1] == last);
            }
        }
    }
}

/// The declarations of a shift of an integer wrapper differ from one another.
proof fn lemma_shift_no_duplicates(op: Bit, target: Seq<char>, inner: Seq<char>)
    requires
        op.is_shift(),
        is_int(inner),
    ensures
        op.spec_generate(target, inner).no_duplicates(),
{
    reveal_strlit("Self(rhs)");
    reveal_strlit("rhs");
    reveal_strlit("(rhs)");
    let names = names_of(&op);
    let assign = op.spec_assign()->0;
    let widths = int_type_names();
    let matrix = Bit::shift_matrix(target, inner, widths);
    let groups = Bit::shift_requests(target, inner);
    let parts = groups.map_values(|ops: Seq<BinaryView>| ImplView::binary(names, assign, ops));
    lemma_int_names_differ();
    lemma_matrix_pairs(target, inner, widths);
    assert(groups =~= seq![seq![BinaryView::self_self(target)]] + matrix);
    assert("Self(rhs)"@.len() != "rhs"@.len());
    assert((target + "(rhs)"@).len() != "rhs"@.len());

    assert forall|g: int| 0 <= g < parts.len() implies (#[trigger] parts[g]).no_duplicates() by {
        if g == 0 {
            assert(shapes_differ(groups[0]));
        } else {
            let k = choose|k: int|
                0 <= k < widths.len() && widths[k] != inner && matrix[g - 1]
                    == BinaryView::inner_permutations(target, inner, widths[k]);
            lemma_inner_permutations_differ(target, inner, widths[k]);
        }
        lemma_binary_no_duplicates(names, assign, groups[g]);
    }
    assert forall|g: int, h: int, i: int, j: int|
        #![trigger parts[g][i], parts[h][j]]
        0 <= g < h < parts.len() && 0 <= i < parts[g].len() && 0 <= j < parts[h].len()
            implies parts[g][i] != parts[h][j] by {
        lemma_binary_member(names, assign, groups[g], i);
        lemma_binary_member(names, assign, groups[h], j);
        let b = choose|b: BinaryView| #[trigger]
            groups[g].contains(b) && declared_of(parts[g][i], names, assign, b);
        let c = choose|c: BinaryView| #[trigger]
            groups[h].contains(c) && declared_of(parts[h][j], names, assign, c);
        let later = choose|k: int|
            0 <= k < widths.len() && widths[k] != inner && matrix[h - 1]
                == BinaryView::inner_permutations(target, inner, widths[k]);
        let y = widths[later];
        assert(is_int(y));
        lemma_primitive_name(y);
        let at_c = choose|at: int| 0 <= at < groups[h].len() && groups[h][at] == c;
        assert(groups[h][at_c] == c);
        assert(c == BinaryView::self_inner(target, y) || c == BinaryView::other_self(
            target,
            inner,
            y,
        ));
        if g == 0 {
            let at_b = choose|at: int| 0 <= at < groups[g].len() && groups[g][at] == b;
            assert(groups[g][at_b] == b);
            assert(b == BinaryView::self_self(target));
            assert(shape(b) != shape(c));
        } else {
            let earlier = choose|k: int|
                0 <= k < widths.len() && widths[k] != inner && matrix[g - 1]
                    == BinaryView::inner_permutations(target, inner, widths[k]);
            let x = widths[earlier];
            let at_b = choose|at: int| 0 <= at < groups[g].len() && groups[g][at] == b;
            assert(groups[g][at_b] == b);
            assert(b == BinaryView::self_inner(target, x) || b == BinaryView::other_self(
                target,
                inner,
                x,
            ));
            assert(matrix[g - 1][0].rhs_type == x);
            assert(matrix[h - 1][0].rhs_type == y);
            assert(x != y);
            assert(shape(b) != shape(c));
        }
        lemma_shapes_apart(names, assign, parts[g][i], b, parts[h][j], c);
    }
    lemma_flatten_no_duplicates(parts);
}

/// Two arithmetic operators that are declared under one trait are one
/// operator.
proof fn lemma_arithmetic_named_once(first: Arithmetic, second: Arithmetic, name: Seq<char>)
    requires
        declared_under(first, name),
        declared_under(second, name),
    ensures
        first == second,
{
    reveal_strlit("core::ops::Add");
    reveal_strlit("core::ops::Sub");
    reveal_strlit("core::ops::Mul");
    reveal_strlit("core::ops::Div");
    reveal_strlit("core::ops::Rem");
    reveal_strlit("core::ops::Neg");
    reveal_strlit("core::ops::AddAssign");
    reveal_strlit("core::ops::SubAssign");
    reveal_strlit("core::ops::MulAssign");
    reveal_strlit("core::ops::DivAssign");
    reveal_strlit("core::ops::RemAssign");
    let marks = (name[11], name[12]);
    assert(marks == match first {
        Arithmetic::Add => ('A', 'd'),
        Arithmetic::Sub => ('S', 'u'),
        Arithmetic::Mul => ('M', 'u'),
        Arithmetic::Div => ('D', 'i'),
        Arithmetic::Rem => ('R', 'e'),
        Arithmetic::Neg => ('N', 'e'),
    });
}

/// Two bitwise operators that are declared under one trait are one operator.
proof fn lemma_bitwise_named_once(first: Bit, second: Bit, name: Seq<char>)
    requires
        declared_under(first, name),
        declared_under(second, name),
    ensures
        first == second,
{
    reveal_strlit("core::ops::BitAnd");
    reveal_strlit("core::ops::BitOr");
    reveal_strlit("core::ops::BitXor");
    reveal_strlit("core::ops::Shl");
    reveal_strlit("core::ops::Shr");
    reveal_strlit("core::ops::Not");
    reveal_strlit("core::ops::BitAndAssign");
    reveal_strlit("core::ops::BitOrAssign");
    reveal_strlit("core::ops::BitXorAssign");
    reveal_strlit("core::ops::ShlAssign");
    reveal_strlit("core::ops::ShrAssign");
    let marks = (name[11], name[13]);
    assert(marks == match first {
        Bit::BitAnd => ('B', 't'),
        Bit::BitOr => ('B', 't'),
        Bit::BitXor => ('B', 't'),
        Bit::Shl => ('S', 'l'),
        Bit::Shr => ('S', 'r'),
        Bit::Not => ('N', 't'),
    });
    if name[11] == 'B' {
        assert(name[14] == match first {
            Bit::BitAnd => 'A',
            Bit::BitOr => 'O',
            _ => 'X',
        });
    }
}

/// Two formatting traits of one name are one trait.
proof fn lemma_formatting_named_once(first: Formatting, second: Formatting, name: Seq<char>)
    requires
        declared_under(first, name),
        declared_under(second, name),
    ensures
        first == second,
{
    reveal_strlit("core::fmt::Debug");
    reveal_strlit("core::fmt::Display");
    reveal_strlit("core::fmt::Binary");
    reveal_strlit("core::fmt::Octal");
    reveal_strlit("core::fmt::LowerExp");
    reveal_strlit("core::fmt::LowerHex");
    reveal_strlit("core::fmt::UpperExp");
    reveal_strlit("core::fmt::UpperHex");
    let marks = (name[11], name[12]);
    assert(marks == match first {
        Formatting::Debug => ('D', 'e'),
        Formatting::Display => ('D', 'i'),
        Formatting::Binary => ('B', 'i'),
        Formatting::Octal => ('O', 'c'),
        Formatting::LowerExp => ('L', 'o'),
        Formatting::LowerHex => ('L', 'o'),
        Formatting::UpperExp => ('U', 'p'),
        Formatting::UpperHex => ('U', 'p'),
    });
    if name[11] == 'L' || name[11] == 'U' {
        assert(name[16] == match first {
            Formatting::LowerExp => 'E',
            Formatting::UpperExp => 'E',
            _ => 'H',
        });
    }
}

/// Two comparisons of one name are one comparison.
proof fn lemma_comparison_named_once(first: Comparison, second: Comparison, name: Seq<char>)
    requires
        declared_under(first, name),
        declared_under(second, name),
    ensures
        first == second,
{
    reveal_strlit("PartialEq");
    reveal_strlit("PartialOrd");
    assert(name[7] == match first {
        Comparison::PartialEq => 'E',
        Comparison::PartialOrd => 'O',
    });
}

/// Two folds of one name are one fold.
proof fn lemma_accumulation_named_once(first: Accumulation, second: Accumulation, name: Seq<char>)
    requires
        declared_under(first, name),
        declared_under(second, name),
    ensures
        first == second,
{
    reveal_strlit("core::iter::Sum");
    reveal_strlit("core::iter::Product");
    assert(name[12] == match first {
        Accumulation::Sum => 'S',
        Accumulation::Product => 'P',
    });
}

/// The declarations of one arithmetic operator differ from one another.
proof fn lemma_arithmetic_operator(op: Arithmetic, target: Seq<char>, inner: Seq<char>)
    requires
        inner != "Self"@,
    ensures
        op.spec_generate(target, inner).no_duplicates(),
        forall|k: int|
            0 <= k < op.spec_generate(target, inner).len() ==> declared_under(
                op,
                (#[trigger] op.spec_generate(target, inner)[k]).trait_name,
            ),
{
    if op.spec_assign() is Some {
        lemma_permutations_differ(target, inner);
        lemma_binary_no_duplicates(
            names_of(&op),
            op.spec_assign()->0,
            BinaryView::permutations(target, inner),
        );
    }
}

/// The declarations of one bitwise operator differ from one another.
proof fn lemma_bitwise_operator(op: Bit, target: Seq<char>, inner: Seq<char>)
    requires
        inner != "Self"@,
        op.is_shift() ==> is_int(inner),
    ensures
        op.spec_generate(target, inner).no_duplicates(),
        forall|k: int|
            0 <= k < op.spec_generate(target, inner).len() ==> declared_under(
                op,
                (#[trigger] op.spec_generate(target, inner)[k]).trait_name,
            ),
{
    let names = names_of(&op);
    if op.is_shift() {
        lemma_shift_no_duplicates(op, target, inner);
        let assign = op.spec_assign()->0;
        let groups = Bit::shift_requests(target, inner);
        let parts = groups.map_values(|ops: Seq<BinaryView>| ImplView::binary(names, assign, ops));
        assert forall|k: int| 0 <= k < op.spec_generate(target, inner).len() implies declared_under(
            op,
            (#[trigger] op.spec_generate(target, inner)[k]).trait_name,
        ) by {
            let at = lemma_flatten_member(parts, k);
            lemma_binary_member(names, assign, groups[at.0], at.1);
        }
    } else if op.spec_assign() is Some {
        lemma_permutations_differ(target, inner);
        lemma_binary_no_duplicates(
            names,
            op.spec_assign()->0,
            BinaryView::permutations(target, inner),
        );
    }
}

/// The two declarations of one comparison differ in the binding of the other
/// side.
proof fn lemma_comparison_operator(op: Comparison, target: Seq<char>, inner: Seq<char>)
    ensures
        op.spec_generate(target, inner).no_duplicates(),
        forall|k: int|
            0 <= k < op.spec_generate(target, inner).len() ==> declared_under(
                op,
                (#[trigger] op.spec_generate(target, inner)[k]).trait_name,
            ),
{
    reveal_strlit("other");
    reveal_strlit("(other)");
    let decls = op.spec_generate(target, inner);
    assert((target + "(other)"@).len() != "other"@.len());
    assert(decls[0].func.param != decls[1].func.param);
}

/// The three declarations of one fold differ: the first two in the type of
/// the elements, and the third from both in its body.
proof fn lemma_accumulation_operator(op: Accumulation, target: Seq<char>, inner: Seq<char>)
    requires
        inner != "Self"@,
    ensures
        op.spec_generate(target, inner).no_duplicates(),
        forall|k: int|
            0 <= k < op.spec_generate(target, inner).len() ==> declared_under(
                op,
                (#[trigger] op.spec_generate(target, inner)[k]).trait_name,
            ),
{
    reveal_strlit("Self(iter.");
    reveal_strlit("iter.map(|it| it.0).");
    let decls = op.spec_generate(target, inner);
    assert(decls[0].func.body[0] == 'S');
    assert(decls[1].func.body[0] == 'S');
    assert(decls[2].func.body[0] == 'i');
    assert(decls[0].trait_generic != decls[1].trait_generic);
}

/// The declarations of the arithmetic group differ from one another.
proof fn lemma_arithmetic_group(target: Seq<char>, inner: Seq<char>)
    requires
        inner != "Self"@,
    ensures
        group_plan::<Arithmetic>(target, inner).no_duplicates(),
{
    let ops = Arithmetic::spec_supported(inner);
    let parts = ops.map_values(|op: Arithmetic| op.spec_generate(target, inner));
    assert forall|g: int| 0 <= g < parts.len() implies (#[trigger] parts[g]).no_duplicates() by {
        lemma_arithmetic_operator(ops[g], target, inner);
    }
    assert forall|g: int, h: int, i: int, j: int|
        #![trigger parts[g][i], parts[h][j]]
        0 <= g < h < parts.len() && 0 <= i < parts[g].len() && 0 <= j < parts[h].len()
            implies parts[g][i] != parts[h][j] by {
        lemma_arithmetic_operator(ops[g], target, inner);
        lemma_arithmetic_operator(ops[h], target, inner);
        if parts[g][i] == parts[h][j] {
            lemma_arithmetic_named_once(ops[g], ops[h], parts[g][i].trait_name);
        }
    }
    lemma_flatten_no_duplicates(parts);
}

/// The declarations of the bitwise group differ from one another.
proof fn lemma_bitwise_group(target: Seq<char>, inner: Seq<char>)
    requires
        is_primitive(inner),
    ensures
        group_plan::<Bit>(target, inner).no_duplicates(),
{
    lemma_primitive_name(inner);
    let ops = Bit::spec_supported(inner);
    let parts = ops.map_values(|op: Bit| op.spec_generate(target, inner));
    assert forall|g: int| 0 <= g < parts.len() implies (#[trigger] parts[g]).no_duplicates() by {
        lemma_bitwise_operator(ops[g], target, inner);
    }
    assert forall|g: int, h: int, i: int, j: int|
        #![trigger parts[g][i], parts[h][j]]
        0 <= g < h < parts.len() && 0 <= i < parts[g].len() && 0 <= j < parts[h].len()
            implies parts[g][i] != parts[h][j] by {
        lemma_bitwise_operator(ops[g], target, inner);
        lemma_bitwise_operator(ops[h], target, inner);
        if parts[g][i] == parts[h][j] {
            lemma_bitwise_named_once(ops[g], ops[h], parts[g][i].trait_name);
        }
    }
    lemma_flatten_no_duplicates(parts);
}

/// The declarations of the formatting group differ from one another.
proof fn lemma_formatting_group(target: Seq<char>, inner: Seq<char>)
    ensures
        group_plan::<Formatting>(target, inner).no_duplicates(),
{
    let ops = Formatting::spec_supported(inner);
    let parts = ops.map_values(|op: Formatting| op.spec_generate(target, inner));
    assert forall|g: int, h: int, i: int, j: int|
        #![trigger parts[g][i], parts[h][j]]
        0 <= g < h < parts.len() && 0 <= i < parts[g].len() && 0 <= j < parts[h].len()
            implies parts[g][i] != parts[h][j] by {
        if parts[g][i] == parts[h][j] {
            lemma_formatting_named_once(ops[g], ops[h], parts[g][i].trait_name);
        }
    }
    lemma_flatten_no_duplicates(parts);
}

/// The declarations of the comparison group differ from one another.
proof fn lemma_comparison_group(target: Seq<char>, inner: Seq<char>)
    ensures
        group_plan::<Comparison>(target, inner).no_duplicates(),
{
    let ops = Comparison::spec_supported(inner);
    let parts = ops.map_values(|op: Comparison| op.spec_generate(target, inner));
    assert forall|g: int| 0 <= g < parts.len() implies (#[trigger] parts[g]).no_duplicates() by {
        lemma_comparison_operator(ops[g], target, inner);
    }
    assert forall|g: int, h: int, i: int, j: int|
        #![trigger parts[g][i], parts[h][j]]
        0 <= g < h < parts.len() && 0 <= i < parts[g].len() && 0 <= j < parts[h].len()
            implies parts[g][i] != parts[h][j] by {
        lemma_comparison_operator(ops[g], target, inner);
        lemma_comparison_operator(ops[h], target, inner);
        if parts[g][i] == parts[h][j] {
            lemma_comparison_named_once(ops[g], ops[h], parts[g][i].trait_name);
        }
    }
    lemma_flatten_no_duplicates(parts);
}

/// The declarations of the accumulation group differ from one another.
proof fn lemma_accumulation_group(target: Seq<char>, inner: Seq<char>)
    requires
        inner != "Self"@,
    ensures
        group_plan::<Accumulation>(target, inner).no_duplicates(),
{
    let ops = Accumulation::spec_supported(inner);
    let parts = ops.map_values(|op: Accumulation| op.spec_generate(target, inner));
    assert forall|g: int| 0 <= g < parts.len() implies (#[trigger] parts[g]).no_duplicates() by {
        lemma_accumulation_operator(ops[g], target, inner);
    }
    assert forall|g: int, h: int, i: int, j: int|
        #![trigger parts[g][i], parts[h][j]]
        0 <= g < h < parts.len() && 0 <= i < parts[g].len() && 0 <= j < parts[h].len()
            implies parts[g][i] != parts[h][j] by {
        lemma_accumulation_operator(ops[g], target, inner);
        lemma_accumulation_operator(ops[h], target, inner);
        if parts[g][i] == parts[h][j] {
            lemma_accumulation_named_once(ops[g], ops[h], parts[g][i].trait_name);
        }
    }
    lemma_flatten_no_duplicates(parts);
}

/// What is planned for one group holds no declaration twice.
proof fn lemma_planned_for_no_duplicates(
    group: Group,
    groups: Set<Group>,
    target: Seq<char>,
    inner: Seq<char>,
)
    requires
        is_primitive(inner),
    ensures
        planned_for(group, groups, target, inner).no_duplicates(),
{
    lemma_primitive_name(inner);
    match group {
        Group::Arithmetic => lemma_arithmetic_group(target, inner),
        Group::Bitwise => lemma_bitwise_group(target, inner),
        Group::Formatting => lemma_formatting_group(target, inner),
        Group::Comparison => lemma_comparison_group(target, inner),
        Group::Accumulation => lemma_accumulation_group(target, inner),
    }
}

/// What is planned for two groups shares no declaration.
proof fn lemma_groups_share_nothing(
    first: Group,
    second: Group,
    groups: Set<Group>,
    target: Seq<char>,
    inner: Seq<char>,
)
    requires
        first != second,
    ensures
        forall|i: int, j: int|
            0 <= i < planned_for(first, groups, target, inner).len() && 0 <= j < planned_for(
                second,
                groups,
                target,
                inner,
            ).len() ==> planned_for(first, groups, target, inner)[i] != planned_for(
                second,
                groups,
                target,
                inner,
            )[j],
{
    assert forall|i: int, j: int|
        0 <= i < planned_for(first, groups, target, inner).len() && 0 <= j < planned_for(
            second,
            groups,
            target,
            inner,
        ).len() implies planned_for(first, groups, target, inner)[i] != planned_for(
        second,
        groups,
        target,
        inner,
    )[j] by {
        lemma_planned_for_traits(first, groups, target, inner, i);
        lemma_planned_for_traits(second, groups, target, inner, j);
    }
}

/// A plan is the plans of the groups that were asked for, one after the
/// other, and it holds no declaration twice.
pub proof fn lemma_no_declaration_twice(target: Seq<char>, inner: Seq<char>, groups: Set<Group>)
    requires
        is_primitive(inner),
    ensures
        planned(target, inner, groups).no_duplicates(),
        planned(target, inner, Set::full()) == group_plan::<Arithmetic>(target, inner)
            + group_plan::<Bit>(target, inner) + group_plan::<Formatting>(target, inner)
            + group_plan::<Comparison>(target, inner) + group_plan::<Accumulation>(target, inner),
{
    let first = planned_for(Group::Arithmetic, groups, target, inner);
    let second = planned_for(Group::Bitwise, groups, target, inner);
    let third = planned_for(Group::Formatting, groups, target, inner);
    let fourth = planned_for(Group::Comparison, groups, target, inner);
    let fifth = planned_for(Group::Accumulation, groups, target, inner);
    lemma_planned_for_no_duplicates(Group::Arithmetic, groups, target, inner);
    lemma_planned_for_no_duplicates(Group::Bitwise, groups, target, inner);
    lemma_planned_for_no_duplicates(Group::Formatting, groups, target, inner);
    lemma_planned_for_no_duplicates(Group::Comparison, groups, target, inner);
    lemma_planned_for_no_duplicates(Group::Accumulation, groups, target, inner);

    lemma_groups_share_nothing(Group::Arithmetic, Group::Bitwise, groups, target, inner);
    lemma_no_dup_in_concat(first, second);

    lemma_groups_share_nothing(Group::Arithmetic, Group::Formatting, groups, target, inner);
    lemma_groups_share_nothing(Group::Bitwise, Group::Formatting, groups, target, inner);
    lemma_no_dup_in_concat(first + second, third);

    lemma_groups_share_nothing(Group::Arithmetic, Group::Comparison, groups, target, inner);
    lemma_groups_share_nothing(Group::Bitwise, Group::Comparison, groups, target, inner);
    lemma_groups_share_nothing(Group::Formatting, Group::Comparison, groups, target, inner);
    lemma_no_dup_in_concat(first + second + third, fourth);

    lemma_groups_share_nothing(Group::Arithmetic, Group::Accumulation, groups, target, inner);
    lemma_groups_share_nothing(Group::Bitwise, Group::Accumulation, groups, target, inner);
    lemma_groups_share_nothing(Group::Formatting, Group::Accumulation, groups, target, inner);
    lemma_groups_share_nothing(Group::Comparison, Group::Accumulation, groups, target, inner);
    lemma_no_dup_in_concat(first + second + third + fourth, fifth);
}

} // verus!
