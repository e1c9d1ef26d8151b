//! The bitwise operators.

use crate::gen::ImplView;
use crate::gen::Sink;
use crate::gen::names_of;
use crate::ops::AssignOpData;
use crate::ops::Binary;
use crate::ops::BinaryView;
use crate::ops::Op;
use crate::ops::OpData;
use crate::ops::OpNames;
use crate::ops::int_type_names;
use crate::ops::int_types;
use crate::ops::is_bool;
use crate::ops::float_like;
use crate::ops::is_int;
use crate::ops::name_views;
use crate::ops::names_int;
use crate::text::begins_with;
use crate::text::str_eq;
use vstd::prelude::*;

verus! {

/// A bitwise operator.
#[derive(Clone, Copy, Debug, PartialEq, Eq)]
pub enum Bit {
    BitAnd,
    BitOr,
    BitXor,
    Shl,
    Shr,
    Not,
}

impl OpData for Bit {
    open spec fn spec_trait_name(&self) -> Seq<char> {
        match self {
            Bit::BitAnd => "core::ops::BitAnd"@,
            Bit::BitOr => "core::ops::BitOr"@,
            Bit::BitXor => "core::ops::BitXor"@,
            Bit::Shl => "core::ops::Shl"@,
            Bit::Shr => "core::ops::Shr"@,
            Bit::Not => "core::ops::Not"@,
        }
    }

    open spec fn spec_fn_name(&self) -> Seq<char> {
        match self {
            Bit::BitAnd => "bitand"@,
            Bit::BitOr => "bitor"@,
            Bit::BitXor => "bitxor"@,
            Bit::Shl => "shl"@,
            Bit::Shr => "shr"@,
            Bit::Not => "not"@,
        }
    }

    open spec fn spec_assign(&self) -> Option<OpNames> {
        match self {
            Bit::BitAnd => Some(
                OpNames { trait_name: "core::ops::BitAndAssign"@, fn_name: "bitand_assign"@ },
            ),
            Bit::BitOr => Some(
                OpNames { trait_name: "core::ops::BitOrAssign"@, fn_name: "bitor_assign"@ },
            ),
            Bit::BitXor => Some(
                OpNames { trait_name: "core::ops::BitXorAssign"@, fn_name: "bitxor_assign"@ },
            ),
            Bit::Shl => Some(
                OpNames { trait_name: "core::ops::ShlAssign"@, fn_name: "shl_assign"@ },
            ),
            Bit::Shr => Some(
                OpNames { trait_name: "core::ops::ShrAssign"@, fn_name: "shr_assign"@ },
            ),
            Bit::Not => None,
        }
    }

    fn trait_name(&self) -> (name: &'static str) {
        match self {
            Bit::BitAnd => "core::ops::BitAnd",
            Bit::BitOr => "core::ops::BitOr",
            Bit::BitXor => "core::ops::BitXor",
            Bit::Shl => "core::ops::Shl",
            Bit::Shr => "core::ops::Shr",
            Bit::Not => "core::ops::Not",
        }
    }

    fn fn_name(&self) -> (name: &'static str) {
        match self {
            Bit::BitAnd => "bitand",
            Bit::BitOr => "bitor",
            Bit::BitXor => "bitxor",
            Bit::Shl => "shl",
            Bit::Shr => "shr",
            Bit::Not => "not",
        }
    }

    fn assign(&self) -> (data: Option<AssignOpData>) {
        match self {
            Bit::BitAnd => Some(AssignOpData::new("core::ops::BitAndAssign", "bitand_assign")),
            Bit::BitOr => Some(AssignOpData::new("core::ops::BitOrAssign", "bitor_assign")),
            Bit::BitXor => Some(AssignOpData::new("core::ops::BitXorAssign", "bitxor_assign")),
            Bit::Shl => Some(AssignOpData::new("core::ops::ShlAssign", "shl_assign")),
            Bit::Shr => Some(AssignOpData::new("core::ops::ShrAssign", "shr_assign")),
            Bit::Not => None,
        }
    }
}

impl Bit {
    /// Whether this is one of the two shifts.
    pub open spec fn is_shift(&self) -> bool {
        self is Shl || self is Shr
    }

    /// The orderings of a shift between the wrapper `target` and the types
    /// `widths`, but for the inner type itself: for each type, the wrapper
    /// shifted by it, and it shifted by the wrapper.
    pub open spec fn shift_matrix(
        target: Seq<char>,
        inner: Seq<char>,
        widths: Seq<Seq<char>>,
    ) -> Seq<Seq<BinaryView>>
        decreases widths.len(),
    {
        if widths.len() == 0 {
            seq![]
        } else if widths.last() == inner {
            Self::shift_matrix(target, inner, widths.drop_last())
        } else {
            Self::shift_matrix(target, inner, widths.drop_last()).push(
                BinaryView::inner_permutations(target, inner, widths.last()),
            )
        }
    }

    /// The orderings of a shift, in groups that are declared one after the
    /// other. The count of a shift need not be of the type that is shifted. So
    /// an integer wrapper is shifted by itself, and by and with every other
    /// integer type. A wrapper of another type has the three orderings with
    /// its inner type, and is shifted by and with every integer type.
    pub open spec fn shift_requests(target: Seq<char>, inner: Seq<char>) -> Seq<
        Seq<BinaryView>,
    > {
        seq![
            if is_int(inner) {
                seq![BinaryView::self_self(target)]
            } else {
                BinaryView::permutations(target, inner)
            },
        ] + Self::shift_matrix(target, inner, int_type_names())
    }
}

impl Bit {
    /// The orderings that are planned for this operator: none for negation,
    /// those of `shift_requests` for a shift, and the three orderings of
    /// wrapper and inner type for any other operator.
    pub open spec fn requests(&self, target: Seq<char>, inner: Seq<char>) -> Seq<BinaryView> {
        if self is Not {
            seq![]
        } else if self.is_shift() {
            Self::shift_requests(target, inner).flatten()
        } else {
            BinaryView::permutations(target, inner)
        }
    }
}

impl Op for Bit {
    /// The boolean type has the three logical operators and negation. A float
    /// has no bitwise operator. Every other type has all six.
    open spec fn spec_supported(inner: Seq<char>) -> Seq<Self> {
        if is_bool(inner) {
            seq![Bit::BitAnd, Bit::BitOr, Bit::BitXor, Bit::Not]
        } else if float_like(inner) {
            seq![]
        } else {
            seq![Bit::BitAnd, Bit::BitOr, Bit::BitXor, Bit::Shl, Bit::Shr, Bit::Not]
        }
    }

    /// Negation is declared once, for the wrapper. A shift is declared for
    /// each group of `shift_requests`. Any other operator is declared for the
    /// three orderings of wrapper and inner type.
    open spec fn spec_generate(&self, target: Seq<char>, inner: Seq<char>) -> Seq<ImplView> {
        if self is Not {
            seq![ImplView::unary(names_of(self), target)]
        } else if self.is_shift() {
            Self::shift_requests(target, inner).map_values(
                |ops: Seq<BinaryView>|
                    ImplView::binary(names_of(self), self.spec_assign()->0, ops),
            ).flatten()
        } else {
            ImplView::binary(names_of(self), self.spec_assign()->0, self.requests(target, inner))
        }
    }

    fn supported(inner: &str) -> (ops: Vec<Self>) {
        let ops = if str_eq(inner, "bool") {
            vec![Bit::BitAnd, Bit::BitOr, Bit::BitXor, Bit::Not]
        } else if begins_with(inner, 'f') {
            Vec::new()
        } else {
            vec![Bit::BitAnd, Bit::BitOr, Bit::BitXor, Bit::Shl, Bit::Shr, Bit::Not]
        };
        assert(ops@ =~= Self::spec_supported(inner@));
        ops
    }

    fn generate(&self, sink: &mut Sink, target: &str, inner: &str) {
        match self {
            Bit::Not => {
                sink.unary(self, target);
                assert(sink@ =~= old(sink)@ + self.spec_generate(target@, inner@));
            },
            Bit::Shl | Bit::Shr => {
                let ghost op = names_of(self);
                let ghost assign = self.spec_assign()->0;
                let ghost first = if is_int(inner@) {
                    seq![BinaryView::self_self(target@)]
                } else {
                    BinaryView::permutations(target@, inner@)
                };
                if names_int(inner) {
                    let ops = [Binary::self_self(target)];
                    assert(crate::ops::binary_views(ops@) =~= first);
                    sink.binary(self, &ops);
                } else {
                    sink.binary(self, &Binary::permutations(target, inner));
                }
                proof {
                    let parts = seq![first].map_values(
                        |ops: Seq<BinaryView>| ImplView::binary(op, assign, ops),
                    );
                    assert(parts =~= seq![ImplView::binary(op, assign, first)]);
                    parts.lemma_flatten_one_element();
                }

                let widths = int_types();
                let mut i: usize = 0;
                while i < 12
                    invariant
                        i <= 12,
                        widths@.len() == 12,
                        name_views(widths@) == int_type_names(),
                        op == names_of(self),
                        self.spec_assign() == Some(assign),
                        sink@ == old(sink)@ + (seq![first] + Self::shift_matrix(
                            target@,
                            inner@,
                            int_type_names().take(i as int),
                        )).map_values(
                            |ops: Seq<BinaryView>| ImplView::binary(op, assign, ops),
                        ).flatten(),
                    decreases 12 - i,
                {
                    let width = widths[i];
                    proof {
                        assert(name_views(widths@)[i as int] == width@);
                        let next = int_type_names().take(i + 1);
                        assert(next.drop_last() =~= int_type_names().take(i as int));
                        assert(next.last() == width@);
                    }
                    if !str_eq(width, inner) {
                        proof {
                            let done = seq![first] + Self::shift_matrix(
                                target@,
                                inner@,
                                int_type_names().take(i as int),
                            );
                            let step = BinaryView::inner_permutations(target@, inner@, width@);
                            let parts = done.map_values(
                                |ops: Seq<BinaryView>| ImplView::binary(op, assign, ops),
                            );
                            assert((seq![first] + Self::shift_matrix(
                                target@,
                                inner@,
                                int_type_names().take(i + 1),
                            )).map_values(
                                |ops: Seq<BinaryView>| ImplView::binary(op, assign, ops),
                            ) =~= parts.push(ImplView::binary(op, assign, step)));
                            parts.lemma_flatten_push(ImplView::binary(op, assign, step));
                        }
                        sink.binary(self, &Binary::inner_permutations(target, inner, width));
                    }
                    i = i + 1;
                }
                assert(int_type_names().take(12) =~= int_type_names());
            },
            _ => {
                sink.binary(self, &Binary::permutations(target, inner));
            },
        }
    }
}

} // verus!
