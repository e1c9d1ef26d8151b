//! The arithmetic operators.

use crate::gen::ImplView;
use crate::gen::Sink;
use crate::gen::names_of;
use crate::ops::AssignOpData;
use crate::ops::Binary;
use crate::ops::BinaryView;
use crate::ops::Op;
use crate::ops::OpData;
use crate::ops::OpNames;
use crate::ops::is_bool;
use crate::ops::unsigned_like;
use crate::text::begins_with;
use crate::text::str_eq;
use vstd::prelude::*;

verus! {

/// An arithmetic operator.
#[derive(Clone, Copy, Debug, PartialEq, Eq)]
pub enum Arithmetic {
    Add,
    Sub,
    Mul,
    Div,
    Rem,
    Neg,
}

impl OpData for Arithmetic {
    open spec fn spec_trait_name(&self) -> Seq<char> {
        match self {
            Arithmetic::Add => "core::ops::Add"@,
            Arithmetic::Sub => "core::ops::Sub"@,
            Arithmetic::Mul => "core::ops::Mul"@,
            Arithmetic::Div => "core::ops::Div"@,
            Arithmetic::Rem => "core::ops::Rem"@,
            Arithmetic::Neg => "core::ops::Neg"@,
        }
    }

    open spec fn spec_fn_name(&self) -> Seq<char> {
        match self {
            Arithmetic::Add => "add"@,
            Arithmetic::Sub => "sub"@,
            Arithmetic::Mul => "mul"@,
            Arithmetic::Div => "div"@,
            Arithmetic::Rem => "rem"@,
            Arithmetic::Neg => "neg"@,
        }
    }

    open spec fn spec_assign(&self) -> Option<OpNames> {
        match self {
            Arithmetic::Add => Some(
                OpNames { trait_name: "core::ops::AddAssign"@, fn_name: "add_assign"@ },
            ),
            Arithmetic::Sub => Some(
                OpNames { trait_name: "core::ops::SubAssign"@, fn_name: "sub_assign"@ },
            ),
            Arithmetic::Mul => Some(
                OpNames { trait_name: "core::ops::MulAssign"@, fn_name: "mul_assign"@ },
            ),
            Arithmetic::Div => Some(
                OpNames { trait_name: "core::ops::DivAssign"@, fn_name: "div_assign"@ },
            ),
            Arithmetic::Rem => Some(
                OpNames { trait_name: "core::ops::RemAssign"@, fn_name: "rem_assign"@ },
            ),
            Arithmetic::Neg => None,
        }
    }

    fn trait_name(&self) -> (name: &'static str) {
        match self {
            Arithmetic::Add => "core::ops::Add",
            Arithmetic::Sub => "core::ops::Sub",
            Arithmetic::Mul => "core::ops::Mul",
            Arithmetic::Div => "core::ops::Div",
            Arithmetic::Rem => "core::ops::Rem",
            Arithmetic::Neg => "core::ops::Neg",
        }
    }

    fn fn_name(&self) -> (name: &'static str) {
        match self {
            Arithmetic::Add => "add",
            Arithmetic::Sub => "sub",
            Arithmetic::Mul => "mul",
            Arithmetic::Div => "div",
            Arithmetic::Rem => "rem",
            Arithmetic::Neg => "neg",
        }
    }

    fn assign(&self) -> (data: Option<AssignOpData>) {
        match self {
            Arithmetic::Add => Some(AssignOpData::new("core::ops::AddAssign", "add_assign")),
            Arithmetic::Sub => Some(AssignOpData::new("core::ops::SubAssign", "sub_assign")),
            Arithmetic::Mul => Some(AssignOpData::new("core::ops::MulAssign", "mul_assign")),
            Arithmetic::Div => Some(AssignOpData::new("core::ops::DivAssign", "div_assign")),
            Arithmetic::Rem => Some(AssignOpData::new("core::ops::RemAssign", "rem_assign")),
            Arithmetic::Neg => None,
        }
    }
}

impl Arithmetic {
    /// The orderings that are planned for this operator: none for negation,
    /// which takes no operand, and the three orderings of wrapper and inner
    /// type for a binary operator.
    pub open spec fn requests(&self, target: Seq<char>, inner: Seq<char>) -> Seq<BinaryView> {
        if self is Neg {
            seq![]
        } else {
            BinaryView::permutations(target, inner)
        }
    }
}

impl Op for Arithmetic {
    /// The boolean type has no arithmetic. An unsigned integer has every
    /// operator but negation. Every other type has all six.
    open spec fn spec_supported(inner: Seq<char>) -> Seq<Self> {
        if is_bool(inner) {
            seq![]
        } else if unsigned_like(inner) {
            seq![
                Arithmetic::Add,
                Arithmetic::Sub,
                Arithmetic::Mul,
                Arithmetic::Div,
                Arithmetic::Rem,
            ]
        } else {
            seq![
                Arithmetic::Add,
                Arithmetic::Sub,
                Arithmetic::Mul,
                Arithmetic::Div,
                Arithmetic::Rem,
                Arithmetic::Neg,
            ]
        }
    }

    /// Negation is declared once, for the wrapper. A binary operator is
    /// declared for the three orderings of wrapper and inner type.
    open spec fn spec_generate(&self, target: Seq<char>, inner: Seq<char>) -> Seq<ImplView> {
        if self is Neg {
            seq![ImplView::unary(names_of(self), target)]
        } else {
            ImplView::binary(names_of(self), self.spec_assign()->0, self.requests(target, inner))
        }
    }

    fn supported(inner: &str) -> (ops: Vec<Self>) {
        let ops = if str_eq(inner, "bool") {
            Vec::new()
        } else if begins_with(inner, 'u') {
            vec![
                Arithmetic::Add,
                Arithmetic::Sub,
                Arithmetic::Mul,
                Arithmetic::Div,
                Arithmetic::Rem,
            ]
        } else {
            vec![
                Arithmetic::Add,
                Arithmetic::Sub,
                Arithmetic::Mul,
                Arithmetic::Div,
                Arithmetic::Rem,
                Arithmetic::Neg,
            ]
        };
        assert(ops@ =~= Self::spec_supported(inner@));
        ops
    }

    fn generate(&self, sink: &mut Sink, target: &str, inner: &str) {
        match self {
            Arithmetic::Neg => {
                sink.unary(self, target);
                assert(sink@ =~= old(sink)@ + self.spec_generate(target@, inner@));
            },
            _ => {
                sink.binary(self, &Binary::permutations(target, inner));
            },
        }
    }
}

} // verus!
