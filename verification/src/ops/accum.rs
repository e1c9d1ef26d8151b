//! The folds over a sequence of values.

use crate::gen::ImplView;
use crate::gen::Sink;
use crate::gen::names_of;
use crate::ops::Accumulating;
use crate::ops::AccumulatingView;
use crate::ops::AssignOpData;
use crate::ops::Op;
use crate::ops::OpData;
use crate::ops::OpNames;
use crate::ops::accumulating_views;
use crate::ops::is_bool;
use crate::text::str_eq;
use vstd::prelude::*;

verus! {

/// A fold.
#[derive(Clone, Copy, Debug, PartialEq, Eq)]
pub enum Accumulation {
    Sum,
    Product,
}

impl OpData for Accumulation {
    open spec fn spec_trait_name(&self) -> Seq<char> {
        match self {
            Accumulation::Sum => "core::iter::Sum"@,
            Accumulation::Product => "core::iter::Product"@,
        }
    }

    open spec fn spec_fn_name(&self) -> Seq<char> {
        match self {
            Accumulation::Sum => "sum"@,
            Accumulation::Product => "product"@,
        }
    }

    open spec fn spec_assign(&self) -> Option<OpNames> {
        None
    }

    fn trait_name(&self) -> (name: &'static str) {
        match self {
            Accumulation::Sum => "core::iter::Sum",
            Accumulation::Product => "core::iter::Product",
        }
    }

    fn fn_name(&self) -> (name: &'static str) {
        match self {
            Accumulation::Sum => "sum",
            Accumulation::Product => "product",
        }
    }

    fn assign(&self) -> (data: Option<AssignOpData>) {
        None
    }
}

impl Op for Accumulation {
    /// The boolean type has no fold. Every other type has both.
    open spec fn spec_supported(inner: Seq<char>) -> Seq<Self> {
        if is_bool(inner) {
            seq![]
        } else {
            seq![Accumulation::Sum, Accumulation::Product]
        }
    }

    /// A fold is declared for its three orderings.
    open spec fn spec_generate(&self, target: Seq<char>, inner: Seq<char>) -> Seq<ImplView> {
        AccumulatingView::permutations(target, inner, self.spec_fn_name()).map_values(
            |a: AccumulatingView| ImplView::accumulating(names_of(self), a),
        )
    }

    fn supported(inner: &str) -> (ops: Vec<Self>) {
        let ops = if str_eq(inner, "bool") {
            Vec::new()
        } else {
            vec![Accumulation::Sum, Accumulation::Product]
        };
        assert(ops@ =~= Self::spec_supported(inner@));
        ops
    }

    fn generate(&self, sink: &mut Sink, target: &str, inner: &str) {
        let ops = [
            Accumulating::self_self(target, self.fn_name()),
            Accumulating::self_inner(target, inner, self.fn_name()),
            Accumulating::inner_self(target, inner, self.fn_name()),
        ];
        assert(accumulating_views(ops@) =~= AccumulatingView::permutations(
            target@,
            inner@,
            self.spec_fn_name(),
        ));
        sink.accumulating(self, &ops);
        assert(sink@ =~= old(sink)@ + self.spec_generate(target@, inner@));
    }
}

} // verus!
