//! The comparisons of a wrapper with its inner type.

use crate::gen::ImplView;
use crate::gen::Sink;
use crate::gen::names_of;
use crate::ops::AssignOpData;
use crate::ops::Comparing;
use crate::ops::ComparingView;
use crate::ops::Op;
use crate::ops::OpData;
use crate::ops::OpNames;
use crate::ops::comparing_views;
use crate::text::join;
use vstd::prelude::*;
use vstd::string::*;

verus! {

/// A comparison.
#[derive(Clone, Copy, Debug, PartialEq, Eq)]
pub enum Comparison {
    PartialEq,
    PartialOrd,
}

impl OpData for Comparison {
    open spec fn spec_trait_name(&self) -> Seq<char> {
        match self {
            Comparison::PartialEq => "PartialEq"@,
            Comparison::PartialOrd => "PartialOrd"@,
        }
    }

    open spec fn spec_fn_name(&self) -> Seq<char> {
        match self {
            Comparison::PartialEq => "eq"@,
            Comparison::PartialOrd => "partial_cmp"@,
        }
    }

    open spec fn spec_assign(&self) -> Option<OpNames> {
        None
    }

    fn trait_name(&self) -> (name: &'static str) {
        match self {
            Comparison::PartialEq => "PartialEq",
            Comparison::PartialOrd => "PartialOrd",
        }
    }

    fn fn_name(&self) -> (name: &'static str) {
        match self {
            Comparison::PartialEq => "eq",
            Comparison::PartialOrd => "partial_cmp",
        }
    }

    fn assign(&self) -> (data: Option<AssignOpData>) {
        None
    }
}

impl Comparison {
    /// The type of the comparison's result.
    pub open spec fn spec_ret_type(&self) -> Seq<char> {
        match self {
            Comparison::PartialEq => "bool"@,
            Comparison::PartialOrd => "Option<core::cmp::Ordering>"@,
        }
    }

    /// The expression that compares. The wrapper compares its inner value with
    /// the other side. With the sides swapped, the primitive compares itself
    /// with the wrapper's inner value, which the binding of the other side has
    /// taken out.
    pub open spec fn spec_impl_body(&self, swapped: bool) -> Seq<char> {
        match self {
            Comparison::PartialEq => if swapped {
                "self.eq(other)"@
            } else {
                "self.0.eq(other)"@
            },
            Comparison::PartialOrd => if swapped {
                "self.partial_cmp(other)"@
            } else {
                "self.0.partial_cmp(other)"@
            },
        }
    }

    /// The two orderings of the comparison: the wrapper with its inner type,
    /// and the inner type with the wrapper. A wrapper is never compared with a
    /// wrapper here.
    pub open spec fn requests(&self, target: Seq<char>, inner: Seq<char>) -> Seq<ComparingView> {
        seq![
            ComparingView {
                target,
                other_bind: "other"@,
                other_type: inner,
                body: self.spec_impl_body(false),
            },
            ComparingView {
                target: inner,
                other_bind: target + "(other)"@,
                other_type: target,
                body: self.spec_impl_body(true),
            },
        ]
    }

    /// Returns the type of the comparison's result.
    pub fn ret_type(&self) -> (name: &'static str)
        ensures
            name@ == self.spec_ret_type(),
    {
        match self {
            Comparison::PartialEq => "bool",
            Comparison::PartialOrd => "Option<core::cmp::Ordering>",
        }
    }

    /// Returns the expression that compares.
    pub fn impl_body(&self, swapped: bool) -> (body: &'static str)
        ensures
            body@ == self.spec_impl_body(swapped),
    {
        match self {
            Comparison::PartialEq => if swapped {
                "self.eq(other)"
            } else {
                "self.0.eq(other)"
            },
            Comparison::PartialOrd => if swapped {
                "self.partial_cmp(other)"
            } else {
                "self.0.partial_cmp(other)"
            },
        }
    }
}

impl Op for Comparison {
    /// Every inner type has both comparisons.
    open spec fn spec_supported(inner: Seq<char>) -> Seq<Self> {
        seq![Comparison::PartialEq, Comparison::PartialOrd]
    }

    /// A comparison is declared for its two orderings.
    open spec fn spec_generate(&self, target: Seq<char>, inner: Seq<char>) -> Seq<ImplView> {
        self.requests(target, inner).map_values(
            |c: ComparingView| ImplView::comparing(names_of(self), self.spec_ret_type(), c),
        )
    }

    fn supported(inner: &str) -> (ops: Vec<Self>) {
        let ops = vec![Comparison::PartialEq, Comparison::PartialOrd];
        assert(ops@ =~= Self::spec_supported(inner@));
        ops
    }

    fn generate(&self, sink: &mut Sink, target: &str, inner: &str) {
        let ops = [
            Comparing {
                target,
                other_bind: String::from_str("other"),
                other_type: inner,
                body: self.impl_body(false),
            },
            Comparing {
                target: inner,
                other_bind: join(target, "(other)"),
                other_type: target,
                body: self.impl_body(true),
            },
        ];
        assert(comparing_views(ops@) =~= self.requests(target@, inner@));
        sink.comparing(self, self.ret_type(), &ops);
        assert(sink@ =~= old(sink)@ + self.spec_generate(target@, inner@));
    }
}

} // verus!
