//! The formatting traits.

use crate::gen::ImplView;
use crate::gen::Sink;
use crate::gen::names_of;
use crate::ops::AssignOpData;
use crate::ops::Op;
use crate::ops::OpData;
use crate::ops::OpNames;
use crate::ops::is_bool;
use crate::ops::float_like;
use crate::text::begins_with;
use crate::text::str_eq;
use vstd::prelude::*;

verus! {

/// A formatting trait.
#[derive(Clone, Copy, Debug, PartialEq, Eq)]
pub enum Formatting {
    Debug,
    Display,
    Binary,
    Octal,
    LowerExp,
    LowerHex,
    UpperExp,
    UpperHex,
}

impl OpData for Formatting {
    open spec fn spec_trait_name(&self) -> Seq<char> {
        match self {
            Formatting::Debug => "core::fmt::Debug"@,
            Formatting::Display => "core::fmt::Display"@,
            Formatting::Binary => "core::fmt::Binary"@,
            Formatting::Octal => "core::fmt::Octal"@,
            Formatting::LowerExp => "core::fmt::LowerExp"@,
            Formatting::LowerHex => "core::fmt::LowerHex"@,
            Formatting::UpperExp => "core::fmt::UpperExp"@,
            Formatting::UpperHex => "core::fmt::UpperHex"@,
        }
    }

    /// Every formatting trait asks for the same function.
    open spec fn spec_fn_name(&self) -> Seq<char> {
        "fmt"@
    }

    open spec fn spec_assign(&self) -> Option<OpNames> {
        None
    }

    fn trait_name(&self) -> (name: &'static str) {
        match self {
            Formatting::Debug => "core::fmt::Debug",
            Formatting::Display => "core::fmt::Display",
            Formatting::Binary => "core::fmt::Binary",
            Formatting::Octal => "core::fmt::Octal",
            Formatting::LowerExp => "core::fmt::LowerExp",
            Formatting::LowerHex => "core::fmt::LowerHex",
            Formatting::UpperExp => "core::fmt::UpperExp",
            Formatting::UpperHex => "core::fmt::UpperHex",
        }
    }

    fn fn_name(&self) -> (name: &'static str) {
        "fmt"
    }

    fn assign(&self) -> (data: Option<AssignOpData>) {
        None
    }
}

impl Op for Formatting {
    /// The boolean type is shown by `Debug` and `Display` alone. A float also
    /// has the two exponent forms. Every other type has all eight traits.
    open spec fn spec_supported(inner: Seq<char>) -> Seq<Self> {
        if is_bool(inner) {
            seq![Formatting::Debug, Formatting::Display]
        } else if float_like(inner) {
            seq![
                Formatting::Debug,
                Formatting::Display,
                Formatting::LowerExp,
                Formatting::UpperExp,
            ]
        } else {
            seq![
                Formatting::Debug,
                Formatting::Display,
                Formatting::Binary,
                Formatting::Octal,
                Formatting::LowerExp,
                Formatting::LowerHex,
                Formatting::UpperExp,
                Formatting::UpperHex,
            ]
        }
    }

    /// A formatting trait is declared once, for the wrapper.
    open spec fn spec_generate(&self, target: Seq<char>, inner: Seq<char>) -> Seq<ImplView> {
        seq![ImplView::formatting(names_of(self), target)]
    }

    fn supported(inner: &str) -> (ops: Vec<Self>) {
        let ops = if str_eq(inner, "bool") {
            vec![Formatting::Debug, Formatting::Display]
        } else if begins_with(inner, 'f') {
            vec![
                Formatting::Debug,
                Formatting::Display,
                Formatting::LowerExp,
                Formatting::UpperExp,
            ]
        } else {
            vec![
                Formatting::Debug,
                Formatting::Display,
                Formatting::Binary,
                Formatting::Octal,
                Formatting::LowerExp,
                Formatting::LowerHex,
                Formatting::UpperExp,
                Formatting::UpperHex,
            ]
        };
        assert(ops@ =~= Self::spec_supported(inner@));
        ops
    }

    fn generate(&self, sink: &mut Sink, target: &str, inner: &str) {
        let ops = [*self];
        sink.formatting(target, &ops);
        assert(sink@ =~= old(sink)@ + self.spec_generate(target@, inner@));
    }
}

} // verus!
