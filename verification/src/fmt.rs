//! The formatting traits of a wrapper, declared from uniform requests.

use crate::gen::Impl;
use crate::gen::ImplView;
use crate::gen::impl_views;
use crate::ops::Formatting;
use crate::ops::Op;
use crate::ops::OpData;
use crate::text::join;
use crate::util::ImplSpec;
use crate::util::ImplSpecView;
use crate::util::RequestView;
use vstd::prelude::*;

verus! {

/// The declaration of the formatting trait `op` for the wrapper `target`: the
/// formatter of the inner value for the same trait.
pub open spec fn formatted(op: Formatting, target: Seq<char>) -> ImplView {
    RequestView::from_spec(
        ImplSpecView::Format { target, body: op.spec_trait_name() + "::fmt(&self.0, f)"@ },
    ).build(op.spec_trait_name(), "fmt"@)
}

/// Declares the formatting traits that apply to `inner` for the wrapper
/// `target`: `Debug` and `Display` for every type, the exponent forms for all
/// but the boolean type, and the forms of other bases for integers.
pub fn generate_fmt(decls: &mut Vec<Impl>, target: &str, inner: &str)
    ensures
        impl_views(final(decls)@) == impl_views(old(decls)@) + Formatting::spec_supported(
            inner@,
        ).map_values(|op: Formatting| formatted(op, target@)),
{
    let ops = Formatting::supported(inner);
    let n: usize = ops.len();
    let mut i: usize = 0;
    while i < n
        invariant
            n == ops@.len(),
            i <= n,
            decls@.len() == old(decls)@.len() + i,
            forall|j: int| 0 <= j < old(decls)@.len() ==> decls@[j] == old(decls)@[j],
            forall|j: int|
                0 <= j < i ==> decls@[old(decls)@.len() + j]@ == formatted(ops@[j], target@),
        decreases n - i,
    {
        let path = ops[i].trait_name();
        let body = join(path, "::fmt(&self.0, f)");
        let decl = crate::util::Impl::from(ImplSpec::Format { target, body: body.as_str() }).build(
            path,
            "fmt",
        );
        decls.push(decl);
        i = i + 1;
    }
    assert(impl_views(decls@) =~= impl_views(old(decls)@) + ops@.map_values(
        |op: Formatting| formatted(op, target@),
    ));
}

/// A formatting trait that is declared from a uniform request is declared as
/// the sink declares it.
pub proof fn lemma_formatted_as_the_sink_does(op: Formatting, target: Seq<char>)
    ensures
        formatted(op, target) == ImplView::formatting(crate::gen::names_of(&op), target),
{
}

} // verus!
