//! The comparisons of a wrapper with its inner type, declared from uniform
//! requests.

use crate::gen::Impl;
use crate::gen::ImplView;
use crate::gen::impl_views;
use crate::ops::Comparison;
use crate::ops::OpData;
use crate::text::join3;
use crate::util::ImplSpec;
use crate::util::ImplSpecView;
use crate::util::RequestView;
use vstd::prelude::*;

verus! {

/// The declaration of one comparison of `target` with a value of the type
/// `other_type`.
pub open spec fn compared(
    op: Comparison,
    target: Seq<char>,
    other_type: Seq<char>,
    body: Seq<char>,
) -> ImplView {
    RequestView::from_spec(
        ImplSpecView::Comparison { target, other_type, ret_type: op.spec_ret_type(), body },
    ).build(op.spec_trait_name(), op.spec_fn_name())
}

/// The two declarations of the comparison `op` between the wrapper `target`
/// and the type `other`: the wrapper compares its inner value with the other
/// side, and the other type compares itself with the wrapper's inner value.
pub open spec fn compared_both(op: Comparison, target: Seq<char>, other: Seq<char>) -> Seq<
    ImplView,
> {
    seq![
        compared(op, target, other, "self.0."@ + op.spec_fn_name() + "(other)"@),
        compared(op, other, target, "self."@ + op.spec_fn_name() + "(&other.0)"@),
    ]
}

/// Declares equality and order between the wrapper `target` and the type
/// `other`, each in both directions.
pub fn generate_cmp(decls: &mut Vec<Impl>, target: &str, other: &str)
    ensures
        impl_views(final(decls)@) == impl_views(old(decls)@) + compared_both(
            Comparison::PartialEq,
            target@,
            other@,
        ) + compared_both(Comparison::PartialOrd, target@, other@),
{
    both(decls, Comparison::PartialEq, target, other);
    both(decls, Comparison::PartialOrd, target, other);
}

/// Declares the comparison `op` in both directions.
fn both(decls: &mut Vec<Impl>, op: Comparison, target: &str, other: &str)
    ensures
        impl_views(final(decls)@) == impl_views(old(decls)@) + compared_both(
            op,
            target@,
            other@,
        ),
{
    let direct = join3("self.0.", op.fn_name(), "(other)");
    let swapped = join3("self.", op.fn_name(), "(&other.0)");
    gen_cmp(decls, op.trait_name(), op.fn_name(), target, other, op.ret_type(), direct.as_str());
    gen_cmp(decls, op.trait_name(), op.fn_name(), other, target, op.ret_type(), swapped.as_str());
    assert(impl_views(decls@) =~= impl_views(old(decls)@) + compared_both(op, target@, other@));
}

/// Declares one comparison of `target` with a value of the type `other_type`.
fn gen_cmp(
    decls: &mut Vec<Impl>,
    trait_name: &str,
    fn_name: &str,
    target: &str,
    other_type: &str,
    ret_type: &str,
    body: &str,
)
    ensures
        impl_views(final(decls)@) == impl_views(old(decls)@).push(
            RequestView::from_spec(
                ImplSpecView::Comparison {
                    target: target@,
                    other_type: other_type@,
                    ret_type: ret_type@,
                    body: body@,
                },
            ).build(trait_name@, fn_name@),
        ),
{
    let decl = crate::util::Impl::from(
        ImplSpec::Comparison { target, other_type, ret_type, body },
    ).build(trait_name, fn_name);
    decls.push(decl);
    assert(impl_views(decls@) =~= impl_views(old(decls)@).push(decl@));
}

} // verus!
