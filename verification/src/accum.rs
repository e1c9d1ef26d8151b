//! The folds of a wrapper, declared from uniform requests.

use crate::gen::Impl;
use crate::gen::ImplView;
use crate::gen::impl_views;
use crate::ops::Accumulation;
use crate::ops::OpData;
use crate::ops::is_bool;
use crate::text::join3;
use crate::text::str_eq;
use crate::util::ImplSpec;
use crate::util::ImplSpecView;
use crate::util::RequestView;
use vstd::prelude::*;
use vstd::string::*;

verus! {

/// The three declarations of the fold `op` for the wrapper `target` of the
/// inner type `inner`.
///
/// Wrappers are folded into a wrapper by folding their inner values into one.
/// Primitives are folded into a wrapper by wrapping their fold. Wrappers are
/// folded into a primitive by unwrapping their fold.
pub open spec fn folded(op: Accumulation, target: Seq<char>, inner: Seq<char>) -> Seq<ImplView> {
    let path = op.spec_trait_name();
    let name = op.spec_fn_name();
    seq![
        RequestView::from_spec(
            ImplSpecView::Accum {
                target,
                element_type: "Self"@,
                body: "iter.map(|it| it.0)."@ + name + "()"@,
            },
        ).build(path, name),
        RequestView::from_spec(
            ImplSpecView::Accum {
                target,
                element_type: inner,
                body: "Self(iter."@ + name + "())"@,
            },
        ).build(path + "<"@ + inner + ">"@, name),
        RequestView::from_spec(
            ImplSpecView::Accum {
                target: inner,
                element_type: target,
                body: "iter."@ + name + "::<"@ + target + ">().0"@,
            },
        ).build(path + "<"@ + target + ">"@, name),
    ]
}

/// What `generate_accum` declares: nothing without arithmetic and nothing for
/// the boolean type, else the sum and then the product.
pub open spec fn accumulated(has_arith: bool, target: Seq<char>, inner: Seq<char>) -> Seq<
    ImplView,
> {
    if !has_arith || is_bool(inner) {
        seq![]
    } else {
        folded(Accumulation::Sum, target, inner) + folded(Accumulation::Product, target, inner)
    }
}

/// Declares the folds of the wrapper `target`. A fold rests on the operator
/// that it repeats, so none is declared where `has_arith` says that the
/// arithmetic operators are not declared.
pub fn generate_accum(decls: &mut Vec<Impl>, has_arith: bool, target: &str, inner: &str)
    ensures
        impl_views(final(decls)@) == impl_views(old(decls)@) + accumulated(
            has_arith,
            target@,
            inner@,
        ),
{
    if !has_arith || str_eq(inner, "bool") {
        assert(impl_views(decls@) =~= impl_views(old(decls)@) + accumulated(
            has_arith,
            target@,
            inner@,
        ));
        return ;
    }
    build(decls, Accumulation::Sum, target, inner);
    build(decls, Accumulation::Product, target, inner);
}

/// Declares the three orderings of the fold `op`.
fn build(decls: &mut Vec<Impl>, op: Accumulation, target: &str, inner: &str)
    ensures
        impl_views(final(decls)@) == impl_views(old(decls)@) + folded(op, target@, inner@),
{
    let path = op.trait_name();
    let name = op.fn_name();

    let first = crate::util::Impl::from(
        ImplSpec::Accum {
            target,
            element_type: "Self",
            body: join3("iter.map(|it| it.0).", name, "()"),
        },
    ).build(path, name);
    decls.push(first);

    let mut over_inner = join3(path, "<", inner);
    over_inner.append(">");
    let second = crate::util::Impl::from(
        ImplSpec::Accum { target, element_type: inner, body: join3("Self(iter.", name, "())") },
    ).build(over_inner.as_str(), name);
    decls.push(second);

    let mut over_target = join3(path, "<", target);
    over_target.append(">");
    let mut body = join3("iter.", name, "::<");
    body.append(target);
    body.append(">().0");
    let third = crate::util::Impl::from(
        ImplSpec::Accum { target: inner, element_type: target, body },
    ).build(over_target.as_str(), name);
    decls.push(third);

    assert(impl_views(decls@) =~= impl_views(old(decls)@) + folded(op, target@, inner@));
}

} // verus!
