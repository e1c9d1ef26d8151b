//! Declarations and the sink that collects them.
//!
//! A declaration ([`Impl`]) describes one `impl` block: a trait, the type that
//! receives it, and the one function ([`Fn`]) in it. The [`Sink`] turns the
//! requests of every group into declarations of this one shape and keeps them
//! in the order in which they were asked for.

use crate::ops::Accumulating;
use crate::ops::AccumulatingView;
use crate::ops::Binary;
use crate::ops::BinaryView;
use crate::ops::Comparing;
use crate::ops::ComparingView;
use crate::ops::OpData;
use crate::ops::OpNames;
use crate::ops::accumulating_views;
use crate::ops::binary_views;
use crate::ops::comparing_views;
use crate::ops::lemma_assign_names;
use crate::ops::opt_view;
use crate::text::join;
use crate::text::join3;
use vstd::prelude::*;
use vstd::string::*;

verus! {

/// How a function takes the value that it is called on.
#[derive(Clone, Copy, Debug, PartialEq, Eq)]
pub enum Receiver {
    /// Not at all: an associated function.
    Absent,
    /// `self`
    ByValue,
    /// `mut self`
    ByValueMut,
    /// `&self`
    ByRef,
    /// `&mut self`
    ByRefMut,
}

/// A name with its type. For a type parameter, `ty` is its bound.
#[derive(Debug, PartialEq, Eq)]
pub struct Param {
    pub name: String,
    pub ty: String,
}

/// What a [`Param`] holds.
pub struct ParamView {
    pub name: Seq<char>,
    pub ty: Seq<char>,
}

impl View for Param {
    type V = ParamView;

    open spec fn view(&self) -> ParamView {
        ParamView { name: self.name@, ty: self.ty@ }
    }
}

/// What an optional [`Param`] holds.
pub open spec fn opt_param_view(param: Option<Param>) -> Option<ParamView> {
    match param {
        Some(param) => Some(param@),
        None => None,
    }
}

/// The function of a declaration.
#[derive(Debug, PartialEq, Eq)]
pub struct Fn {
    /// The function's name.
    pub name: String,
    /// How it takes `self`.
    pub receiver: Receiver,
    /// Its type parameter, if it has one.
    pub generic: Option<Param>,
    /// Its parameter besides `self`, if it has one.
    pub param: Option<Param>,
    /// The type that it returns, if it returns anything.
    pub ret: Option<String>,
    /// The text of its body.
    pub body: String,
}

/// What a [`Fn`] holds.
pub struct FnView {
    pub name: Seq<char>,
    pub receiver: Receiver,
    pub generic: Option<ParamView>,
    pub param: Option<ParamView>,
    pub ret: Option<Seq<char>>,
    pub body: Seq<char>,
}

impl View for Fn {
    type V = FnView;

    open spec fn view(&self) -> FnView {
        FnView {
            name: self.name@,
            receiver: self.receiver,
            generic: opt_param_view(self.generic),
            param: opt_param_view(self.param),
            ret: opt_view(self.ret),
            body: self.body@,
        }
    }
}

impl FnView {
    /// An associated function without parameters, result or body.
    pub open spec fn new(name: Seq<char>) -> FnView {
        FnView {
            name,
            receiver: Receiver::Absent,
            generic: None,
            param: None,
            ret: None,
            body: Seq::empty(),
        }
    }
}

impl Fn {
    /// Begins a function: an associated function without parameters, result
    /// or body.
    pub fn new(name: &str) -> (func: Self)
        ensures
            func@ == FnView::new(name@),
    {
        Fn {
            name: String::from_str(name),
            receiver: Receiver::Absent,
            generic: None,
            param: None,
            ret: None,
            body: String::new(),
        }
    }

    /// Sets how the function takes `self`.
    pub fn with_self(self, receiver: Receiver) -> (func: Self)
        ensures
            func@ == (FnView { receiver, ..self@ }),
    {
        Fn { receiver, ..self }
    }

    /// Sets the function's parameter.
    pub fn with_param(self, name: &str, ty: &str) -> (func: Self)
        ensures
            func@ == (FnView { param: Some(ParamView { name: name@, ty: ty@ }), ..self@ }),
    {
        Fn {
            param: Some(Param { name: String::from_str(name), ty: String::from_str(ty) }),
            ..self
        }
    }

    /// Sets the type that the function returns.
    pub fn return_type(self, ty: &str) -> (func: Self)
        ensures
            func@ == (FnView { ret: Some(ty@), ..self@ }),
    {
        Fn { ret: Some(String::from_str(ty)), ..self }
    }

    /// Gives the function a type parameter `name` with the bound `bound`.
    pub fn generic_type(self, name: &str, bound: &str) -> (func: Self)
        ensures
            func@ == (FnView { generic: Some(ParamView { name: name@, ty: bound@ }), ..self@ }),
    {
        Fn {
            generic: Some(Param { name: String::from_str(name), ty: String::from_str(bound) }),
            ..self
        }
    }

    /// Sets the text of the function's body.
    pub fn body(self, body: &str) -> (func: Self)
        ensures
            func@ == (FnView { body: body@, ..self@ }),
    {
        Fn { body: String::from_str(body), ..self }
    }
}

/// A declaration: one `impl` block of a trait for a type, with one function.
#[derive(Debug, PartialEq, Eq)]
pub struct Impl {
    /// The path of the trait.
    pub trait_name: String,
    /// The type that the trait is applied to, if it takes one.
    pub trait_generic: Option<String>,
    /// The type that receives the implementation.
    pub target: String,
    /// The associated type `Output`, if the trait has one.
    pub output: Option<String>,
    /// The function.
    pub func: Fn,
}

/// What an [`Impl`] holds.
pub struct ImplView {
    pub trait_name: Seq<char>,
    pub trait_generic: Option<Seq<char>>,
    pub target: Seq<char>,
    pub output: Option<Seq<char>>,
    pub func: FnView,
}

impl View for Impl {
    type V = ImplView;

    open spec fn view(&self) -> ImplView {
        ImplView {
            trait_name: self.trait_name@,
            trait_generic: opt_view(self.trait_generic),
            target: self.target@,
            output: opt_view(self.output),
            func: self.func@,
        }
    }
}

/// What a sequence of declarations holds.
pub open spec fn impl_views(decls: Seq<Impl>) -> Seq<ImplView> {
    decls.map_values(|decl: Impl| decl@)
}

/// The names under which `data` is declared.
pub open spec fn names_of<O: OpData>(data: &O) -> OpNames {
    OpNames { trait_name: data.spec_trait_name(), fn_name: data.spec_fn_name() }
}

impl Impl {
    /// Begins the declaration of `trait_name` for `target`, with `func` in it
    /// and without an associated type.
    pub fn new(trait_name: &str, trait_generic: Option<&str>, target: &str, func: Fn) -> (decl:
        Self)
        ensures
            decl@ == (ImplView {
                trait_name: trait_name@,
                trait_generic: match trait_generic {
                    Some(ty) => Some(ty@),
                    None => None,
                },
                target: target@,
                output: None,
                func: func@,
            }),
    {
        Impl {
            trait_name: String::from_str(trait_name),
            trait_generic: match trait_generic {
                Some(ty) => Some(String::from_str(ty)),
                None => None,
            },
            target: String::from_str(target),
            output: None,
            func,
        }
    }

    /// Sets the associated type `Output`.
    pub fn output_type(self, output: &str) -> (decl: Self)
        ensures
            decl@ == (ImplView { output: Some(output@), ..self@ }),
    {
        Impl { output: Some(String::from_str(output)), ..self }
    }
}

impl ImplView {
    /// The call that hands the work to a compound assignment: the assignment
    /// named by `assign`, applied to `place` and to the operand `rhs`.
    pub open spec fn delegation(assign: OpNames, place: Seq<char>) -> Seq<char> {
        assign.trait_name + "::"@ + assign.fn_name + "("@ + place + ", rhs);"@
    }

    /// The by-value form of the binary operator `op` for the ordering `b`. Its
    /// body only delegates to the compound assignment on the receiver, and then
    /// yields the receiver, wrapped where the ordering says so.
    pub open spec fn binary_base(op: OpNames, assign: OpNames, b: BinaryView) -> ImplView {
        ImplView {
            trait_name: op.trait_name,
            trait_generic: Some(b.rhs_type),
            target: b.target,
            output: Some(b.output),
            func: FnView {
                name: op.fn_name,
                receiver: Receiver::ByValueMut,
                generic: None,
                param: Some(ParamView { name: b.rhs_bind, ty: b.rhs_type }),
                ret: Some(b.output),
                body: Self::delegation(assign, "&mut "@ + b.lhs) + " "@ + (match b.base_ret {
                    Some(ret) => ret,
                    None => "self"@,
                }),
            },
        }
    }

    /// The compound assignment `assign` for the ordering `b`. It applies the
    /// primitive's own compound assignment to the place that `b` names.
    pub open spec fn binary_assign(assign: OpNames, b: BinaryView) -> ImplView {
        ImplView {
            trait_name: assign.trait_name,
            trait_generic: Some(b.rhs_type),
            target: b.target,
            output: None,
            func: FnView {
                name: assign.fn_name,
                receiver: Receiver::ByRefMut,
                generic: None,
                param: Some(ParamView { name: b.rhs_bind, ty: b.rhs_type }),
                ret: None,
                body: Self::delegation(
                    assign,
                    if b.lhs_mut {
                        "&mut "@ + b.lhs
                    } else {
                        b.lhs
                    },
                ),
            },
        }
    }

    /// All that is declared for the binary operator `op` and the orderings
    /// `ops`: the by-value form for each ordering, then the compound
    /// assignment for each.
    pub open spec fn binary(op: OpNames, assign: OpNames, ops: Seq<BinaryView>) -> Seq<
        ImplView,
    > {
        ops.map_values(|b: BinaryView| Self::binary_base(op, assign, b)) + ops.map_values(
            |b: BinaryView| Self::binary_assign(assign, b),
        )
    }

    /// The unary operator `op` for the wrapper `target`: the primitive's own
    /// operator applied to the inner value, which is then wrapped again.
    pub open spec fn unary(op: OpNames, target: Seq<char>) -> ImplView {
        ImplView {
            trait_name: op.trait_name,
            trait_generic: None,
            target,
            output: Some("Self"@),
            func: FnView {
                name: op.fn_name,
                receiver: Receiver::ByValueMut,
                generic: None,
                param: None,
                ret: Some("Self"@),
                body: "self.0 = "@ + op.trait_name + "::"@ + op.fn_name + "(self.0); self"@,
            },
        }
    }

    /// The comparison `op` for the ordering `c`, with the result type
    /// `ret_type`. The other side is taken by reference.
    pub open spec fn comparing(op: OpNames, ret_type: Seq<char>, c: ComparingView) -> ImplView {
        ImplView {
            trait_name: op.trait_name,
            trait_generic: Some(c.other_type),
            target: c.target,
            output: None,
            func: FnView {
                name: op.fn_name,
                receiver: Receiver::ByRef,
                generic: None,
                param: Some(ParamView { name: c.other_bind, ty: "&"@ + c.other_type }),
                ret: Some(ret_type),
                body: c.body,
            },
        }
    }

    /// The formatting trait `op` for the wrapper `target`: the primitive's own
    /// formatter for that trait, with the same destination.
    pub open spec fn formatting(op: OpNames, target: Seq<char>) -> ImplView {
        ImplView {
            trait_name: op.trait_name,
            trait_generic: None,
            target,
            output: None,
            func: FnView {
                name: op.fn_name,
                receiver: Receiver::ByRef,
                generic: None,
                param: Some(ParamView { name: "f"@, ty: "&mut core::fmt::Formatter<'_>"@ }),
                ret: Some("core::fmt::Result"@),
                body: op.trait_name + "::fmt(&self.0, f)"@,
            },
        }
    }

    /// The fold `op` for the ordering `a`: an associated function over any
    /// iterator of the element type.
    pub open spec fn accumulating(op: OpNames, a: AccumulatingView) -> ImplView {
        ImplView {
            trait_name: op.trait_name,
            trait_generic: Some(a.element_type),
            target: a.target,
            output: None,
            func: FnView {
                name: op.fn_name,
                receiver: Receiver::Absent,
                generic: Some(
                    ParamView { name: "I"@, ty: "Iterator<Item = "@ + a.element_type + ">"@ },
                ),
                param: Some(ParamView { name: "iter"@, ty: "I"@ }),
                ret: Some("Self"@),
                body: a.body,
            },
        }
    }
}

/// Writes the call that hands the work to a compound assignment.
fn delegate(assign_trait: &str, assign_fn: &str, place: &str) -> (call: String)
    ensures
        call@ == ImplView::delegation(
            OpNames { trait_name: assign_trait@, fn_name: assign_fn@ },
            place@,
        ),
{
    let mut call = join3(assign_trait, "::", assign_fn);
    call.append("(");
    call.append(place);
    call.append(", rhs);");
    call
}

/// Collects declarations in the order in which they are asked for.
pub struct Sink {
    decls: Vec<Impl>,
}

impl View for Sink {
    type V = Seq<ImplView>;

    closed spec fn view(&self) -> Seq<ImplView> {
        impl_views(self.decls@)
    }
}

impl Sink {
    /// Makes a sink that holds nothing.
    pub fn new() -> (sink: Self)
        ensures
            sink@ == Seq::<ImplView>::empty(),
    {
        let sink = Sink { decls: Vec::new() };
        assert(sink@ =~= Seq::<ImplView>::empty());
        sink
    }

    /// Declares the binary operator `data` for each ordering in `ops`: first
    /// every by-value form, then every compound assignment.
    pub fn binary<O: OpData>(&mut self, data: &O, ops: &[Binary]) -> (sink: &mut Self)
        requires
            data.spec_assign() is Some,
        ensures
            sink@ == old(self)@ + ImplView::binary(
                names_of(data),
                data.spec_assign()->0,
                binary_views(ops@),
            ),
            *final(self) == *final(sink),
    {
        let assign_data = data.assign().unwrap();
        proof {
            lemma_assign_names(assign_data);
        }
        let ghost op = names_of(data);
        let ghost assign = data.spec_assign()->0;
        let ghost reqs = binary_views(ops@);
        let n: usize = ops.len();

        let mut i: usize = 0;
        while i < n
            invariant
                n == ops@.len(),
                i <= n,
                reqs == binary_views(ops@),
                op == names_of(data),
                assign == (OpNames {
                    trait_name: assign_data.spec_trait_name(),
                    fn_name: assign_data.spec_fn_name(),
                }),
                self@.len() == old(self)@.len() + i,
                forall|j: int| 0 <= j < old(self)@.len() ==> self@[j] == old(self)@[j],
                forall|j: int|
                    0 <= j < i ==> self@[old(self)@.len() + j] == ImplView::binary_base(
                        op,
                        assign,
                        reqs[j],
                    ),
            decreases n - i,
        {
            let b = &ops[i];
            let place = join("&mut ", b.lhs);
            let mut body = delegate(assign_data.trait_name(), assign_data.fn_name(), place.as_str());
            body.append(" ");
            match &b.base_ret {
                Some(ret) => body.append(ret.as_str()),
                None => body.append("self"),
            }
            let func = Fn::new(data.fn_name()).with_self(Receiver::ByValueMut).with_param(
                b.rhs_bind.as_str(),
                b.rhs_type,
            ).return_type(b.output).body(body.as_str());
            let decl = Impl::new(data.trait_name(), Some(b.rhs_type), b.target, func).output_type(
                b.output,
            );
            assert(decl@ == ImplView::binary_base(op, assign, reqs[i as int]));
            self.push_impl(decl);
            i = i + 1;
        }

        let ghost mid = self@;
        let mut i: usize = 0;
        while i < n
            invariant
                n == ops@.len(),
                i <= n,
                reqs == binary_views(ops@),
                assign == (OpNames {
                    trait_name: assign_data.spec_trait_name(),
                    fn_name: assign_data.spec_fn_name(),
                }),
                self@.len() == mid.len() + i,
                forall|j: int| 0 <= j < mid.len() ==> self@[j] == mid[j],
                forall|j: int|
                    0 <= j < i ==> self@[mid.len() + j] == ImplView::binary_assign(
                        assign,
                        reqs[j],
                    ),
            decreases n - i,
        {
            let b = &ops[i];
            let body = if b.lhs_mut {
                let place = join("&mut ", b.lhs);
                delegate(assign_data.trait_name(), assign_data.fn_name(), place.as_str())
            } else {
                delegate(assign_data.trait_name(), assign_data.fn_name(), b.lhs)
            };
            let func = Fn::new(assign_data.fn_name()).with_self(Receiver::ByRefMut).with_param(
                b.rhs_bind.as_str(),
                b.rhs_type,
            ).body(body.as_str());
            let decl = Impl::new(assign_data.trait_name(), Some(b.rhs_type), b.target, func);
            assert(decl@ == ImplView::binary_assign(assign, reqs[i as int]));
            self.push_impl(decl);
            i = i + 1;
        }
        assert(self@ =~= old(self)@ + ImplView::binary(op, assign, reqs));
        self
    }

    /// Declares the unary operator `data` for the wrapper `target`.
    pub fn unary<O: OpData>(&mut self, data: &O, target: &str)
        ensures
            final(self)@ == old(self)@.push(ImplView::unary(names_of(data), target@)),
    {
        let mut body = join3("self.0 = ", data.trait_name(), "::");
        body.append(data.fn_name());
        body.append("(self.0); self");
        let func = Fn::new(data.fn_name()).with_self(Receiver::ByValueMut).return_type(
            "Self",
        ).body(body.as_str());
        let decl = Impl::new(data.trait_name(), None, target, func).output_type("Self");
        self.push_impl(decl);
    }

    /// Declares the comparison `data`, whose result is of the type
    /// `ret_type`, for each ordering in `ops`.
    pub fn comparing<O: OpData>(&mut self, data: &O, ret_type: &str, ops: &[Comparing])
        ensures
            final(self)@ == old(self)@ + comparing_views(ops@).map_values(
                |c: ComparingView| ImplView::comparing(names_of(data), ret_type@, c),
            ),
    {
        let ghost op = names_of(data);
        let ghost reqs = comparing_views(ops@);
        let n: usize = ops.len();
        let mut i: usize = 0;
        while i < n
            invariant
                n == ops@.len(),
                i <= n,
                reqs == comparing_views(ops@),
                op == names_of(data),
                self@.len() == old(self)@.len() + i,
                forall|j: int| 0 <= j < old(self)@.len() ==> self@[j] == old(self)@[j],
                forall|j: int|
                    0 <= j < i ==> self@[old(self)@.len() + j] == ImplView::comparing(
                        op,
                        ret_type@,
                        reqs[j],
                    ),
            decreases n - i,
        {
            let c = &ops[i];
            let other = join("&", c.other_type);
            let func = Fn::new(data.fn_name()).with_self(Receiver::ByRef).with_param(
                c.other_bind.as_str(),
                other.as_str(),
            ).return_type(ret_type).body(c.body);
            let decl = Impl::new(data.trait_name(), Some(c.other_type), c.target, func);
            assert(decl@ == ImplView::comparing(op, ret_type@, reqs[i as int]));
            self.push_impl(decl);
            i = i + 1;
        }
        assert(self@ =~= old(self)@ + reqs.map_values(
            |c: ComparingView| ImplView::comparing(op, ret_type@, c),
        ));
    }

    /// Declares each formatting trait in `ops` for the wrapper `target`.
    pub fn formatting<O: OpData>(&mut self, target: &str, ops: &[O])
        ensures
            final(self)@ == old(self)@ + ops@.map_values(
                |op: O| ImplView::formatting(names_of(&op), target@),
            ),
    {
        let n: usize = ops.len();
        let mut i: usize = 0;
        while i < n
            invariant
                n == ops@.len(),
                i <= n,
                self@.len() == old(self)@.len() + i,
                forall|j: int| 0 <= j < old(self)@.len() ==> self@[j] == old(self)@[j],
                forall|j: int|
                    0 <= j < i ==> self@[old(self)@.len() + j] == ImplView::formatting(
                        names_of(&ops@[j]),
                        target@,
                    ),
            decreases n - i,
        {
            let op = &ops[i];
            let body = join(op.trait_name(), "::fmt(&self.0, f)");
            let func = Fn::new(op.fn_name()).with_self(Receiver::ByRef).with_param(
                "f",
                "&mut core::fmt::Formatter<'_>",
            ).return_type("core::fmt::Result").body(body.as_str());
            let decl = Impl::new(op.trait_name(), None, target, func);
            self.push_impl(decl);
            i = i + 1;
        }
        assert(self@ =~= old(self)@ + ops@.map_values(
            |op: O| ImplView::formatting(names_of(&op), target@),
        ));
    }

    /// Declares the fold `data` for each ordering in `ops`.
    pub fn accumulating<O: OpData>(&mut self, data: &O, ops: &[Accumulating])
        ensures
            final(self)@ == old(self)@ + accumulating_views(ops@).map_values(
                |a: AccumulatingView| ImplView::accumulating(names_of(data), a),
            ),
    {
        let ghost op = names_of(data);
        let ghost reqs = accumulating_views(ops@);
        let n: usize = ops.len();
        let mut i: usize = 0;
        while i < n
            invariant
                n == ops@.len(),
                i <= n,
                reqs == accumulating_views(ops@),
                op == names_of(data),
                self@.len() == old(self)@.len() + i,
                forall|j: int| 0 <= j < old(self)@.len() ==> self@[j] == old(self)@[j],
                forall|j: int|
                    0 <= j < i ==> self@[old(self)@.len() + j] == ImplView::accumulating(
                        op,
                        reqs[j],
                    ),
            decreases n - i,
        {
            let a = &ops[i];
            let bound = join3("Iterator<Item = ", a.element_type, ">");
            let func = Fn::new(data.fn_name()).generic_type("I", bound.as_str()).with_param(
                "iter",
                "I",
            ).return_type("Self").body(a.body.as_str());
            let decl = Impl::new(data.trait_name(), Some(a.element_type), a.target, func);
            assert(decl@ == ImplView::accumulating(op, reqs[i as int]));
            self.push_impl(decl);
            i = i + 1;
        }
        assert(self@ =~= old(self)@ + reqs.map_values(
            |a: AccumulatingView| ImplView::accumulating(op, a),
        ));
    }

    /// Appends one declaration.
    fn push_impl(&mut self, decl: Impl)
        ensures
            final(self)@ == old(self)@.push(decl@),
    {
        self.decls.push(decl);
        assert(self@ =~= old(self)@.push(decl@));
    }

    /// Hands the declarations out, in the order in which they were asked for.
    pub fn finish(self) -> (decls: Vec<Impl>)
        ensures
            impl_views(decls@) == self@,
    {
        self.decls
    }
}

} // verus!
