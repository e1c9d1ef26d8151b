//! Requests in one uniform shape.
//!
//! The groups ask for implementations in six shapes ([`ImplSpec`]). Each is
//! brought into one record ([`Impl`]) that says who receives the
//! implementation, how the function takes `self`, what its parameter and its
//! result are, and whether the trait is applied to the parameter's type. From
//! that record and the names of an operation a declaration is built.

use crate::gen::Fn;
use crate::gen::FnView;
use crate::gen::ImplView;
use crate::gen::Param;
use crate::gen::ParamView;
use crate::gen::Receiver;
use crate::gen::impl_views;
use crate::gen::opt_param_view;
use crate::ops::OpData;
use crate::ops::OpNames;
use crate::text::join;
use crate::text::join3;
use crate::text::str_eq;
use crate::text::trim_start;
use crate::text::trimmed_start;
use vstd::prelude::*;
use vstd::string::*;

verus! {

/// The characters of an optional string slice.
pub open spec fn opt_str_view(s: Option<&str>) -> Option<Seq<char>> {
    match s {
        Some(s) => Some(s@),
        None => None,
    }
}

/// A request for an implementation, in the shape of the group that makes it.
#[allow(inconsistent_fields)]
pub enum ImplSpec<'a> {
    /// A binary operator by value.
    Binary {
        target: &'a str,
        output: Option<&'a str>,
        operand_bind: String,
        operand_type: &'a str,
        body: String,
    },
    /// A compound assignment.
    Assign { target: &'a str, operand_bind: String, operand_type: &'a str, expr: String },
    /// A unary operator.
    Unary { target: &'a str, body: String },
    /// A comparison with a value of another type.
    Comparison { target: &'a str, other_type: &'a str, ret_type: &'a str, body: &'a str },
    /// A formatting trait.
    Format { target: &'a str, body: &'a str },
    /// A fold over a sequence of values.
    Accum { target: &'a str, element_type: &'a str, body: String },
}

/// What an [`ImplSpec`] holds.
pub enum ImplSpecView {
    Binary {
        target: Seq<char>,
        output: Option<Seq<char>>,
        operand_bind: Seq<char>,
        operand_type: Seq<char>,
        body: Seq<char>,
    },
    Assign { target: Seq<char>, operand_bind: Seq<char>, operand_type: Seq<char>, expr: Seq<char> },
    Unary { target: Seq<char>, body: Seq<char> },
    Comparison { target: Seq<char>, other_type: Seq<char>, ret_type: Seq<char>, body: Seq<char> },
    Format { target: Seq<char>, body: Seq<char> },
    Accum { target: Seq<char>, element_type: Seq<char>, body: Seq<char> },
}

impl<'a> View for ImplSpec<'a> {
    type V = ImplSpecView;

    open spec fn view(&self) -> ImplSpecView {
        match *self {
            ImplSpec::Binary { target, output, operand_bind, operand_type, body } => {
                ImplSpecView::Binary {
                    target: target@,
                    output: opt_str_view(output),
                    operand_bind: operand_bind@,
                    operand_type: operand_type@,
                    body: body@,
                }
            },
            ImplSpec::Assign { target, operand_bind, operand_type, expr } => ImplSpecView::Assign {
                target: target@,
                operand_bind: operand_bind@,
                operand_type: operand_type@,
                expr: expr@,
            },
            ImplSpec::Unary { target, body } => ImplSpecView::Unary {
                target: target@,
                body: body@,
            },
            ImplSpec::Comparison { target, other_type, ret_type, body } => {
                ImplSpecView::Comparison {
                    target: target@,
                    other_type: other_type@,
                    ret_type: ret_type@,
                    body: body@,
                }
            },
            ImplSpec::Format { target, body } => ImplSpecView::Format {
                target: target@,
                body: body@,
            },
            ImplSpec::Accum { target, element_type, body } => ImplSpecView::Accum {
                target: target@,
                element_type: element_type@,
                body: body@,
            },
        }
    }
}

/// A request in the uniform shape.
pub struct Impl<'a> {
    /// The type that receives the implementation.
    pub target: &'a str,
    /// The associated type `Output`, if the trait has one.
    pub output: Option<&'a str>,
    /// How the function takes `self`.
    pub self_arg: Receiver,
    /// Whether a `self` taken by value is mutable.
    pub mut_self: bool,
    /// The function's type parameter, if it has one.
    pub generic: Option<Param>,
    /// The function's parameter besides `self`, if it has one.
    pub param: Option<Param>,
    /// Whether the trait is applied to the type of the parameter.
    pub has_generic: bool,
    /// The type that the function returns, if it returns anything.
    pub ret_type: Option<&'a str>,
    /// The text of the function's body.
    pub body: String,
}

/// What an [`Impl`] holds.
pub struct RequestView {
    pub target: Seq<char>,
    pub output: Option<Seq<char>>,
    pub self_arg: Receiver,
    pub mut_self: bool,
    pub generic: Option<ParamView>,
    pub param: Option<ParamView>,
    pub has_generic: bool,
    pub ret_type: Option<Seq<char>>,
    pub body: Seq<char>,
}

impl<'a> View for Impl<'a> {
    type V = RequestView;

    open spec fn view(&self) -> RequestView {
        RequestView {
            target: self.target@,
            output: opt_str_view(self.output),
            self_arg: self.self_arg,
            mut_self: self.mut_self,
            generic: opt_param_view(self.generic),
            param: opt_param_view(self.param),
            has_generic: self.has_generic,
            ret_type: opt_str_view(self.ret_type),
            body: self.body@,
        }
    }
}

impl RequestView {
    /// The uniform shape of the request `value`.
    ///
    /// A binary operator takes a mutable `self` by value and returns its
    /// output. A compound assignment takes `self` by mutable reference and
    /// returns nothing. A unary operator takes `self` by value and returns
    /// `Self`. A comparison takes both sides by reference. A formatting trait
    /// takes the formatter and is not applied to any type. A fold is an
    /// associated function over an iterator of the elements, and the caller
    /// says what its trait is applied to.
    pub open spec fn from_spec(value: ImplSpecView) -> RequestView {
        match value {
            ImplSpecView::Binary { target, output, operand_bind, operand_type, body } => {
                RequestView {
                    target,
                    output,
                    self_arg: Receiver::ByValue,
                    mut_self: true,
                    generic: None,
                    param: Some(ParamView { name: operand_bind, ty: operand_type }),
                    has_generic: true,
                    ret_type: output,
                    body,
                }
            },
            ImplSpecView::Assign { target, operand_bind, operand_type, expr } => RequestView {
                target,
                output: None,
                self_arg: Receiver::ByRefMut,
                mut_self: false,
                generic: None,
                param: Some(ParamView { name: operand_bind, ty: operand_type }),
                has_generic: true,
                ret_type: None,
                body: expr,
            },
            ImplSpecView::Unary { target, body } => RequestView {
                target,
                output: Some("Self"@),
                self_arg: Receiver::ByValue,
                mut_self: false,
                generic: None,
                param: None,
                has_generic: true,
                ret_type: Some("Self"@),
                body,
            },
            ImplSpecView::Comparison { target, other_type, ret_type, body } => RequestView {
                target,
                output: None,
                self_arg: Receiver::ByRef,
                mut_self: false,
                generic: None,
                param: Some(ParamView { name: "other"@, ty: "&"@ + other_type }),
                has_generic: true,
                ret_type: Some(ret_type),
                body,
            },
            ImplSpecView::Format { target, body } => RequestView {
                target,
                output: None,
                self_arg: Receiver::ByRef,
                mut_self: false,
                generic: None,
                param: Some(ParamView { name: "f"@, ty: "&mut core::fmt::Formatter<'_>"@ }),
                has_generic: false,
                ret_type: Some("core::fmt::Result"@),
                body,
            },
            ImplSpecView::Accum { target, element_type, body } => RequestView {
                target,
                output: None,
                self_arg: Receiver::Absent,
                mut_self: false,
                generic: Some(
                    ParamView { name: "I"@, ty: "Iterator<Item = "@ + element_type + ">"@ },
                ),
                param: Some(ParamView { name: "iter"@, ty: "I"@ }),
                has_generic: false,
                ret_type: Some("Self"@),
                body,
            },
        }
    }

    /// The type that the trait is applied to: the type of the parameter
    /// without the `&` before it, where the request asks for it and the type is
    /// not `Self`.
    pub open spec fn trait_param(self) -> Option<Seq<char>> {
        match self.param {
            Some(param) if self.has_generic && param.ty != "Self"@ => Some(
                trimmed_start(param.ty, '&'),
            ),
            _ => None,
        }
    }

    /// The trait `trait_name` as the declaration names it: applied to
    /// `trait_param`, where there is one.
    pub open spec fn format_trait(self, trait_name: Seq<char>) -> Seq<char> {
        match self.trait_param() {
            Some(ty) => trait_name + "<"@ + ty + ">"@,
            None => trait_name,
        }
    }

    /// How the function takes `self`: as `self_arg` says, and mutably where a
    /// `self` by value is marked so.
    pub open spec fn receiver(self) -> Receiver {
        if self.self_arg == Receiver::ByValue && self.mut_self {
            Receiver::ByValueMut
        } else {
            self.self_arg
        }
    }

    /// The declaration of this request under the names `trait_name` and
    /// `fn_name`.
    pub open spec fn build(self, trait_name: Seq<char>, fn_name: Seq<char>) -> ImplView {
        ImplView {
            trait_name: self.format_trait(trait_name),
            trait_generic: None,
            target: self.target,
            output: self.output,
            func: FnView {
                name: fn_name,
                receiver: self.receiver(),
                generic: self.generic,
                param: self.param,
                ret: self.ret_type,
                body: self.body,
            },
        }
    }
}

/// Copies an optional string slice.
fn owned(s: Option<&str>) -> (copy: Option<String>)
    ensures
        crate::ops::opt_view(copy) == opt_str_view(s),
{
    match s {
        Some(s) => Some(String::from_str(s)),
        None => None,
    }
}

impl<'a> Impl<'a> {
    /// Brings a request into the uniform shape.
    pub fn from(value: ImplSpec<'a>) -> (request: Self)
        ensures
            request@ == RequestView::from_spec(value@),
    {
        match value {
            ImplSpec::Binary { target, output, operand_bind, operand_type, body } => Impl {
                target,
                output,
                self_arg: Receiver::ByValue,
                mut_self: true,
                generic: None,
                param: Some(Param { name: operand_bind, ty: String::from_str(operand_type) }),
                has_generic: true,
                ret_type: output,
                body,
            },
            ImplSpec::Assign { target, operand_bind, operand_type, expr } => Impl {
                target,
                output: None,
                self_arg: Receiver::ByRefMut,
                mut_self: false,
                generic: None,
                param: Some(Param { name: operand_bind, ty: String::from_str(operand_type) }),
                has_generic: true,
                ret_type: None,
                body: expr,
            },
            ImplSpec::Unary { target, body } => Impl {
                target,
                output: Some("Self"),
                self_arg: Receiver::ByValue,
                mut_self: false,
                generic: None,
                param: None,
                has_generic: true,
                ret_type: Some("Self"),
                body,
            },
            ImplSpec::Comparison { target, other_type, ret_type, body } => Impl {
                target,
                output: None,
                self_arg: Receiver::ByRef,
                mut_self: false,
                generic: None,
                param: Some(
                    Param { name: String::from_str("other"), ty: join("&", other_type) },
                ),
                has_generic: true,
                ret_type: Some(ret_type),
                body: String::from_str(body),
            },
            ImplSpec::Format { target, body } => Impl {
                target,
                output: None,
                self_arg: Receiver::ByRef,
                mut_self: false,
                generic: None,
                param: Some(
                    Param {
                        name: String::from_str("f"),
                        ty: String::from_str("&mut core::fmt::Formatter<'_>"),
                    },
                ),
                has_generic: false,
                ret_type: Some("core::fmt::Result"),
                body: String::from_str(body),
            },
            ImplSpec::Accum { target, element_type, body } => Impl {
                target,
                output: None,
                self_arg: Receiver::Absent,
                mut_self: false,
                generic: Some(
                    Param {
                        name: String::from_str("I"),
                        ty: join3("Iterator<Item = ", element_type, ">"),
                    },
                ),
                param: Some(Param { name: String::from_str("iter"), ty: String::from_str("I") }),
                has_generic: false,
                ret_type: Some("Self"),
                body,
            },
        }
    }

    /// Builds the declaration of this request under the names `trait_name`
    /// and `trait_fn_name`.
    pub fn build(self, trait_name: &str, trait_fn_name: &str) -> (decl: crate::gen::Impl)
        ensures
            decl@ == self@.build(trait_name@, trait_fn_name@),
    {
        let receiver = match (self.self_arg, self.mut_self) {
            (Receiver::ByValue, true) => Receiver::ByValueMut,
            (self_arg, _) => self_arg,
        };
        crate::gen::Impl {
            trait_name: self.format_trait(trait_name),
            trait_generic: None,
            target: String::from_str(self.target),
            output: owned(self.output),
            func: Fn {
                name: String::from_str(trait_fn_name),
                receiver,
                generic: self.generic,
                param: self.param,
                ret: owned(self.ret_type),
                body: self.body,
            },
        }
    }

    /// Names the trait as the declaration does: applied to the type of the
    /// parameter, where the request asks for it.
    pub fn format_trait(&self, trait_name: &str) -> (name: String)
        ensures
            name@ == self@.format_trait(trait_name@),
    {
        match &self.param {
            Some(param) => {
                if self.has_generic && !str_eq(param.ty.as_str(), "Self") {
                    let mut name = join3(trait_name, "<", trim_start(param.ty.as_str(), '&'));
                    name.append(">");
                    name
                } else {
                    String::from_str(trait_name)
                }
            },
            None => String::from_str(trait_name),
        }
    }
}

/// Collects the declarations of one operation and of its compound
/// assignment.
pub struct ImplSink {
    decls: Vec<crate::gen::Impl>,
    base_trait_name: &'static str,
    assign_trait_name: Option<&'static str>,
    base_fn_name: &'static str,
    assign_fn_name: Option<&'static str>,
}

impl View for ImplSink {
    type V = Seq<ImplView>;

    closed spec fn view(&self) -> Seq<ImplView> {
        impl_views(self.decls@)
    }
}

impl ImplSink {
    /// The names of the operation.
    pub closed spec fn base(&self) -> OpNames {
        OpNames { trait_name: self.base_trait_name@, fn_name: self.base_fn_name@ }
    }

    /// The names of the compound assignment, where both are known.
    pub closed spec fn assign(&self) -> Option<OpNames> {
        match (self.assign_trait_name, self.assign_fn_name) {
            (Some(trait_name), Some(fn_name)) => Some(
                OpNames { trait_name: trait_name@, fn_name: fn_name@ },
            ),
            _ => None,
        }
    }

    /// The names under which `is` is declared: a compound assignment under
    /// those of the assignment, any other request under those of the
    /// operation.
    pub open spec fn names_for(&self, is: ImplSpecView) -> OpNames {
        if is is Assign {
            self.assign()->0
        } else {
            self.base()
        }
    }

    /// Whether this sink takes `is`: it takes a compound assignment only where
    /// it knows the names of the assignment, and any other request always.
    pub open spec fn takes(&self, is: ImplSpecView) -> bool {
        is is Assign ==> self.assign() is Some
    }

    /// Makes a sink for the operation `op`.
    pub fn new_for<O: OpData>(op: &O) -> (sink: Self)
        ensures
            sink@ == Seq::<ImplView>::empty(),
            sink.base() == crate::gen::names_of(op),
            sink.assign() == op.spec_assign(),
    {
        match op.assign() {
            Some(data) => {
                proof {
                    crate::ops::lemma_assign_names(data);
                }
                Self::new(
                    op.trait_name(),
                    Some(data.trait_name()),
                    op.fn_name(),
                    Some(data.fn_name()),
                )
            },
            None => Self::new(op.trait_name(), None, op.fn_name(), None),
        }
    }

    /// Makes a sink for the operation of the given names.
    pub fn new(
        base_trait_name: &'static str,
        assign_trait_name: Option<&'static str>,
        base_fn_name: &'static str,
        assign_fn_name: Option<&'static str>,
    ) -> (sink: Self)
        ensures
            sink@ == Seq::<ImplView>::empty(),
            sink.base() == (OpNames { trait_name: base_trait_name@, fn_name: base_fn_name@ }),
            sink.assign() == match (assign_trait_name, assign_fn_name) {
                (Some(trait_name), Some(fn_name)) => Some(
                    OpNames { trait_name: trait_name@, fn_name: fn_name@ },
                ),
                _ => None,
            },
    {
        let sink = ImplSink {
            decls: Vec::new(),
            base_trait_name,
            assign_trait_name,
            base_fn_name,
            assign_fn_name,
        };
        assert(sink@ =~= Seq::<ImplView>::empty());
        sink
    }

    /// Declares the request `is` under the names of the operation, or of its
    /// compound assignment.
    pub fn push(&mut self, is: ImplSpec<'_>)
        requires
            old(self).takes(is@),
        ensures
            final(self)@ == old(self)@.push(
                RequestView::from_spec(is@).build(
                    old(self).names_for(is@).trait_name,
                    old(self).names_for(is@).fn_name,
                ),
            ),
            final(self).base() == old(self).base(),
            final(self).assign() == old(self).assign(),
    {
        let (trait_name, fn_name) = match &is {
            ImplSpec::Assign { .. } => (
                self.assign_trait_name.unwrap(),
                self.assign_fn_name.unwrap(),
            ),
            _ => (self.base_trait_name, self.base_fn_name),
        };
        let decl = Impl::from(is).build(trait_name, fn_name);
        self.decls.push(decl);
        assert(self@ =~= old(self)@.push(decl@));
    }

    /// Hands the declarations out, in the order in which they were asked for.
    pub fn finish(self) -> (decls: Vec<crate::gen::Impl>)
        ensures
            impl_views(decls@) == self@,
    {
        self.decls
    }
}

} // verus!
