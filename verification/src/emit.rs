//! Hands declarations to the code generator of `virtue`.
//!
//! The generator is an outside type, and nothing is proved of the tokens that
//! it writes. What is verified here is the order of the calls, what each call
//! is given, and that no call is made with a name that the generator would
//! stop on.

use crate::gen::Impl;
use crate::gen::ImplView;
use crate::gen::Receiver;
use crate::text::check_ident;
use crate::text::check_type_text;
use crate::text::is_ident;
use crate::text::is_type_text;
use virtue::generate::FnBuilder;
use virtue::generate::FnSelfArg;
use virtue::generate::Generator;
use virtue::generate::ImplFor;
use virtue::generate::StreamBuilder;
use vstd::prelude::*;

verus! {

/// `virtue::generate::Generator`, which collects the tokens of the generated
/// code. Nothing is known of what a value of it holds.
#[verifier::external_type_specification]
#[verifier::external_body]
pub struct ExGenerator(Generator);

/// `virtue::Error`, the error of the generator. Nothing is known of what a
/// value of it holds.
#[verifier::external_type_specification]
#[verifier::external_body]
pub struct ExError(virtue::Error);

/// `virtue::generate::StreamBuilder`, which collects the tokens of one body.
/// Nothing is known of what a value of it holds.
#[verifier::external_type_specification]
#[verifier::external_body]
pub struct ExStreamBuilder(StreamBuilder);

/// Holds a `virtue::generate::ImplFor`: an `impl` block that is being
/// written. The block is appended to the generator when this value is
/// dropped.
#[verifier::external_body]
struct ImplBlock<'a> {
    inner: ImplFor<'a, Generator>,
}

/// Holds a `virtue::generate::FnBuilder`: a function that is being written
/// into an `impl` block.
#[verifier::external_body]
struct FnItem<'a, 'b> {
    inner: FnBuilder<'b, ImplFor<'a, Generator>>,
}

/// Why a declaration was not written.
#[derive(Debug)]
pub enum EmitError {
    /// A name in the declaration is not of the form that the generator takes.
    Malformed,
    /// The generator refused a part of the declaration.
    Backend(virtue::Error),
}

impl EmitError {
    /// Takes the answer of the generator to one call: its success is success,
    /// and its error is the error of the backend.
    pub fn from_generator(answer: Result<(), virtue::Error>) -> (result: Result<(), EmitError>)
        ensures
            match answer {
                Ok(_) => result is Ok,
                Err(error) => result == Err::<(), EmitError>(EmitError::Backend(error)),
            },
    {
        match answer {
            Ok(_) => Ok(()),
            Err(error) => Err(EmitError::Backend(error)),
        }
    }
}

impl ImplView {
    /// Whether the names of this declaration are of the form that the
    /// generator takes: the trait, the type that it is applied to and the
    /// receiving type are texts of types, and the function and its type
    /// parameter are called by identifiers.
    pub open spec fn emittable(self) -> bool {
        &&& is_type_text(self.trait_name)
        &&& self.trait_generic matches Some(ty) ==> is_type_text(ty)
        &&& is_type_text(self.target)
        &&& is_ident(self.func.name)
        &&& self.func.generic matches Some(generic) ==> is_ident(generic.name)
    }
}

/// Calls `Generator::impl_trait_for_other_type`, which begins an `impl` block
/// of a trait for a type. The block later parses both names and stops the
/// program where one of them is no sequence of tokens. A text of a type always
/// is one, so the contract asks for that.
#[verifier::external_body]
fn open_impl<'a>(gen: &'a mut Generator, trait_name: &str, target: &str) -> (block: ImplBlock<'a>)
    requires
        is_type_text(trait_name@),
        is_type_text(target@),
{
    ImplBlock { inner: gen.impl_trait_for_other_type(trait_name, target) }
}

/// Calls `ImplFor::with_trait_generics` with one type, which applies the trait
/// of the block to that type. The block later parses the type as it does the
/// names, so the contract asks for the text of a type.
#[verifier::external_body]
fn apply_trait<'a>(block: ImplBlock<'a>, ty: &str) -> (applied: ImplBlock<'a>)
    requires
        is_type_text(ty@),
{
    ImplBlock { inner: block.inner.with_trait_generics([ty]) }
}

/// Calls `ImplFor::impl_outer_attr`, which puts an attribute before the block.
/// It fails where the attribute cannot be parsed.
#[verifier::external_body]
fn add_attr(block: &mut ImplBlock<'_>, attr: &str) -> (result: Result<(), virtue::Error>) {
    block.inner.impl_outer_attr(attr)
}

/// Calls `ImplFor::impl_type`, which sets an associated type of the block. It
/// fails where the name or the type cannot be parsed.
#[verifier::external_body]
fn add_type(block: &mut ImplBlock<'_>, name: &str, value: &str) -> (result: Result<
    (),
    virtue::Error,
>) {
    block.inner.impl_type(name, value)
}

/// Calls `ImplFor::generate_fn`, which begins a function in the block. The
/// function's name becomes an identifier when the function is finished, and
/// the program stops where it is none, so the contract asks for one.
#[verifier::external_body]
fn open_fn<'a, 'b>(block: &'b mut ImplBlock<'a>, name: &str) -> (func: FnItem<'a, 'b>)
    requires
        is_ident(name@),
{
    FnItem { inner: block.inner.generate_fn(name) }
}

/// Calls `FnBuilder::with_generic_deps` with one bound, which gives the
/// function a type parameter. The parameter's name becomes an identifier as
/// the function's name does, so the contract asks for one.
#[verifier::external_body]
fn with_generic<'a, 'b>(func: FnItem<'a, 'b>, name: &str, bound: &str) -> (with: FnItem<'a, 'b>)
    requires
        is_ident(name@),
{
    FnItem { inner: func.inner.with_generic_deps(name, [bound]) }
}

/// Calls `FnBuilder::with_self_arg`, which says how the function takes `self`.
#[verifier::external_body]
fn with_receiver<'a, 'b>(func: FnItem<'a, 'b>, receiver: Receiver) -> (with: FnItem<'a, 'b>) {
    let self_arg = match receiver {
        Receiver::Absent => FnSelfArg::None,
        Receiver::ByValue => FnSelfArg::TakeSelf,
        Receiver::ByValueMut => FnSelfArg::MutTakeSelf,
        Receiver::ByRef => FnSelfArg::RefSelf,
        Receiver::ByRefMut => FnSelfArg::MutSelf,
    };
    FnItem { inner: func.inner.with_self_arg(self_arg) }
}

/// Calls `FnBuilder::with_arg`, which gives the function a parameter.
#[verifier::external_body]
fn with_arg<'a, 'b>(func: FnItem<'a, 'b>, name: &str, ty: &str) -> (with: FnItem<'a, 'b>) {
    FnItem { inner: func.inner.with_arg(name, ty) }
}

/// Calls `FnBuilder::with_return_type`, which says what the function returns.
#[verifier::external_body]
fn with_return<'a, 'b>(func: FnItem<'a, 'b>, ty: &str) -> (with: FnItem<'a, 'b>) {
    FnItem { inner: func.inner.with_return_type(ty) }
}

/// Calls `StreamBuilder::push_parsed`, which parses `code` and appends its
/// tokens. It fails where `code` is no sequence of tokens.
#[verifier::external_body]
fn push_parsed(builder: &mut StreamBuilder, code: &str) -> (result: Result<(), virtue::Error>) {
    builder.push_parsed(code).map(|_| ())
}

/// Writes the body of a function: the tokens of `body`, as they are.
fn write_body(builder: &mut StreamBuilder, body: &str) -> (result: Result<(), virtue::Error>) {
    push_parsed(builder, body)
}

/// Calls `FnBuilder::body`, which finishes the function and puts it into its
/// block. The body is written by `write_body`. It fails where the body, the
/// parameter, the bound or the result type cannot be parsed.
#[verifier::external_body]
fn close_fn<'a, 'b>(func: FnItem<'a, 'b>, body: &str) -> (result: Result<(), virtue::Error>) {
    func.inner.body(|builder| write_body(builder, body))
}

impl Impl {
    /// Tests whether the names of this declaration are of the form that the
    /// generator takes.
    pub fn is_emittable(&self) -> (ok: bool)
        ensures
            ok == self@.emittable(),
    {
        let generic_ok = match &self.trait_generic {
            Some(ty) => check_type_text(ty.as_str()),
            None => true,
        };
        let param_ok = match &self.func.generic {
            Some(generic) => check_ident(generic.name.as_str()),
            None => true,
        };
        check_type_text(self.trait_name.as_str()) && generic_ok && check_type_text(
            self.target.as_str(),
        ) && check_ident(self.func.name.as_str()) && param_ok
    }

    /// Writes this declaration into `gen` as an `impl` block that is marked as
    /// derived.
    ///
    /// A declaration whose names are not of the form that the generator takes
    /// is refused before anything is written. Else the generator decides: it
    /// succeeds, or it refuses a part that it cannot parse.
    pub fn emit(&self, gen: &mut Generator) -> (result: Result<(), EmitError>)
        ensures
            result matches Err(EmitError::Malformed) <==> !self@.emittable(),
            !self@.emittable() ==> *final(gen) == *old(gen),
    {
        if !self.is_emittable() {
            return Err(EmitError::Malformed);
        }
        let mut block = open_impl(gen, self.trait_name.as_str(), self.target.as_str());
        match &self.trait_generic {
            Some(ty) => {
                block = apply_trait(block, ty.as_str());
            },
            None => {},
        }
        match EmitError::from_generator(add_attr(&mut block, "automatically_derived")) {
            Ok(_) => {},
            Err(error) => {
                return Err(error);
            },
        }
        match &self.output {
            Some(output) => match EmitError::from_generator(
                add_type(&mut block, "Output", output.as_str()),
            ) {
                Ok(_) => {},
                Err(error) => {
                    return Err(error);
                },
            },
            None => {},
        }
        let mut func = open_fn(&mut block, self.func.name.as_str());
        match &self.func.generic {
            Some(generic) => {
                func = with_generic(func, generic.name.as_str(), generic.ty.as_str());
            },
            None => {},
        }
        func = with_receiver(func, self.func.receiver);
        match &self.func.param {
            Some(param) => {
                func = with_arg(func, param.name.as_str(), param.ty.as_str());
            },
            None => {},
        }
        match &self.func.ret {
            Some(ret) => {
                func = with_return(func, ret.as_str());
            },
            None => {},
        }
        EmitError::from_generator(close_fn(func, self.func.body.as_str()))
    }
}

/// Writes the declarations `decls` into `gen`, in their order, and stops at
/// the first that is not written.
///
/// It succeeds only where every declaration is of the form that the generator
/// takes. Where it refuses a declaration for its form, that is the first of
/// such a form, and all before it were written.
pub fn emit_all(decls: &[Impl], gen: &mut Generator) -> (result: Result<(), EmitError>)
    ensures
        result is Ok ==> forall|i: int| 0 <= i < decls@.len() ==> decls@[i]@.emittable(),
        result matches Err(EmitError::Malformed) ==> exists|i: int|
            0 <= i < decls@.len() && !decls@[i]@.emittable() && forall|j: int|
                0 <= j < i ==> decls@[j]@.emittable(),
{
    let n: usize = decls.len();
    let mut i: usize = 0;
    while i < n
        invariant
            n == decls@.len(),
            i <= n,
            forall|j: int| 0 <= j < i ==> decls@[j]@.emittable(),
        decreases n - i,
    {
        match decls[i].emit(gen) {
            Ok(_) => {},
            Err(error) => {
                return Err(error);
            },
        }
        i = i + 1;
    }
    Ok(())
}

} // verus!
