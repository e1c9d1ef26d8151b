//! The catalogue of operations and the requests that the planner makes for
//! them.
//!
//! An operation belongs to one of five groups, each a closed enumeration in a
//! module of its own. [`OpData`] gives an operation's names, [`Op`] says which
//! operations of a group apply to an inner type and what is declared for each.
//! [`Binary`], [`Comparing`] and [`Accumulating`] are the requests: one operand
//! ordering of one operation each.

pub mod accum;
pub mod arith;
pub mod bit;
pub mod cmp;
pub mod fmt;

pub use accum::Accumulation;
pub use arith::Arithmetic;
pub use bit::Bit;
pub use cmp::Comparison;
pub use fmt::Formatting;

use crate::gen::ImplView;
use crate::gen::Sink;
use crate::text::join;
use crate::text::join3;
use crate::text::starts_with;
use crate::text::str_eq;
use vstd::prelude::*;
use vstd::string::*;

verus! {

/// The names under which an operation is declared.
pub struct OpNames {
    /// The path of the trait.
    pub trait_name: Seq<char>,
    /// The name of the trait's function.
    pub fn_name: Seq<char>,
}

/// The compound-assignment counterpart of a binary operation.
pub struct AssignOpData {
    trait_name: &'static str,
    fn_name: &'static str,
}

/// The names of an operation.
pub trait OpData {
    /// The path of the trait that the operation implements.
    spec fn spec_trait_name(&self) -> Seq<char>;

    /// The name of the function that the trait asks for.
    spec fn spec_fn_name(&self) -> Seq<char>;

    /// The names of the compound-assignment counterpart. Only a binary
    /// operator has one.
    spec fn spec_assign(&self) -> Option<OpNames>;

    /// Returns the path of the trait.
    fn trait_name(&self) -> (name: &'static str)
        ensures
            name@ == self.spec_trait_name(),
    ;

    /// Returns the name of the trait's function.
    fn fn_name(&self) -> (name: &'static str)
        ensures
            name@ == self.spec_fn_name(),
    ;

    /// Returns the compound-assignment counterpart, if the operation has one.
    fn assign(&self) -> (data: Option<AssignOpData>)
        ensures
            data is Some <==> self.spec_assign() is Some,
            data matches Some(d) ==> d.names() == self.spec_assign()->0,
    ;
}

impl AssignOpData {
    /// Both names of this counterpart.
    pub closed spec fn names(&self) -> OpNames {
        OpNames { trait_name: self.trait_name@, fn_name: self.fn_name@ }
    }

    /// Makes the counterpart of an operation from its two names.
    pub fn new(trait_name: &'static str, fn_name: &'static str) -> (data: Self)
        ensures
            data.names() == (OpNames { trait_name: trait_name@, fn_name: fn_name@ }),
    {
        AssignOpData { trait_name, fn_name }
    }
}

impl OpData for AssignOpData {
    closed spec fn spec_trait_name(&self) -> Seq<char> {
        self.trait_name@
    }

    closed spec fn spec_fn_name(&self) -> Seq<char> {
        self.fn_name@
    }

    open spec fn spec_assign(&self) -> Option<OpNames> {
        None
    }

    fn trait_name(&self) -> (name: &'static str) {
        self.trait_name
    }

    fn fn_name(&self) -> (name: &'static str) {
        self.fn_name
    }

    fn assign(&self) -> (data: Option<AssignOpData>) {
        None
    }
}

/// A compound assignment is declared under the names that `names` gives.
pub proof fn lemma_assign_names(data: AssignOpData)
    ensures
        data.spec_trait_name() == data.names().trait_name,
        data.spec_fn_name() == data.names().fn_name,
{
}

/// One operand ordering of a binary operator.
pub struct Binary<'a> {
    /// The type that receives the implementation.
    pub target: &'a str,
    /// The type of the operator's result.
    pub output: &'a str,
    /// The place that the compound assignment works on.
    pub lhs: &'a str,
    /// Whether the compound assignment has to borrow that place itself.
    pub lhs_mut: bool,
    /// The pattern that binds the operand, so that `rhs` names a primitive.
    pub rhs_bind: String,
    /// The type of the operand.
    pub rhs_type: &'a str,
    /// What the operator returns where the receiver is not the wrapper.
    pub base_ret: Option<String>,
}

/// What a [`Binary`] request holds.
pub struct BinaryView {
    pub target: Seq<char>,
    pub output: Seq<char>,
    pub lhs: Seq<char>,
    pub lhs_mut: bool,
    pub rhs_bind: Seq<char>,
    pub rhs_type: Seq<char>,
    pub base_ret: Option<Seq<char>>,
}

/// The characters of an optional string.
pub open spec fn opt_view(s: Option<String>) -> Option<Seq<char>> {
    match s {
        Some(s) => Some(s@),
        None => None,
    }
}

impl<'a> View for Binary<'a> {
    type V = BinaryView;

    open spec fn view(&self) -> BinaryView {
        BinaryView {
            target: self.target@,
            output: self.output@,
            lhs: self.lhs@,
            lhs_mut: self.lhs_mut,
            rhs_bind: self.rhs_bind@,
            rhs_type: self.rhs_type@,
            base_ret: opt_view(self.base_ret),
        }
    }
}

/// What a sequence of [`Binary`] requests holds.
pub open spec fn binary_views(ops: Seq<Binary>) -> Seq<BinaryView> {
    ops.map_values(|op: Binary| op@)
}

impl BinaryView {
    /// Wrapper with wrapper: both sides are the wrapper, the operand is
    /// unwrapped by its binding, and the receiver itself is returned.
    pub open spec fn self_self(target: Seq<char>) -> BinaryView {
        BinaryView {
            target,
            output: "Self"@,
            lhs: "self.0"@,
            lhs_mut: true,
            rhs_bind: "Self(rhs)"@,
            rhs_type: "Self"@,
            base_ret: None,
        }
    }

    /// Wrapper with primitive: the operand is used as it is.
    pub open spec fn self_inner(target: Seq<char>, inner: Seq<char>) -> BinaryView {
        BinaryView {
            target,
            output: target,
            lhs: "self.0"@,
            lhs_mut: true,
            rhs_bind: "rhs"@,
            rhs_type: inner,
            base_ret: None,
        }
    }

    /// Primitive with wrapper: the receiver is the primitive itself, and the
    /// result is the receiver wrapped.
    pub open spec fn inner_self(target: Seq<char>, inner: Seq<char>) -> BinaryView {
        BinaryView {
            target: inner,
            output: target,
            lhs: "self"@,
            lhs_mut: false,
            rhs_bind: target + "(rhs)"@,
            rhs_type: target,
            base_ret: Some(target + "(self)"@),
        }
    }

    /// Another primitive with wrapper: the receiver is of the type `other`, and
    /// the result is the receiver cast to the inner type and wrapped.
    pub open spec fn other_self(
        target: Seq<char>,
        inner: Seq<char>,
        other: Seq<char>,
    ) -> BinaryView {
        BinaryView {
            target: other,
            output: target,
            lhs: "self"@,
            lhs_mut: false,
            rhs_bind: target + "(rhs)"@,
            rhs_type: target,
            base_ret: Some(target + "(self as "@ + inner + ")"@),
        }
    }

    /// The three orderings of an operator between a wrapper and its inner
    /// type.
    pub open spec fn permutations(target: Seq<char>, inner: Seq<char>) -> Seq<BinaryView> {
        seq![
            Self::self_self(target),
            Self::self_inner(target, inner),
            Self::inner_self(target, inner),
        ]
    }

    /// The two orderings of an operator between a wrapper and a primitive type
    /// `other` that is not its inner type.
    pub open spec fn inner_permutations(
        target: Seq<char>,
        inner: Seq<char>,
        other: Seq<char>,
    ) -> Seq<BinaryView> {
        seq![Self::self_inner(target, other), Self::other_self(target, inner, other)]
    }
}

impl<'a> Binary<'a> {
    /// Plans the three orderings of an operator between the wrapper `target`
    /// and its inner type.
    pub fn permutations(target: &'a str, inner: &'a str) -> (ops: [Self; 3])
        ensures
            binary_views(ops@) == BinaryView::permutations(target@, inner@),
    {
        let ops = [
            Binary::self_self(target),
            Binary::self_inner(target, inner),
            Binary::inner_self(target, inner),
        ];
        assert(binary_views(ops@) =~= BinaryView::permutations(target@, inner@));
        ops
    }

    /// Plans the two orderings of an operator between the wrapper `target` and
    /// the primitive type `other`.
    pub fn inner_permutations(target: &'a str, inner: &'a str, other: &'a str) -> (ops: [Self; 2])
        ensures
            binary_views(ops@) == BinaryView::inner_permutations(target@, inner@, other@),
    {
        let ops = [Binary::self_inner(target, other), Binary::other_self(target, inner, other)];
        assert(binary_views(ops@) =~= BinaryView::inner_permutations(target@, inner@, other@));
        ops
    }

    /// Plans wrapper with wrapper.
    pub fn self_self(target: &'a str) -> (op: Self)
        ensures
            op@ == BinaryView::self_self(target@),
    {
        Binary {
            target,
            output: "Self",
            lhs: "self.0",
            lhs_mut: true,
            rhs_bind: String::from_str("Self(rhs)"),
            rhs_type: "Self",
            base_ret: None,
        }
    }

    /// Plans wrapper with primitive.
    pub fn self_inner(target: &'a str, inner: &'a str) -> (op: Self)
        ensures
            op@ == BinaryView::self_inner(target@, inner@),
    {
        Binary {
            target,
            output: target,
            lhs: "self.0",
            lhs_mut: true,
            rhs_bind: String::from_str("rhs"),
            rhs_type: inner,
            base_ret: None,
        }
    }

    /// Plans primitive with wrapper.
    pub fn inner_self(target: &'a str, inner: &'a str) -> (op: Self)
        ensures
            op@ == BinaryView::inner_self(target@, inner@),
    {
        Binary {
            target: inner,
            output: target,
            lhs: "self",
            lhs_mut: false,
            rhs_bind: join(target, "(rhs)"),
            rhs_type: target,
            base_ret: Some(join(target, "(self)")),
        }
    }

    /// Plans another primitive with wrapper.
    pub fn other_self(target: &'a str, inner: &'a str, other: &'a str) -> (op: Self)
        ensures
            op@ == BinaryView::other_self(target@, inner@, other@),
    {
        let mut ret = join3(target, "(self as ", inner);
        ret.append(")");
        Binary {
            target: other,
            output: target,
            lhs: "self",
            lhs_mut: false,
            rhs_bind: join(target, "(rhs)"),
            rhs_type: target,
            base_ret: Some(ret),
        }
    }
}

/// One operand ordering of a comparison.
pub struct Comparing<'a> {
    /// The type that receives the implementation.
    pub target: &'a str,
    /// The pattern that binds the other side.
    pub other_bind: String,
    /// The type of the other side.
    pub other_type: &'a str,
    /// The expression that compares.
    pub body: &'a str,
}

/// What a [`Comparing`] request holds.
pub struct ComparingView {
    pub target: Seq<char>,
    pub other_bind: Seq<char>,
    pub other_type: Seq<char>,
    pub body: Seq<char>,
}

impl<'a> View for Comparing<'a> {
    type V = ComparingView;

    open spec fn view(&self) -> ComparingView {
        ComparingView {
            target: self.target@,
            other_bind: self.other_bind@,
            other_type: self.other_type@,
            body: self.body@,
        }
    }
}

/// What a sequence of [`Comparing`] requests holds.
pub open spec fn comparing_views(ops: Seq<Comparing>) -> Seq<ComparingView> {
    ops.map_values(|op: Comparing| op@)
}

/// One ordering of a fold over a sequence.
pub struct Accumulating<'a> {
    /// The type that receives the implementation: the type of the result.
    pub target: &'a str,
    /// The type of the elements.
    pub element_type: &'a str,
    /// The expression that folds.
    pub body: String,
}

/// What an [`Accumulating`] request holds.
pub struct AccumulatingView {
    pub target: Seq<char>,
    pub element_type: Seq<char>,
    pub body: Seq<char>,
}

impl<'a> View for Accumulating<'a> {
    type V = AccumulatingView;

    open spec fn view(&self) -> AccumulatingView {
        AccumulatingView {
            target: self.target@,
            element_type: self.element_type@,
            body: self.body@,
        }
    }
}

/// What a sequence of [`Accumulating`] requests holds.
pub open spec fn accumulating_views(ops: Seq<Accumulating>) -> Seq<AccumulatingView> {
    ops.map_values(|op: Accumulating| op@)
}

impl AccumulatingView {
    /// Wrappers into a wrapper: the fold of the wrappers into a primitive,
    /// wrapped.
    pub open spec fn self_self(target: Seq<char>, fn_name: Seq<char>) -> AccumulatingView {
        AccumulatingView {
            target,
            element_type: "Self"@,
            body: "Self(iter."@ + fn_name + "())"@,
        }
    }

    /// Primitives into a wrapper: the fold of the primitives, wrapped.
    pub open spec fn self_inner(
        target: Seq<char>,
        inner: Seq<char>,
        fn_name: Seq<char>,
    ) -> AccumulatingView {
        AccumulatingView { target, element_type: inner, body: "Self(iter."@ + fn_name + "())"@ }
    }

    /// Wrappers into a primitive: the fold of the unwrapped values.
    pub open spec fn inner_self(
        target: Seq<char>,
        inner: Seq<char>,
        fn_name: Seq<char>,
    ) -> AccumulatingView {
        AccumulatingView {
            target: inner,
            element_type: target,
            body: "iter.map(|it| it.0)."@ + fn_name + "()"@,
        }
    }

    /// The three orderings of one fold.
    pub open spec fn permutations(
        target: Seq<char>,
        inner: Seq<char>,
        fn_name: Seq<char>,
    ) -> Seq<AccumulatingView> {
        seq![
            Self::self_self(target, fn_name),
            Self::self_inner(target, inner, fn_name),
            Self::inner_self(target, inner, fn_name),
        ]
    }
}

impl<'a> Accumulating<'a> {
    /// Plans the fold of wrappers into a wrapper.
    pub fn self_self(target: &'a str, fn_name: &str) -> (op: Self)
        ensures
            op@ == AccumulatingView::self_self(target@, fn_name@),
    {
        Accumulating { target, element_type: "Self", body: join3("Self(iter.", fn_name, "())") }
    }

    /// Plans the fold of primitives into a wrapper.
    pub fn self_inner(target: &'a str, inner: &'a str, fn_name: &str) -> (op: Self)
        ensures
            op@ == AccumulatingView::self_inner(target@, inner@, fn_name@),
    {
        Accumulating { target, element_type: inner, body: join3("Self(iter.", fn_name, "())") }
    }

    /// Plans the fold of wrappers into a primitive.
    pub fn inner_self(target: &'a str, inner: &'a str, fn_name: &str) -> (op: Self)
        ensures
            op@ == AccumulatingView::inner_self(target@, inner@, fn_name@),
    {
        Accumulating {
            target: inner,
            element_type: target,
            body: join3("iter.map(|it| it.0).", fn_name, "()"),
        }
    }
}

/// Whether `inner` names the boolean type.
pub open spec fn is_bool(inner: Seq<char>) -> bool {
    inner == "bool"@
}

/// Whether `inner` counts as an unsigned integer type: its name begins with
/// `u`.
pub open spec fn unsigned_like(inner: Seq<char>) -> bool {
    starts_with(inner, 'u')
}

/// Whether `inner` counts as a floating-point type: its name begins with `f`.
pub open spec fn float_like(inner: Seq<char>) -> bool {
    starts_with(inner, 'f')
}

/// The names of the integer types, in the order in which shifts are planned
/// for them.
pub open spec fn int_type_names() -> Seq<Seq<char>> {
    seq![
        "u8"@,
        "u16"@,
        "u32"@,
        "u64"@,
        "u128"@,
        "usize"@,
        "i8"@,
        "i16"@,
        "i32"@,
        "i64"@,
        "i128"@,
        "isize"@,
    ]
}

/// Whether `inner` names an integer type.
pub open spec fn is_int(inner: Seq<char>) -> bool {
    exists|i: int| 0 <= i < int_type_names().len() && int_type_names()[i] == inner
}

/// Whether `inner` names an unsigned integer type: one of the first six names.
pub open spec fn is_unsigned_int(inner: Seq<char>) -> bool {
    exists|i: int| 0 <= i < 6 && int_type_names()[i] == inner
}

/// Whether `inner` names a signed integer type: one of the last six names.
pub open spec fn is_signed_int(inner: Seq<char>) -> bool {
    exists|i: int| 6 <= i < 12 && int_type_names()[i] == inner
}

/// Whether `inner` names a floating-point type.
pub open spec fn is_float(inner: Seq<char>) -> bool {
    inner == "f32"@ || inner == "f64"@
}

/// Whether `inner` names a primitive type that a wrapper can hold: an integer,
/// a float or the boolean type.
pub open spec fn is_primitive(inner: Seq<char>) -> bool {
    is_int(inner) || is_float(inner) || is_bool(inner)
}

/// The rules go by the spelling of a name. For the primitive types the
/// spelling tells the kind: the names of the unsigned integers, and only they,
/// begin with `u`, and those of the floats, and only they, with `f`. `Self` is
/// none of them.
pub proof fn lemma_primitive_name(inner: Seq<char>)
    ensures
        is_int(inner) <==> is_unsigned_int(inner) || is_signed_int(inner),
        is_unsigned_int(inner) ==> unsigned_like(inner) && !float_like(inner) && !is_bool(inner),
        is_signed_int(inner) ==> !unsigned_like(inner) && !float_like(inner) && !is_bool(inner),
        is_float(inner) ==> float_like(inner) && !unsigned_like(inner) && !is_bool(inner),
        is_bool(inner) ==> !unsigned_like(inner) && !float_like(inner),
        is_primitive(inner) ==> inner != "Self"@,
{
    reveal_strlit("u8");
    reveal_strlit("u16");
    reveal_strlit("u32");
    reveal_strlit("u64");
    reveal_strlit("u128");
    reveal_strlit("usize");
    reveal_strlit("i8");
    reveal_strlit("i16");
    reveal_strlit("i32");
    reveal_strlit("i64");
    reveal_strlit("i128");
    reveal_strlit("isize");
    reveal_strlit("f32");
    reveal_strlit("f64");
    reveal_strlit("bool");
    reveal_strlit("Self");
    let names = int_type_names();
    if is_int(inner) {
        let i = choose|i: int| 0 <= i < int_type_names().len() && int_type_names()[i] == inner;
        assert(names[i] == inner);
        if i < 6 {
            assert(is_unsigned_int(inner));
        } else {
            assert(is_signed_int(inner));
        }
    }
    if is_unsigned_int(inner) {
        let i = choose|i: int| 0 <= i < 6 && int_type_names()[i] == inner;
        assert(names[i] == inner);
        assert(inner[0] == 'u');
        assert(inner.len() != 4 || inner[1] == '1');
    }
    if is_signed_int(inner) {
        let i = choose|i: int| 6 <= i < 12 && int_type_names()[i] == inner;
        assert(names[i] == inner);
        assert(inner[0] == 'i');
    }
    assert("Self"@[0] == 'S');
    if is_float(inner) {
        assert(inner[0] == 'f');
    }
    if is_bool(inner) {
        assert(inner[0] == 'b');
    }
}

/// No name stands for two integer types.
pub proof fn lemma_int_names_differ()
    ensures
        int_type_names().no_duplicates(),
{
    reveal_strlit("u8");
    reveal_strlit("u16");
    reveal_strlit("u32");
    reveal_strlit("u64");
    reveal_strlit("u128");
    reveal_strlit("usize");
    reveal_strlit("i8");
    reveal_strlit("i16");
    reveal_strlit("i32");
    reveal_strlit("i64");
    reveal_strlit("i128");
    reveal_strlit("isize");
    let names = int_type_names();
    assert forall|i: int, j: int|
        0 <= i < names.len() && 0 <= j < names.len() && i != j implies names[i] != names[j] by {
        assert(names[i].len() != names[j].len() || names[i][0] != names[j][0] || names[i][1]
            != names[j][1]);
    }
}

/// What a sequence of names holds.
pub open spec fn name_views(names: Seq<&'static str>) -> Seq<Seq<char>> {
    names.map_values(|name: &'static str| name@)
}

/// Returns the names of the integer types.
pub fn int_types() -> (names: [&'static str; 12])
    ensures
        name_views(names@) == int_type_names(),
{
    let names = [
        "u8",
        "u16",
        "u32",
        "u64",
        "u128",
        "usize",
        "i8",
        "i16",
        "i32",
        "i64",
        "i128",
        "isize",
    ];
    assert(name_views(names@) =~= int_type_names());
    names
}

/// Tests whether `inner` names an integer type.
pub fn names_int(inner: &str) -> (found: bool)
    ensures
        found == is_int(inner@),
{
    let names = int_types();
    let mut i: usize = 0;
    while i < 12
        invariant
            i <= 12,
            names@.len() == 12,
            name_views(names@) == int_type_names(),
            forall|j: int| 0 <= j < i ==> int_type_names()[j] != inner@,
        decreases 12 - i,
    {
        assert(name_views(names@)[i as int] == names@[i as int]@);
        if str_eq(names[i], inner) {
            return true;
        }
        i = i + 1;
    }
    false
}

/// Tests whether `inner` names a primitive type that a wrapper can hold.
pub fn names_primitive(inner: &str) -> (found: bool)
    ensures
        found == is_primitive(inner@),
{
    names_int(inner) || str_eq(inner, "f32") || str_eq(inner, "f64") || str_eq(inner, "bool")
}

/// A group of operations: which of them apply to an inner type, and what is
/// declared for each.
pub trait Op: OpData + Sized {
    /// The operations of the group that apply to the inner type `inner`, in
    /// the order of their declaration.
    spec fn spec_supported(inner: Seq<char>) -> Seq<Self>;

    /// The declarations of this operation for the wrapper `target` of the
    /// inner type `inner`.
    spec fn spec_generate(&self, target: Seq<char>, inner: Seq<char>) -> Seq<ImplView>;

    /// Returns the operations of the group that apply to `inner`.
    fn supported(inner: &str) -> (ops: Vec<Self>)
        ensures
            ops@ == Self::spec_supported(inner@),
    ;

    /// Declares every operation of the group that applies to `inner`.
    fn generate_all(sink: &mut Sink, target: &str, inner: &str)
        ensures
            final(sink)@ == old(sink)@ + Self::spec_supported(inner@).map_values(
                |op: Self| op.spec_generate(target@, inner@),
            ).flatten(),
    {
        let ops = Self::supported(inner);
        let n: usize = ops.len();
        let mut i: usize = 0;
        while i < n
            invariant
                n == ops@.len(),
                i <= n,
                sink@ == old(sink)@ + ops@.take(i as int).map_values(
                    |op: Self| op.spec_generate(target@, inner@),
                ).flatten(),
            decreases n - i,
        {
            proof {
                let parts = ops@.map_values(|op: Self| op.spec_generate(target@, inner@));
                let done = ops@.take(i as int).map_values(
                    |op: Self| op.spec_generate(target@, inner@),
                );
                let next = ops@.take(i + 1).map_values(
                    |op: Self| op.spec_generate(target@, inner@),
                );
                assert(next =~= done.push(parts[i as int]));
                done.lemma_flatten_push(parts[i as int]);
            }
            ops[i].generate(sink, target, inner);
            i = i + 1;
        }
        assert(ops@.take(n as int) =~= ops@);
    }

    /// Declares this operation.
    fn generate(&self, sink: &mut Sink, target: &str, inner: &str)
        ensures
            final(sink)@ == old(sink)@ + self.spec_generate(target@, inner@),
    ;
}

/// All that is declared for the group `O`: the declarations of each operation
/// that applies to `inner`, one operation after the other.
pub open spec fn group_plan<O: Op>(target: Seq<char>, inner: Seq<char>) -> Seq<ImplView> {
    O::spec_supported(inner).map_values(|op: O| op.spec_generate(target, inner)).flatten()
}

} // verus!
