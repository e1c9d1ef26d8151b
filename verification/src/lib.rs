//! Plans the operator and trait surface of a single-field wrapper type.
//!
//! A wrapper holds one primitive value: an integer, a float or a boolean. For
//! such a wrapper and a set of capability groups, this crate decides which
//! operations apply, which operand orderings each of them needs, and what every
//! resulting `impl` block looks like. The result is a list of declarations: one
//! record for each `impl` block, in the order of emission.
//!
//! - [`ops`] holds the catalogue of operations, the rules that say which of
//!   them apply to an inner type, and the planner of operand orderings.
//! - [`gen`] holds the declarations and the sink that collects them.
//! - [`util`], [`fmt`], [`cmp`] and [`accum`] declare from requests in one
//!   uniform shape.
//! - [`emit`] hands declarations to the code generator of `virtue`.
//! - [`laws`], [`distinct`] and [`wellformed`] prove what holds of every plan.
//! - [`text`] holds the operations on strings that the others need.
//!
//! This file holds the capability groups, the reading of the attributes of a
//! type, and the plan for a type as a whole.
//!
//! Every function is verified against a contract that states its result in
//! full over the views of the types involved. Only the calls of `virtue` in
//! [`emit`] are taken on trust.

pub mod accum;
pub mod cmp;
pub mod distinct;
pub mod emit;
pub mod fmt;
pub mod gen;
pub mod laws;
pub mod ops;
pub mod text;
pub mod util;
pub mod wellformed;

use crate::gen::Impl;
use crate::gen::ImplView;
use crate::gen::Sink;
use crate::gen::impl_views;
use crate::ops::Accumulation;
use crate::ops::Arithmetic;
use crate::ops::Bit;
use crate::ops::Comparison;
use crate::ops::Formatting;
use crate::ops::Op;
use crate::ops::group_plan;
use crate::ops::is_primitive;
use crate::ops::names_primitive;
use crate::text::eq_ignore_case;
use crate::text::same_ignoring_case;
use vstd::prelude::*;
use vstd::string::*;

verus! {

/// A capability group: a bundle of operations that is asked for as a whole.
#[derive(Clone, Copy, Debug, PartialEq, Eq)]
pub enum Group {
    Arithmetic,
    Bitwise,
    Formatting,
    Comparison,
    Accumulation,
}

impl Group {
    /// The group that `name` names. The case of ASCII letters does not count.
    pub open spec fn spec_parse(name: Seq<char>) -> Option<Group> {
        if same_ignoring_case(name, "Arithmetic"@) {
            Some(Group::Arithmetic)
        } else if same_ignoring_case(name, "Bitwise"@) {
            Some(Group::Bitwise)
        } else if same_ignoring_case(name, "Formatting"@) {
            Some(Group::Formatting)
        } else if same_ignoring_case(name, "Comparison"@) {
            Some(Group::Comparison)
        } else if same_ignoring_case(name, "Accumulation"@) {
            Some(Group::Accumulation)
        } else {
            None
        }
    }

    /// Reads the name of a group.
    pub fn parse(name: &str) -> (group: Option<Group>)
        ensures
            group == Self::spec_parse(name@),
    {
        if eq_ignore_case(name, "Arithmetic") {
            Some(Group::Arithmetic)
        } else if eq_ignore_case(name, "Bitwise") {
            Some(Group::Bitwise)
        } else if eq_ignore_case(name, "Formatting") {
            Some(Group::Formatting)
        } else if eq_ignore_case(name, "Comparison") {
            Some(Group::Comparison)
        } else if eq_ignore_case(name, "Accumulation") {
            Some(Group::Accumulation)
        } else {
            None
        }
    }
}

/// A set of capability groups.
#[derive(Clone, Copy, Debug, PartialEq, Eq)]
pub struct Groups {
    pub arithmetic: bool,
    pub bitwise: bool,
    pub formatting: bool,
    pub comparison: bool,
    pub accumulation: bool,
}

impl View for Groups {
    type V = Set<Group>;

    open spec fn view(&self) -> Set<Group> {
        Set::new(|group: Group| self.has(group))
    }
}

impl Groups {
    /// Whether `group` is in the set.
    pub open spec fn has(&self, group: Group) -> bool {
        match group {
            Group::Arithmetic => self.arithmetic,
            Group::Bitwise => self.bitwise,
            Group::Formatting => self.formatting,
            Group::Comparison => self.comparison,
            Group::Accumulation => self.accumulation,
        }
    }

    /// Makes the empty set.
    pub fn none() -> (groups: Self)
        ensures
            groups@ == Set::<Group>::empty(),
    {
        let groups = Groups {
            arithmetic: false,
            bitwise: false,
            formatting: false,
            comparison: false,
            accumulation: false,
        };
        assert(groups@ =~= Set::<Group>::empty());
        groups
    }

    /// Makes the set of all five groups.
    pub fn all() -> (groups: Self)
        ensures
            groups@ == Set::<Group>::full(),
    {
        let groups = Groups {
            arithmetic: true,
            bitwise: true,
            formatting: true,
            comparison: true,
            accumulation: true,
        };
        assert(groups@ =~= Set::<Group>::full());
        groups
    }

    /// Returns this set with `group` in it.
    pub fn with(self, group: Group) -> (groups: Self)
        ensures
            groups@ == self@.insert(group),
    {
        let groups = match group {
            Group::Arithmetic => Groups { arithmetic: true, ..self },
            Group::Bitwise => Groups { bitwise: true, ..self },
            Group::Formatting => Groups { formatting: true, ..self },
            Group::Comparison => Groups { comparison: true, ..self },
            Group::Accumulation => Groups { accumulation: true, ..self },
        };
        assert(groups@ =~= self@.insert(group));
        groups
    }

    /// Tests whether `group` is in the set.
    pub fn contains(&self, group: Group) -> (found: bool)
        ensures
            found == self@.contains(group),
    {
        match group {
            Group::Arithmetic => self.arithmetic,
            Group::Bitwise => self.bitwise,
            Group::Formatting => self.formatting,
            Group::Comparison => self.comparison,
            Group::Accumulation => self.accumulation,
        }
    }

    /// Tests whether the set holds no group.
    pub fn is_empty(&self) -> (empty: bool)
        ensures
            empty == (self@ == Set::<Group>::empty()),
    {
        let empty = !self.arithmetic && !self.bitwise && !self.formatting && !self.comparison
            && !self.accumulation;
        if empty {
            assert(self@ =~= Set::<Group>::empty());
        } else {
            assert(self@.contains(Group::Arithmetic) || self@.contains(Group::Bitwise)
                || self@.contains(Group::Formatting) || self@.contains(Group::Comparison)
                || self@.contains(Group::Accumulation));
        }
        empty
    }
}

/// Why no declarations are planned for a type.
#[derive(Clone, Copy, Debug, PartialEq, Eq)]
pub enum DeriveError {
    /// The type is not a tuple struct.
    NotTupleStruct,
    /// The attribute at this position could not be read.
    MalformedAttribute { attribute: usize },
    /// The entry at this position names no capability group.
    UnknownGroup { attribute: usize, item: usize },
    /// The entry at this position is not a plain name.
    ExpectedIdentifier { attribute: usize, item: usize },
    /// The tuple struct does not have exactly one field.
    NotSingleField,
    /// The field is not of a primitive type that a wrapper can hold.
    UnknownType,
}

impl DeriveError {
    /// What the error says to the author of the type.
    pub open spec fn spec_message(&self) -> Seq<char> {
        match self {
            DeriveError::NotTupleStruct => "expected tuple struct"@,
            DeriveError::MalformedAttribute { .. } => "malformed attribute"@,
            DeriveError::UnknownGroup { .. } => {
                "expected \"arithmetic\", \"bitwise\", \"formatting\", or \"comparison\""@
            },
            DeriveError::ExpectedIdentifier { .. } => "expected identifier"@,
            DeriveError::NotSingleField => "expected tuple struct with one field"@,
            DeriveError::UnknownType => "unknown type"@,
        }
    }

    /// Returns what the error says to the author of the type.
    pub fn message(&self) -> (text: &'static str)
        ensures
            text@ == self.spec_message(),
    {
        match self {
            DeriveError::NotTupleStruct => "expected tuple struct",
            DeriveError::MalformedAttribute { .. } => "malformed attribute",
            DeriveError::UnknownGroup { .. } => {
                "expected \"arithmetic\", \"bitwise\", \"formatting\", or \"comparison\""
            },
            DeriveError::ExpectedIdentifier { .. } => "expected identifier",
            DeriveError::NotSingleField => "expected tuple struct with one field",
            DeriveError::UnknownType => "unknown type",
        }
    }
}

/// One entry of an attribute that asks for groups.
#[derive(Debug, PartialEq, Eq)]
pub enum Item {
    /// A plain name.
    Tag(String),
    /// A name with a value.
    Property,
    /// Anything else.
    Other,
}

/// What an [`Item`] holds.
pub enum ItemView {
    Tag(Seq<char>),
    Property,
    Other,
}

impl View for Item {
    type V = ItemView;

    open spec fn view(&self) -> ItemView {
        match self {
            Item::Tag(name) => ItemView::Tag(name@),
            Item::Property => ItemView::Property,
            Item::Other => ItemView::Other,
        }
    }
}

/// An attribute of the type.
#[derive(Debug, PartialEq, Eq)]
pub enum Attribute {
    /// An attribute that does not ask for groups.
    Foreign,
    /// An attribute that asks for groups and could not be read.
    Malformed,
    /// An attribute that asks for groups, with its entries.
    Tagged(Vec<Item>),
}

/// What an [`Attribute`] holds.
pub enum AttributeView {
    Foreign,
    Malformed,
    Tagged(Seq<ItemView>),
}

/// What a sequence of entries holds.
pub open spec fn item_views(items: Seq<Item>) -> Seq<ItemView> {
    items.map_values(|item: Item| item@)
}

impl View for Attribute {
    type V = AttributeView;

    open spec fn view(&self) -> AttributeView {
        match self {
            Attribute::Foreign => AttributeView::Foreign,
            Attribute::Malformed => AttributeView::Malformed,
            Attribute::Tagged(items) => AttributeView::Tagged(item_views(items@)),
        }
    }
}

/// What a sequence of attributes holds.
pub open spec fn attribute_views(attrs: Seq<Attribute>) -> Seq<AttributeView> {
    attrs.map_values(|attr: Attribute| attr@)
}

/// The group that the entry `item` asks for. It stands at the position
/// `index` of the attribute at the position `attribute`.
pub open spec fn item_group(item: ItemView, attribute: usize, index: usize) -> Result<
    Group,
    DeriveError,
> {
    match item {
        ItemView::Tag(name) => match Group::spec_parse(name) {
            Some(group) => Ok(group),
            None => Err(DeriveError::UnknownGroup { attribute, item: index }),
        },
        _ => Err(DeriveError::ExpectedIdentifier { attribute, item: index }),
    }
}

/// The set `groups` with the groups that `items` ask for, or the error of the
/// first entry that asks for none.
pub open spec fn collect_items(items: Seq<ItemView>, attribute: usize, groups: Set<Group>) -> Result<
    Set<Group>,
    DeriveError,
>
    decreases items.len(),
{
    if items.len() == 0 {
        Ok(groups)
    } else {
        match collect_items(items.drop_last(), attribute, groups) {
            Ok(groups) => match item_group(items.last(), attribute, (items.len() - 1) as usize) {
                Ok(group) => Ok(groups.insert(group)),
                Err(error) => Err(error),
            },
            Err(error) => Err(error),
        }
    }
}

/// The groups that `attrs` name, or the first error in them.
pub open spec fn collect(attrs: Seq<AttributeView>) -> Result<Set<Group>, DeriveError>
    decreases attrs.len(),
{
    if attrs.len() == 0 {
        Ok(Set::empty())
    } else {
        match collect(attrs.drop_last()) {
            Ok(groups) => match attrs.last() {
                AttributeView::Foreign => Ok(groups),
                AttributeView::Malformed => Err(
                    DeriveError::MalformedAttribute { attribute: (attrs.len() - 1) as usize },
                ),
                AttributeView::Tagged(items) => collect_items(
                    items,
                    (attrs.len() - 1) as usize,
                    groups,
                ),
            },
            Err(error) => Err(error),
        }
    }
}

/// The groups that `attrs` ask for: those that they name, and all five where
/// they name none.
pub open spec fn requested(attrs: Seq<AttributeView>) -> Result<Set<Group>, DeriveError> {
    match collect(attrs) {
        Ok(groups) => Ok(
            if groups == Set::<Group>::empty() {
                Set::full()
            } else {
                groups
            },
        ),
        Err(error) => Err(error),
    }
}

/// An error among the first entries is the error of them all.
pub proof fn lemma_item_error_stays(
    items: Seq<ItemView>,
    attribute: usize,
    groups: Set<Group>,
    n: int,
)
    requires
        0 <= n <= items.len(),
        collect_items(items.take(n), attribute, groups) is Err,
    ensures
        collect_items(items, attribute, groups) == collect_items(items.take(n), attribute, groups),
    decreases items.len(),
{
    if n == items.len() {
        assert(items.take(n) =~= items);
    } else {
        assert(items.drop_last().take(n) =~= items.take(n));
        lemma_item_error_stays(items.drop_last(), attribute, groups, n);
    }
}

/// An error among the first attributes is the error of them all.
pub proof fn lemma_error_stays(attrs: Seq<AttributeView>, n: int)
    requires
        0 <= n <= attrs.len(),
        collect(attrs.take(n)) is Err,
    ensures
        collect(attrs) == collect(attrs.take(n)),
    decreases attrs.len(),
{
    if n == attrs.len() {
        assert(attrs.take(n) =~= attrs);
    } else {
        assert(attrs.drop_last().take(n) =~= attrs.take(n));
        lemma_error_stays(attrs.drop_last(), n);
    }
}

/// Whether the entry `item` names the group `group`.
pub open spec fn item_names(item: ItemView, group: Group) -> bool {
    &&& item matches ItemView::Tag(name)
    &&& Group::spec_parse(name) == Some(group)
}

/// Whether the entry at the position `index` of the attribute at the position
/// `attribute` names the group `group`.
pub open spec fn names_group(
    attrs: Seq<AttributeView>,
    attribute: int,
    index: int,
    group: Group,
) -> bool {
    &&& 0 <= attribute < attrs.len()
    &&& attrs[attribute] matches AttributeView::Tagged(items)
    &&& 0 <= index < items.len()
    &&& item_names(items[index], group)
}

/// Where the entries `items` are read without error, the groups that come of
/// them are those that were there and those that the entries name.
pub proof fn lemma_collected_items(
    items: Seq<ItemView>,
    attribute: usize,
    groups: Set<Group>,
    group: Group,
)
    requires
        collect_items(items, attribute, groups) is Ok,
    ensures
        collect_items(items, attribute, groups)->Ok_0.contains(group) <==> groups.contains(group)
            || exists|index: int| 0 <= index < items.len() && item_names(#[trigger] items[index], group),
    decreases items.len(),
{
    if items.len() > 0 {
        let rest = items.drop_last();
        lemma_collected_items(rest, attribute, groups, group);
        if exists|index: int| 0 <= index < rest.len() && item_names(#[trigger] rest[index], group) {
            let index = choose|index: int|
                0 <= index < rest.len() && item_names(#[trigger] rest[index], group);
            assert(items[index] == rest[index]);
        }
        if exists|index: int|
            0 <= index < items.len() && item_names(#[trigger] items[index], group) {
            let index = choose|index: int|
                0 <= index < items.len() && item_names(#[trigger] items[index], group);
            if index < rest.len() {
                assert(rest[index] == items[index]);
            }
        }
        assert(items[items.len() - 1] == items.last());
    }
}

/// Where the attributes are read without error, the groups that they name are
/// the groups that their entries name, and no others.
pub proof fn lemma_collected(attrs: Seq<AttributeView>, group: Group)
    requires
        collect(attrs) is Ok,
    ensures
        collect(attrs)->Ok_0.contains(group) <==> exists|attribute: int, index: int|
            names_group(attrs, attribute, index, group),
    decreases attrs.len(),
{
    if attrs.len() > 0 {
        let rest = attrs.drop_last();
        let before = collect(rest)->Ok_0;
        lemma_collected(rest, group);
        if exists|attribute: int, index: int| names_group(rest, attribute, index, group) {
            let (attribute, index) = choose|attribute: int, index: int|
                names_group(rest, attribute, index, group);
            assert(attrs[attribute] == rest[attribute]);
            assert(names_group(attrs, attribute, index, group));
        }
        if exists|attribute: int, index: int| names_group(attrs, attribute, index, group) {
            let (attribute, index) = choose|attribute: int, index: int|
                names_group(attrs, attribute, index, group);
            if attribute < rest.len() {
                assert(rest[attribute] == attrs[attribute]);
                assert(names_group(rest, attribute, index, group));
            }
        }
        match attrs.last() {
            AttributeView::Tagged(items) => {
                lemma_collected_items(items, (attrs.len() - 1) as usize, before, group);
                if exists|index: int|
                    0 <= index < items.len() && item_names(#[trigger] items[index], group) {
                    let index = choose|index: int|
                        0 <= index < items.len() && item_names(#[trigger] items[index], group);
                    assert(names_group(attrs, attrs.len() - 1, index, group));
                }
            },
            _ => {},
        }
    }
}

/// What is wrong with the entry at the position `index` of the attribute at
/// the position `attribute`, if anything is. An attribute that cannot be read
/// counts as wrong in its first place.
pub open spec fn error_at(attrs: Seq<AttributeView>, attribute: int, index: int) -> Option<
    DeriveError,
> {
    if 0 <= attribute < attrs.len() {
        match attrs[attribute] {
            AttributeView::Foreign => None,
            AttributeView::Malformed => if index == 0 {
                Some(DeriveError::MalformedAttribute { attribute: attribute as usize })
            } else {
                None
            },
            AttributeView::Tagged(items) => if 0 <= index < items.len() {
                match item_group(items[index], attribute as usize, index as usize) {
                    Ok(_) => None,
                    Err(error) => Some(error),
                }
            } else {
                None
            },
        }
    } else {
        None
    }
}

/// Whether `error` is what is wrong at the given place, and nothing is wrong
/// in an earlier attribute or in an earlier entry of the same attribute.
pub open spec fn first_error(
    attrs: Seq<AttributeView>,
    attribute: int,
    index: int,
    error: DeriveError,
) -> bool {
    &&& error_at(attrs, attribute, index) == Some(error)
    &&& forall|a: int, i: int|
        a < attribute || (a == attribute && i < index) ==> #[trigger] error_at(attrs, a, i) is None
}

/// The entries of one attribute are read without error where nothing is wrong
/// with any of them. Else the error is that of the first entry that something
/// is wrong with.
pub proof fn lemma_first_item_error(items: Seq<ItemView>, attribute: usize, groups: Set<Group>)
    ensures
        match collect_items(items, attribute, groups) {
            Ok(_) => forall|i: int|
                0 <= i < items.len() ==> item_group(#[trigger] items[i], attribute, i as usize)
                    is Ok,
            Err(error) => exists|i: int|
                {
                    &&& 0 <= i < items.len()
                    &&& item_group(#[trigger] items[i], attribute, i as usize) == Err::<
                        Group,
                        DeriveError,
                    >(error)
                    &&& forall|j: int|
                        0 <= j < i ==> item_group(#[trigger] items[j], attribute, j as usize)
                            is Ok
                },
        },
    decreases items.len(),
{
    if items.len() > 0 {
        let rest = items.drop_last();
        lemma_first_item_error(rest, attribute, groups);
        match collect_items(rest, attribute, groups) {
            Ok(_) => {
                assert forall|j: int| 0 <= j < rest.len() implies item_group(
                    #[trigger] items[j],
                    attribute,
                    j as usize,
                ) is Ok by {
                    assert(rest[j] == items[j]);
                }
                if collect_items(items, attribute, groups) is Err {
                    let i = items.len() - 1;
                    assert(items[i] == items.last());
                }
            },
            Err(error) => {
                let i = choose|i: int|
                    {
                        &&& 0 <= i < rest.len()
                        &&& item_group(#[trigger] rest[i], attribute, i as usize) == Err::<
                            Group,
                            DeriveError,
                        >(error)
                        &&& forall|j: int|
                            0 <= j < i ==> item_group(#[trigger] rest[j], attribute, j as usize)
                                is Ok
                    };
                assert(items[i] == rest[i]);
                assert forall|j: int| 0 <= j < i implies item_group(
                    #[trigger] items[j],
                    attribute,
                    j as usize,
                ) is Ok by {
                    assert(rest[j] == items[j]);
                }
            },
        }
    }
}

/// The attributes are read without error where nothing is wrong in any of
/// them. Else the error is the first that stands in them: what is wrong at
/// some place, with nothing wrong before that place.
pub proof fn lemma_first_error(attrs: Seq<AttributeView>)
    requires
        attrs.len() <= usize::MAX,
    ensures
        match collect(attrs) {
            Ok(_) => forall|a: int, i: int| #[trigger] error_at(attrs, a, i) is None,
            Err(error) => exists|a: int, i: int| first_error(attrs, a, i, error),
        },
    decreases attrs.len(),
{
    if attrs.len() > 0 {
        let rest = attrs.drop_last();
        let last = attrs.len() - 1;
        lemma_first_error(rest);
        assert forall|a: int, i: int| a < last implies error_at(attrs, a, i) == error_at(
            rest,
            a,
            i,
        ) by {
            if 0 <= a {
                assert(rest[a] == attrs[a]);
            }
        }
        match collect(rest) {
            Ok(groups) => {
                match attrs.last() {
                    AttributeView::Foreign => {},
                    AttributeView::Malformed => {
                        let error = DeriveError::MalformedAttribute { attribute: last as usize };
                        assert(first_error(attrs, last, 0, error));
                    },
                    AttributeView::Tagged(items) => {
                        lemma_first_item_error(items, last as usize, groups);
                        match collect_items(items, last as usize, groups) {
                            Ok(_) => {},
                            Err(error) => {
                                let i = choose|i: int|
                                    {
                                        &&& 0 <= i < items.len()
                                        &&& item_group(
                                            #[trigger] items[i],
                                            last as usize,
                                            i as usize,
                                        ) == Err::<Group, DeriveError>(error)
                                        &&& forall|j: int|
                                            0 <= j < i ==> item_group(
                                                #[trigger] items[j],
                                                last as usize,
                                                j as usize,
                                            ) is Ok
                                    };
                                assert(first_error(attrs, last, i, error));
                            },
                        }
                    },
                }
            },
            Err(error) => {
                let (a, i) = choose|a: int, i: int| first_error(rest, a, i, error);
                assert(error_at(rest, a, i) is Some);
                assert(first_error(attrs, a, i, error));
            },
        }
    }
}

/// Reads the groups that the attributes of a type ask for.
pub fn parse_attributes(attrs: &[Attribute]) -> (result: Result<Groups, DeriveError>)
    ensures
        match (result, requested(attribute_views(attrs@))) {
            (Ok(groups), Ok(set)) => groups@ == set,
            (Err(error), Err(expected)) => error == expected,
            _ => false,
        },
{
    let ghost views = attribute_views(attrs@);
    let mut groups = Groups::none();
    let n: usize = attrs.len();
    let mut a: usize = 0;
    assert(views.take(0) =~= Seq::<AttributeView>::empty());
    while a < n
        invariant
            n == attrs@.len(),
            a <= n,
            views == attribute_views(attrs@),
            collect(views.take(a as int)) == Ok::<Set<Group>, DeriveError>(groups@),
        decreases n - a,
    {
        let ghost before = groups@;
        proof {
            assert(views.take(a + 1).drop_last() =~= views.take(a as int));
            assert(views.take(a + 1).last() == attrs@[a as int]@);
        }
        match &attrs[a] {
            Attribute::Foreign => {},
            Attribute::Malformed => {
                proof {
                    lemma_error_stays(views, a + 1);
                }
                return Err(DeriveError::MalformedAttribute { attribute: a });
            },
            Attribute::Tagged(items) => {
                let ghost entries = item_views(items@);
                let m: usize = items.len();
                let mut i: usize = 0;
                assert(entries.take(0) =~= Seq::<ItemView>::empty());
                while i < m
                    invariant
                        m == items@.len(),
                        i <= m,
                        a < n,
                        n == attrs@.len(),
                        views == attribute_views(attrs@),
                        entries == item_views(items@),
                        views.take(a + 1).drop_last() =~= views.take(a as int),
                        views.take(a + 1).last() == AttributeView::Tagged(entries),
                        collect(views.take(a as int)) == Ok::<Set<Group>, DeriveError>(before),
                        collect_items(entries.take(i as int), a, before) == Ok::<
                            Set<Group>,
                            DeriveError,
                        >(groups@),
                    decreases m - i,
                {
                    proof {
                        assert(entries.take(i + 1).drop_last() =~= entries.take(i as int));
                        assert(entries.take(i + 1).last() == items@[i as int]@);
                    }
                    let found = match &items[i] {
                        Item::Tag(name) => match Group::parse(name.as_str()) {
                            Some(group) => Ok(group),
                            None => Err(DeriveError::UnknownGroup { attribute: a, item: i }),
                        },
                        _ => Err(DeriveError::ExpectedIdentifier { attribute: a, item: i }),
                    };
                    match found {
                        Ok(group) => {
                            groups = groups.with(group);
                        },
                        Err(error) => {
                            proof {
                                lemma_item_error_stays(entries, a, before, i + 1);
                                lemma_error_stays(views, a + 1);
                            }
                            return Err(error);
                        },
                    }
                    i = i + 1;
                }
                assert(entries.take(m as int) =~= entries);
            },
        }
        a = a + 1;
    }
    assert(views.take(n as int) =~= views);
    if groups.is_empty() {
        Ok(Groups::all())
    } else {
        Ok(groups)
    }
}

/// What is declared for `group`, where `groups` are asked for. A fold rests on
/// the operator that it repeats: the folds are declared only where the
/// arithmetic operators are asked for as well.
pub open spec fn planned_for(
    group: Group,
    groups: Set<Group>,
    target: Seq<char>,
    inner: Seq<char>,
) -> Seq<ImplView> {
    if !groups.contains(group) {
        seq![]
    } else {
        match group {
            Group::Arithmetic => group_plan::<Arithmetic>(target, inner),
            Group::Bitwise => group_plan::<Bit>(target, inner),
            Group::Formatting => group_plan::<Formatting>(target, inner),
            Group::Comparison => group_plan::<Comparison>(target, inner),
            Group::Accumulation => if groups.contains(Group::Arithmetic) {
                group_plan::<Accumulation>(target, inner)
            } else {
                seq![]
            },
        }
    }
}

/// The declarations for the wrapper `target` of the inner type `inner`, where
/// `groups` are asked for: those of each group, one group after the other.
pub open spec fn planned(target: Seq<char>, inner: Seq<char>, groups: Set<Group>) -> Seq<
    ImplView,
> {
    planned_for(Group::Arithmetic, groups, target, inner) + planned_for(
        Group::Bitwise,
        groups,
        target,
        inner,
    ) + planned_for(Group::Formatting, groups, target, inner) + planned_for(
        Group::Comparison,
        groups,
        target,
        inner,
    ) + planned_for(Group::Accumulation, groups, target, inner)
}

/// Plans the declarations for the wrapper `target` of the inner type `inner`.
pub fn generate(target: &str, inner: &str, groups: &Groups) -> (decls: Vec<Impl>)
    ensures
        impl_views(decls@) == planned(target@, inner@, groups@),
{
    let mut sink = Sink::new();
    if groups.arithmetic {
        Arithmetic::generate_all(&mut sink, target, inner);
    }
    assert(sink@ =~= planned_for(Group::Arithmetic, groups@, target@, inner@));
    let ghost first = sink@;
    if groups.bitwise {
        Bit::generate_all(&mut sink, target, inner);
    }
    assert(sink@ =~= first + planned_for(Group::Bitwise, groups@, target@, inner@));
    let ghost second = sink@;
    if groups.formatting {
        Formatting::generate_all(&mut sink, target, inner);
    }
    assert(sink@ =~= second + planned_for(Group::Formatting, groups@, target@, inner@));
    let ghost third = sink@;
    if groups.comparison {
        Comparison::generate_all(&mut sink, target, inner);
    }
    assert(sink@ =~= third + planned_for(Group::Comparison, groups@, target@, inner@));
    let ghost fourth = sink@;
    if groups.accumulation && groups.arithmetic {
        Accumulation::generate_all(&mut sink, target, inner);
    }
    assert(sink@ =~= fourth + planned_for(Group::Accumulation, groups@, target@, inner@));
    sink.finish()
}

/// A wrapper type: its name and the name of the primitive type that it holds.
pub struct TypeDescriptor {
    wrapper_name: String,
    inner_type: String,
}

impl TypeDescriptor {
    /// The name of the wrapper.
    pub closed spec fn spec_wrapper_name(&self) -> Seq<char> {
        self.wrapper_name@
    }

    /// The name of the primitive type that the wrapper holds.
    pub closed spec fn spec_inner_type(&self) -> Seq<char> {
        self.inner_type@
    }

    /// The inner type is a primitive type that a wrapper can hold.
    #[verifier::type_invariant]
    closed spec fn holds_primitive(&self) -> bool {
        is_primitive(self.inner_type@)
    }

    /// Describes the wrapper `wrapper_name` of the type `inner_type`, which has
    /// to be a primitive type that a wrapper can hold.
    pub fn new(wrapper_name: &str, inner_type: &str) -> (result: Result<Self, DeriveError>)
        ensures
            result is Ok <==> is_primitive(inner_type@),
            result matches Ok(desc) ==> desc.spec_wrapper_name() == wrapper_name@
                && desc.spec_inner_type() == inner_type@,
            result matches Err(error) ==> error == DeriveError::UnknownType,
    {
        if names_primitive(inner_type) {
            Ok(
                TypeDescriptor {
                    wrapper_name: String::from_str(wrapper_name),
                    inner_type: String::from_str(inner_type),
                },
            )
        } else {
            Err(DeriveError::UnknownType)
        }
    }

    /// Returns the name of the wrapper.
    pub fn wrapper_name(&self) -> (name: &str)
        ensures
            name@ == self.spec_wrapper_name(),
    {
        self.wrapper_name.as_str()
    }

    /// Returns the name of the primitive type that the wrapper holds.
    pub fn inner_type(&self) -> (name: &str)
        ensures
            name@ == self.spec_inner_type(),
            is_primitive(name@),
    {
        proof {
            use_type_invariant(self);
        }
        self.inner_type.as_str()
    }

    /// Plans the declarations for this wrapper.
    pub fn generate(&self, groups: &Groups) -> (decls: Vec<Impl>)
        ensures
            impl_views(decls@) == planned(
                self.spec_wrapper_name(),
                self.spec_inner_type(),
                groups@,
            ),
    {
        generate(self.wrapper_name.as_str(), self.inner_type.as_str(), groups)
    }
}

/// The type of a field.
#[derive(Debug, PartialEq, Eq)]
pub enum Field {
    /// A single name.
    Ident(String),
    /// Anything else.
    Other,
}

/// What a [`Field`] holds.
pub enum FieldView {
    Ident(Seq<char>),
    Other,
}

impl View for Field {
    type V = FieldView;

    open spec fn view(&self) -> FieldView {
        match self {
            Field::Ident(name) => FieldView::Ident(name@),
            Field::Other => FieldView::Other,
        }
    }
}

/// The shape of a type.
#[derive(Debug, PartialEq, Eq)]
pub enum Body {
    /// A tuple struct, with the types of its fields.
    Tuple(Vec<Field>),
    /// Any other shape.
    Other,
}

/// What a [`Body`] holds.
pub enum BodyView {
    Tuple(Seq<FieldView>),
    Other,
}

impl View for Body {
    type V = BodyView;

    open spec fn view(&self) -> BodyView {
        match self {
            Body::Tuple(fields) => BodyView::Tuple(fields@.map_values(|field: Field| field@)),
            Body::Other => BodyView::Other,
        }
    }
}

/// What is derived for the type `name` of the shape `body` with the
/// attributes `attrs`.
///
/// The type has to be a tuple struct, its attributes have to name groups, and
/// it has to have one field, of a primitive type that a wrapper can hold. The
/// first of these that fails is the error. Else the declarations are those
/// planned for the groups that the attributes ask for.
pub open spec fn derived(name: Seq<char>, body: BodyView, attrs: Seq<AttributeView>) -> Result<
    Seq<ImplView>,
    DeriveError,
> {
    match body {
        BodyView::Other => Err(DeriveError::NotTupleStruct),
        BodyView::Tuple(fields) => match requested(attrs) {
            Err(error) => Err(error),
            Ok(groups) => if fields.len() != 1 {
                Err(DeriveError::NotSingleField)
            } else {
                match fields[0] {
                    FieldView::Ident(inner) if is_primitive(inner) => Ok(
                        planned(name, inner, groups),
                    ),
                    _ => Err(DeriveError::UnknownType),
                }
            },
        },
    }
}

/// Plans the declarations for the type `name`, as its shape and its
/// attributes ask for them.
pub fn primitive_derive(name: &str, body: &Body, attrs: &[Attribute]) -> (result: Result<
    Vec<Impl>,
    DeriveError,
>)
    ensures
        match (result, derived(name@, body@, attribute_views(attrs@))) {
            (Ok(decls), Ok(plan)) => impl_views(decls@) == plan,
            (Err(error), Err(expected)) => error == expected,
            _ => false,
        },
{
    let fields = match body {
        Body::Tuple(fields) => fields,
        Body::Other => {
            return Err(DeriveError::NotTupleStruct);
        },
    };
    let groups = match parse_attributes(attrs) {
        Ok(groups) => groups,
        Err(error) => {
            return Err(error);
        },
    };
    if fields.len() != 1 {
        return Err(DeriveError::NotSingleField);
    }
    let inner = match &fields[0] {
        Field::Ident(inner) => inner,
        Field::Other => {
            return Err(DeriveError::UnknownType);
        },
    };
    match TypeDescriptor::new(name, inner.as_str()) {
        Ok(desc) => Ok(desc.generate(&groups)),
        Err(error) => Err(error),
    }
}

} // verus!
