//! Planned conversions and what they do to values.
//!
//! A [`Conversion`] says how an instance of a declared type is built from the
//! values of its active fields, or how the single active value is read back.
//! Members that are excluded take no value: they are filled by default.

use crate::text::copy_optional;
use vstd::prelude::*;

verus! {

/// Which way a conversion goes.
#[derive(Clone, Copy, Debug, PartialEq, Eq, Structural)]
pub enum Direction {
    /// From the values of the active members to the declared type.
    Construct,
    /// From the declared type to the value of its single active member.
    Extract,
}

/// How an instance of the target is written.
#[derive(Clone, Debug)]
pub enum Layout {
    /// A record: each member by its name.
    Named,
    /// A positional record: each member by its position.
    Positional,
    /// A variant of a union, by the variant's name, its payload by position.
    Variant(String),
}

/// A field of the target, as the conversion sees it.
#[derive(Clone, Debug)]
pub struct Member {
    pub name: Option<String>,
    pub ty: String,
    pub excluded: bool,
}

/// A conversion between a declared type and the values of its active members.
#[derive(Clone, Debug)]
pub struct Conversion {
    pub direction: Direction,
    /// The declared type's name.
    pub target: String,
    /// The source text of each generic parameter of the declared type.
    pub generics: Vec<String>,
    pub layout: Layout,
    /// The fields in declaration order.
    pub members: Vec<Member>,
}

pub ghost enum LayoutModel {
    Named,
    Positional,
    Variant(Seq<char>),
}

pub ghost struct MemberModel {
    pub name: Option<Seq<char>>,
    pub ty: Seq<char>,
    pub excluded: bool,
}

pub ghost struct ConversionModel {
    pub direction: Direction,
    pub target: Seq<char>,
    pub generics: Seq<Seq<char>>,
    pub layout: LayoutModel,
    pub members: Seq<MemberModel>,
}

impl View for Layout {
    type V = LayoutModel;

    open spec fn view(&self) -> LayoutModel {
        match self {
            Layout::Named => LayoutModel::Named,
            Layout::Positional => LayoutModel::Positional,
            Layout::Variant(name) => LayoutModel::Variant(name@),
        }
    }
}

impl View for Member {
    type V = MemberModel;

    open spec fn view(&self) -> MemberModel {
        MemberModel { name: self.name.deep_view(), ty: self.ty@, excluded: self.excluded }
    }
}

impl DeepView for Member {
    type V = MemberModel;

    open spec fn deep_view(&self) -> MemberModel {
        self@
    }
}

impl View for Conversion {
    type V = ConversionModel;

    open spec fn view(&self) -> ConversionModel {
        ConversionModel {
            direction: self.direction,
            target: self.target@,
            generics: self.generics.deep_view(),
            layout: self.layout@,
            members: self.members.deep_view(),
        }
    }
}

impl DeepView for Conversion {
    type V = ConversionModel;

    open spec fn deep_view(&self) -> ConversionModel {
        self@
    }
}

/// The members among the first `n` that take a value, in declaration order.
pub open spec fn active(members: Seq<MemberModel>, n: int) -> Seq<MemberModel>
    decreases n,
{
    if n <= 0 {
        Seq::empty()
    } else if members[n - 1].excluded {
        active(members, n - 1)
    } else {
        active(members, n - 1).push(members[n - 1])
    }
}

/// The members among the first `n` that are filled by default, in declaration
/// order.
pub open spec fn defaulted(members: Seq<MemberModel>, n: int) -> Seq<MemberModel>
    decreases n,
{
    if n <= 0 {
        Seq::empty()
    } else if members[n - 1].excluded {
        defaulted(members, n - 1).push(members[n - 1])
    } else {
        defaulted(members, n - 1)
    }
}

/// The position of the first member among the first `n` that takes a value;
/// `n` where there is none.
pub open spec fn first_active(members: Seq<MemberModel>, n: int) -> int
    decreases n,
{
    if n <= 0 {
        0
    } else {
        let found = first_active(members, n - 1);
        if found < n - 1 {
            found
        } else if members[n - 1].excluded {
            n
        } else {
            n - 1
        }
    }
}

/// The types of `members`, in order.
pub open spec fn types_of(members: Seq<MemberModel>) -> Seq<Seq<char>> {
    Seq::new(members.len(), |i: int| members[i].ty)
}

impl LayoutModel {
    /// The variant that instances are tagged with.
    pub open spec fn tag(self) -> Option<Seq<char>> {
        match self {
            LayoutModel::Variant(name) => Some(name),
            _ => None,
        }
    }
}

impl ConversionModel {
    /// All members that take a value.
    pub open spec fn active_members(self) -> Seq<MemberModel> {
        active(self.members, self.members.len() as int)
    }

    /// All members that are filled by default.
    pub open spec fn defaulted_members(self) -> Seq<MemberModel> {
        defaulted(self.members, self.members.len() as int)
    }

    /// The types of the values that the conversion takes or gives, in order.
    pub open spec fn source_types(self) -> Seq<Seq<char>> {
        types_of(self.active_members())
    }

    /// The number of values that the conversion takes or gives.
    pub open spec fn arity(self) -> nat {
        self.active_members().len()
    }

    /// Whether the target has to offer a default value: it has, as soon as a
    /// member is filled by default.
    pub open spec fn needs_default(self) -> bool {
        self.defaulted_members().len() > 0
    }

    /// What the generators promise of a conversion. A record has an active
    /// member and names for all members; only a record fills members by
    /// default; a variant has a payload; an extraction reads the single active
    /// member of a record.
    pub open spec fn well_formed(self) -> bool {
        &&& self.layout is Named ==> self.arity() >= 1
        &&& self.layout is Named ==> forall|i: int|
            0 <= i < self.members.len() ==> (#[trigger] self.members[i]).name is Some
        &&& !(self.layout is Named) ==> !self.needs_default()
        &&& self.layout is Variant ==> self.arity() >= 1
        &&& self.direction == Direction::Extract ==> self.arity() == 1 && !(self.layout
            is Variant)
    }
}

/// What a field of an instance holds.
#[derive(Clone, Debug, PartialEq, Eq)]
pub enum Slot<V> {
    /// A value handed to the construction.
    Supplied(V),
    /// The default value of the field's type.
    Defaulted,
}

/// A field of an instance.
#[derive(Clone, Debug, PartialEq, Eq)]
pub struct InstanceField<V> {
    pub name: Option<String>,
    pub value: Slot<V>,
}

/// An instance of a declared type: its fields in declaration order and, for a
/// union, the variant it is tagged with.
#[derive(Clone, Debug, PartialEq, Eq)]
pub struct Instance<V> {
    pub target: String,
    pub variant: Option<String>,
    pub fields: Vec<InstanceField<V>>,
}

pub ghost struct InstanceFieldModel<V> {
    pub name: Option<Seq<char>>,
    pub value: Slot<V>,
}

pub ghost struct InstanceModel<V> {
    pub target: Seq<char>,
    pub variant: Option<Seq<char>>,
    pub fields: Seq<InstanceFieldModel<V>>,
}

impl<V> View for InstanceField<V> {
    type V = InstanceFieldModel<V>;

    open spec fn view(&self) -> InstanceFieldModel<V> {
        InstanceFieldModel { name: self.name.deep_view(), value: self.value }
    }
}

impl<V> DeepView for InstanceField<V> {
    type V = InstanceFieldModel<V>;

    open spec fn deep_view(&self) -> InstanceFieldModel<V> {
        self@
    }
}

impl<V> View for Instance<V> {
    type V = InstanceModel<V>;

    open spec fn view(&self) -> InstanceModel<V> {
        InstanceModel {
            target: self.target@,
            variant: self.variant.deep_view(),
            fields: self.fields.deep_view(),
        }
    }
}

impl ConversionModel {
    /// The field that a construction from `values` puts at position `i`: an
    /// excluded member is filled by default, and the active members take the
    /// values in order.
    pub open spec fn constructed_field<V>(self, values: Seq<V>, i: int) -> InstanceFieldModel<V> {
        InstanceFieldModel {
            name: self.members[i].name,
            value: if self.members[i].excluded {
                Slot::Defaulted
            } else {
                Slot::Supplied(values[active(self.members, i).len() as int])
            },
        }
    }

    /// The instance that a construction builds from `values`. There is one
    /// exactly when the conversion is a construction and takes that many
    /// values.
    pub open spec fn constructed<V>(self, values: Seq<V>) -> Option<InstanceModel<V>> {
        if self.direction == Direction::Construct && values.len() == self.arity() {
            Some(
                InstanceModel {
                    target: self.target,
                    variant: self.layout.tag(),
                    fields: Seq::new(
                        self.members.len(),
                        |i: int| self.constructed_field(values, i),
                    ),
                },
            )
        } else {
            None
        }
    }

    /// Whether `instance` has the target's name, tag and number of fields.
    pub open spec fn fits<V>(self, instance: InstanceModel<V>) -> bool {
        &&& instance.target == self.target
        &&& instance.variant == self.layout.tag()
        &&& instance.fields.len() == self.members.len()
    }

    /// The value that an extraction reads from `instance`: that of the single
    /// active member. There is one exactly when the conversion is an
    /// extraction with one active member, the instance fits it, and the
    /// member's field holds a supplied value.
    pub open spec fn extracted<V>(self, instance: InstanceModel<V>) -> Option<V> {
        if self.direction == Direction::Extract && self.arity() == 1 && self.fits(instance) {
            match instance.fields[first_active(self.members, self.members.len() as int)].value {
                Slot::Supplied(value) => Some(value),
                Slot::Defaulted => None,
            }
        } else {
            None
        }
    }
}

/// The active members among the first `n` are no more than those among the
/// first `m`, for `n <= m`.
pub proof fn lemma_active_grows(members: Seq<MemberModel>, n: int, m: int)
    requires
        n <= m,
    ensures
        active(members, n).len() <= active(members, m).len(),
    decreases m - n,
{
    if n < m {
        lemma_active_grows(members, n, m - 1);
    }
}

/// Each of the first `n` members either takes a value or is filled by default.
pub proof fn lemma_partition(members: Seq<MemberModel>, n: int)
    requires
        0 <= n,
    ensures
        active(members, n).len() + defaulted(members, n).len() == n,
    decreases n,
{
    if n > 0 {
        lemma_partition(members, n - 1);
    }
}

/// Where the first `n` members hold an active one, `first_active` is its
/// position: it is active, and none before it is.
pub proof fn lemma_first_active(members: Seq<MemberModel>, n: int)
    requires
        0 <= n <= members.len(),
    ensures
        0 <= first_active(members, n) <= n,
        first_active(members, n) < n ==> !members[first_active(members, n)].excluded,
        forall|j: int| 0 <= j < first_active(members, n) && j < n ==> members[j].excluded,
        first_active(members, n) == n <==> active(members, n).len() == 0,
        active(members, first_active(members, n)).len() == 0,
    decreases n,
{
    if n > 0 {
        lemma_first_active(members, n - 1);
        lemma_active_grows(members, first_active(members, n - 1), n - 1);
    }
}

impl Conversion {
    /// The number of values that the conversion takes or gives.
    pub fn arity(&self) -> (count: usize)
        ensures
            count == self@.arity(),
    {
        let mut count: usize = 0;
        let mut i: usize = 0;
        while i < self.members.len()
            invariant
                i <= self.members.len(),
                count == active(self@.members, i as int).len(),
                count <= i,
            decreases self.members.len() - i,
        {
            if !self.members[i].excluded {
                count += 1;
            }
            i += 1;
        }
        count
    }

    /// Whether the target has to offer a default value.
    pub fn needs_default(&self) -> (needed: bool)
        ensures
            needed == self@.needs_default(),
    {
        let mut needed = false;
        let mut i: usize = 0;
        while i < self.members.len()
            invariant
                i <= self.members.len(),
                needed == (defaulted(self@.members, i as int).len() > 0),
            decreases self.members.len() - i,
        {
            if self.members[i].excluded {
                needed = true;
            }
            i += 1;
        }
        needed
    }

    /// The types of the values that the conversion takes or gives, in order.
    pub fn source_types(&self) -> (types: Vec<String>)
        ensures
            types.deep_view() == self@.source_types(),
    {
        let mut types: Vec<String> = Vec::new();
        let mut i: usize = 0;
        while i < self.members.len()
            invariant
                i <= self.members.len(),
                types.deep_view() == types_of(active(self@.members, i as int)),
            decreases self.members.len() - i,
        {
            if !self.members[i].excluded {
                let ghost before = types.deep_view();
                types.push(self.members[i].ty.clone());
                assert(types.deep_view() =~= before.push(self.members@[i as int]@.ty));
                assert(types_of(active(self@.members, i + 1)) =~= before.push(
                    self.members@[i as int]@.ty,
                ));
            }
            i += 1;
        }
        types
    }

    /// Builds an instance of the target from `values`, one for each active
    /// member in declaration order. Excluded members are filled by default.
    /// Nothing is built by an extraction, or from another number of values.
    pub fn construct<V>(&self, values: Vec<V>) -> (built: Option<Instance<V>>)
        ensures
            built is Some <==> self.direction == Direction::Construct && values@.len()
                == self@.arity(),
            match built {
                Some(instance) => self@.constructed(values@) == Some(instance@),
                None => self@.constructed(values@) is None,
            },
    {
        match self.direction {
            Direction::Construct => {},
            Direction::Extract => {
                return None;
            },
        }
        if values.len() != self.arity() {
            return None;
        }
        let ghost given = values@;
        let mut values = values;
        let mut fields: Vec<InstanceField<V>> = Vec::new();
        let mut i: usize = 0;
        while i < self.members.len()
            invariant
                i <= self.members.len(),
                given.len() == self@.arity(),
                fields@.len() == i,
                active(self@.members, i as int).len() <= given.len(),
                values@ == given.subrange(
                    active(self@.members, i as int).len() as int,
                    given.len() as int,
                ),
                forall|j: int|
                    0 <= j < i ==> (#[trigger] fields.deep_view()[j]) == self@.constructed_field(
                        given,
                        j,
                    ),
            decreases self.members.len() - i,
        {
            let member = &self.members[i];
            proof {
                lemma_active_grows(self@.members, i + 1, self.members.len() as int);
            }
            let value = if member.excluded {
                Slot::Defaulted
            } else {
                Slot::Supplied(values.remove(0))
            };
            let ghost before = fields.deep_view();
            let field = InstanceField { name: copy_optional(&member.name), value };
            assert(field@ == self@.constructed_field(given, i as int));
            fields.push(field);
            assert(fields.deep_view() =~= before.push(field@));
            i += 1;
        }
        let variant = match &self.layout {
            Layout::Variant(name) => Some(name.clone()),
            _ => None,
        };
        let instance = Instance { target: self.target.clone(), variant, fields };
        assert(instance@.fields =~= self@.constructed(given)->0.fields);
        Some(instance)
    }

    /// The position of the first active member; the number of members where
    /// there is none.
    pub fn first_active_position(&self) -> (position: usize)
        ensures
            position == first_active(self@.members, self@.members.len() as int),
    {
        let mut i: usize = 0;
        while i < self.members.len()
            invariant
                i <= self.members.len(),
                first_active(self@.members, i as int) == i,
            decreases self.members.len() - i,
        {
            if !self.members[i].excluded {
                proof {
                    lemma_first_found(self@.members, i as int, self.members.len() as int);
                }
                return i;
            }
            i += 1;
        }
        i
    }

    /// Whether `instance` has the target's name, tag and number of fields.
    pub fn fits<V>(&self, instance: &Instance<V>) -> (fitting: bool)
        ensures
            fitting == self@.fits(instance@),
    {
        let same_tag = match (&self.layout, &instance.variant) {
            (Layout::Variant(name), Some(variant)) => name.eq(variant),
            (Layout::Variant(_), None) => false,
            (_, Some(_)) => false,
            (_, None) => true,
        };
        same_tag && instance.target.eq(&self.target) && instance.fields.len()
            == self.members.len()
    }

    /// Reads the value of the single active member out of `instance`. Nothing
    /// is read by a construction, nor from an instance that does not fit the
    /// target or whose field holds no supplied value.
    pub fn extract<V>(&self, instance: Instance<V>) -> (read: Option<V>)
        ensures
            read == self@.extracted(instance@),
    {
        match self.direction {
            Direction::Extract => {},
            Direction::Construct => {
                return None;
            },
        }
        if self.arity() != 1 {
            return None;
        }
        if !self.fits(&instance) {
            return None;
        }
        let position = self.first_active_position();
        proof {
            lemma_first_active(self@.members, self.members.len() as int);
        }
        let ghost model = instance@;
        let Instance { target: _, variant: _, fields } = instance;
        let mut fields = fields;
        let field = fields.remove(position);
        assert(field@ == model.fields[position as int]);
        match field.value {
            Slot::Supplied(value) => Some(value),
            Slot::Defaulted => None,
        }
    }
}

/// An active member at `i` with none before it is the first active member of
/// every longer prefix.
proof fn lemma_first_found(members: Seq<MemberModel>, i: int, n: int)
    requires
        0 <= i < n <= members.len(),
        first_active(members, i) == i,
        !members[i].excluded,
    ensures
        first_active(members, n) == i,
    decreases n,
{
    if n > i + 1 {
        lemma_first_found(members, i, n - 1);
    }
}

} // verus!
