//! A name that is borrowed until somebody needs to change it.

use crate::borrowed::BorrowedName;
use crate::dns_name::{DnsName, NameView};
use crate::label::LabelIter;
use crate::name::Name;
use crate::name_ref::NameRef;
use vstd::pervasive::runtime_assert;
use vstd::prelude::*;
use vstd::std_specs::convert::FromSpecImpl;

verus! {

/// A copy-on-write name.
///
/// Whichever variant is active, the value denotes one name: its view is the
/// view of what it holds. The three borrowed variants cost no allocation;
/// [`CowName::to_mut`] replaces them by an owned copy the first time it is
/// called.
pub enum CowName<'a> {
    /// A shared reference to anything that is a name. It cannot be changed in place.
    Borrowed(&'a dyn DnsName),
    /// A light view of an owned or buffer-backed name.
    BorrowedName(BorrowedName<'a>),
    /// A name that indexes into a decode buffer.
    NameRef(NameRef<'a>),
    /// A name that owns its bytes.
    Owned(Name),
}

impl<'a> View for CowName<'a> {
    type V = NameView;

    open spec fn view(&self) -> NameView {
        match self {
            CowName::Borrowed(name) => name.model(),
            CowName::BorrowedName(name) => name@,
            CowName::NameRef(name) => name@,
            CowName::Owned(name) => name@,
        }
    }
}

impl From<Name> for CowName<'static> {
    /// Wraps an owned name. Nothing is copied.
    fn from(name: Name) -> (cow: Self)
        ensures
            cow == CowName::Owned(name),
            cow@ == name@,
    {
        CowName::Owned(name)
    }
}

impl FromSpecImpl<Name> for CowName<'static> {
    open spec fn obeys_from_spec() -> bool {
        true
    }

    open spec fn from_spec(name: Name) -> Self {
        CowName::Owned(name)
    }
}

impl<'a> From<NameRef<'a>> for CowName<'a> {
    /// Wraps a buffer-backed name. Nothing is copied.
    fn from(name: NameRef<'a>) -> (cow: Self)
        ensures
            cow == CowName::NameRef(name),
            cow@ == name@,
    {
        CowName::NameRef(name)
    }
}

impl<'a> FromSpecImpl<NameRef<'a>> for CowName<'a> {
    open spec fn obeys_from_spec() -> bool {
        true
    }

    open spec fn from_spec(name: NameRef<'a>) -> Self {
        CowName::NameRef(name)
    }
}

impl<'a> From<BorrowedName<'a>> for CowName<'a> {
    /// Wraps a light view. Nothing is copied.
    fn from(name: BorrowedName<'a>) -> (cow: Self)
        ensures
            cow == CowName::BorrowedName(name),
            cow@ == name@,
    {
        CowName::BorrowedName(name)
    }
}

impl<'a> FromSpecImpl<BorrowedName<'a>> for CowName<'a> {
    open spec fn obeys_from_spec() -> bool {
        true
    }

    open spec fn from_spec(name: BorrowedName<'a>) -> Self {
        CowName::BorrowedName(name)
    }
}

impl<'a> From<&'a dyn DnsName> for CowName<'a> {
    /// Wraps a reference to anything that is a name. Nothing is copied.
    ///
    /// The contract names the value made, not its view: the verifier takes a
    /// trait object that is passed on as a trait object for a value it knows
    /// nothing of. A caller that needs the view builds [`CowName::Borrowed`]
    /// from a reference to a concrete type, whose view the verifier keeps.
    fn from(name: &'a dyn DnsName) -> (cow: Self)
        ensures
            cow == CowName::Borrowed(name),
    {
        CowName::Borrowed(name)
    }
}

impl<'a> FromSpecImpl<&'a dyn DnsName> for CowName<'a> {
    open spec fn obeys_from_spec() -> bool {
        true
    }

    open spec fn from_spec(name: &'a dyn DnsName) -> Self {
        CowName::Borrowed(name)
    }
}

impl<'a> CowName<'a> {
    /// Whether `owned` is what promotion makes of this value: the name held
    /// if one is held already, and in any case the same name.
    pub open spec fn promotes_to(&self, owned: Name) -> bool {
        &&& owned@ == self@
        &&& *self matches CowName::Owned(name) ==> owned == name
    }

    /// What `is_owned` returns.
    pub open spec fn spec_is_owned(&self) -> bool {
        self is Owned
    }

    /// What `is_borrowed` returns.
    pub open spec fn spec_is_borrowed(&self) -> bool {
        !self.spec_is_owned()
    }

    /// Whether this is one of the borrowed variants.
    #[verifier::when_used_as_spec(spec_is_borrowed)]
    pub fn is_borrowed(&self) -> (borrowed: bool)
        ensures
            borrowed == !self.is_owned(),
    {
        !self.is_owned()
    }

    /// Whether this is the owned variant.
    #[verifier::when_used_as_spec(spec_is_owned)]
    pub fn is_owned(&self) -> (owned: bool)
        ensures
            owned == (self is Owned),
    {
        if let CowName::Owned(_) = self {
            true
        } else {
            false
        }
    }

    /// The name held, as a trait object. Nothing is allocated or copied.
    ///
    /// For the variant that holds a trait object already, the object handed
    /// out is this value itself, which answers by asking the object it holds:
    /// of that the verifier knows the view, of a trait object passed on as one
    /// it would not.
    pub fn as_object(&'a self) -> (object: &'a dyn DnsName)
        ensures
            object.model() == self@,
    {
        match self {
            CowName::Borrowed(_) => {
                return self;
            },
            CowName::BorrowedName(name) => {
                return name;
            },
            CowName::NameRef(name) => {
                return name;
            },
            CowName::Owned(name) => {
                return name;
            },
        };
    }

    /// Exclusive access to an owned name, made from the borrowed one if need be.
    ///
    /// Afterwards the value is owned, and holds whatever the caller leaves
    /// behind the reference. A value that was owned already hands out the name
    /// it holds; no copy is made.
    pub fn to_mut(&mut self) -> (owned: &mut Name)
        ensures
            old(self).promotes_to(*owned),
            *final(self) == CowName::Owned(*final(owned)),
            final(self).is_owned(),
    {
        match self {
            CowName::Borrowed(name) => *self = CowName::Owned(name.to_name()),
            CowName::BorrowedName(name) => *self = CowName::Owned(name.to_name()),
            CowName::NameRef(name) => *self = CowName::Owned(name.to_name()),
            _ => (),
        }
        if let CowName::Owned(owned) = self {
            owned
        } else {
            unreached()
        }
    }

    /// The buffer-backed name, if that is what this value holds, and `None` for
    /// every other variant.
    pub fn to_ref(self) -> (name: Option<NameRef<'a>>)
        ensures
            name == (match self {
                CowName::NameRef(inner) => Some(inner),
                _ => None,
            }),
    {
        if let CowName::NameRef(name) = self {
            Some(name)
        } else {
            None
        }
    }
}

impl<'a> DnsName for CowName<'a> {
    open spec fn model(&self) -> NameView {
        self@
    }

    open spec fn can_mutate_in_place(&self) -> bool {
        !(self is Borrowed)
    }

    fn labels(&self) -> (iter: LabelIter<'_>) {
        match self {
            CowName::Borrowed(name) => name.labels(),
            CowName::BorrowedName(name) => name.labels(),
            CowName::NameRef(name) => name.labels(),
            CowName::Owned(name) => name.labels(),
        }
    }

    fn is_fqdn(&self) -> (flag: bool) {
        match self {
            CowName::Borrowed(name) => name.is_fqdn(),
            CowName::BorrowedName(name) => name.is_fqdn(),
            CowName::NameRef(name) => name.is_fqdn(),
            CowName::Owned(name) => name.is_fqdn(),
        }
    }

    /// Sets the flag of the name held, which stays in the variant it is in.
    ///
    /// The variant that holds a shared reference cannot change the name
    /// behind it: it accepts only the value the flag already has.
    fn set_fqdn(&mut self, is_fqdn: bool)
        ensures
            *old(self) is Borrowed ==> *final(self) == *old(self),
            *final(self) is Borrowed == *old(self) is Borrowed,
            *final(self) is BorrowedName == *old(self) is BorrowedName,
            *final(self) is NameRef == *old(self) is NameRef,
            *final(self) is Owned == *old(self) is Owned,
    {
        match self {
            CowName::Borrowed(name) => runtime_assert(name.is_fqdn() == is_fqdn),
            CowName::BorrowedName(name) => name.set_fqdn(is_fqdn),
            CowName::NameRef(name) => name.set_fqdn(is_fqdn),
            CowName::Owned(name) => name.set_fqdn(is_fqdn),
        }
    }

    fn borrowed_name<'b>(&'b self) -> (view: BorrowedName<'b>) {
        match self {
            CowName::Borrowed(name) => name.borrowed_name(),
            CowName::BorrowedName(name) => name.borrowed_name(),
            CowName::NameRef(name) => name.borrowed_name(),
            CowName::Owned(name) => name.borrowed_name(),
        }
    }

    fn to_name(&self) -> (name: Name) {
        match self {
            CowName::Borrowed(name) => name.to_name(),
            CowName::BorrowedName(name) => name.to_name(),
            CowName::NameRef(name) => name.to_name(),
            CowName::Owned(name) => name.to_name(),
        }
    }
}

impl<'a> From<CowName<'a>> for Name {
    /// Unwraps the owned name as it is, or makes one owned copy of a borrowed one.
    fn from(cow: CowName<'a>) -> (name: Self)
        ensures
            cow.promotes_to(name),
    {
        match cow {
            CowName::Borrowed(inner) => inner.to_name(),
            CowName::BorrowedName(inner) => inner.to_name(),
            CowName::NameRef(inner) => inner.to_name(),
            CowName::Owned(inner) => inner,
        }
    }
}

/// Which owned copy is made of a borrowed name is up to the name that makes
/// it, so no spec function gives the result; `from` says what holds of it.
impl<'a> FromSpecImpl<CowName<'a>> for Name {
    open spec fn obeys_from_spec() -> bool {
        false
    }

    open spec fn from_spec(cow: CowName<'a>) -> Self {
        match cow {
            CowName::Owned(inner) => inner,
            _ => arbitrary(),
        }
    }
}

/// Promotion happens at most once: promoting a value that has just been
/// promoted hands out the very name the first promotion made, and leaves the
/// value as it is.
pub proof fn lemma_promotion_is_idempotent(cow: CowName, first: Name, second: Name)
    requires
        cow.promotes_to(first),
        CowName::Owned(first).promotes_to(second),
    ensures
        second == first,
        CowName::Owned(second) == CowName::Owned(first),
{
}

} // verus!
