//! The capability every representation of a domain name provides.

use crate::borrowed::BorrowedName;
use crate::label::LabelIter;
use crate::name::Name;
use vstd::prelude::*;

verus! {

/// The name a value denotes: its labels in order, and whether it is fully qualified.
pub struct NameView {
    pub labels: Seq<Seq<u8>>,
    pub fqdn: bool,
}

/// What can be asked of anything that denotes a domain name.
///
/// The spec function `model` says which name a value denotes; the executable
/// methods are specified against it.
pub trait DnsName {
    /// The name this value denotes.
    spec fn model(&self) -> NameView;

    /// Whether this value stores its own flag, so that `set_fqdn` may change it.
    spec fn can_mutate_in_place(&self) -> bool;

    /// A cursor over the labels, positioned before the first one.
    fn labels(&self) -> (iter: LabelIter<'_>)
        ensures
            iter@ == self.model().labels,
    ;

    /// Whether the name is fully qualified.
    fn is_fqdn(&self) -> (flag: bool)
        ensures
            flag == self.model().fqdn,
    ;

    /// Makes the name fully qualified, or not.
    ///
    /// A value that cannot change its flag accepts only the value the flag
    /// already has; asking it for the other one is a caller error.
    fn set_fqdn(&mut self, is_fqdn: bool)
        requires
            old(self).can_mutate_in_place() || is_fqdn == old(self).model().fqdn,
        ensures
            final(self).model() == (NameView { labels: old(self).model().labels, fqdn: is_fqdn }),
            final(self).can_mutate_in_place() == old(self).can_mutate_in_place(),
    ;

    /// A light view of the same name, valid as long as `self` is borrowed.
    fn borrowed_name<'b>(&'b self) -> (view: BorrowedName<'b>)
        ensures
            view@ == self.model(),
    ;

    /// A freshly allocated owned copy of the name.
    fn to_name(&self) -> (name: Name)
        ensures
            name@ == self.model(),
    ;
}

} // verus!
