//! A light, copyable view of a name held elsewhere.

use crate::dns_name::{DnsName, NameView};
use crate::label::{labels_of, spans_fit, LabelIter, LabelSpan};
use crate::name::Name;
use vstd::prelude::*;

verus! {

/// A view of the labels of an owned name or of a buffer-backed one.
///
/// The view borrows the label bytes and the spans; it copies nothing but the
/// flag, which it keeps for itself.
#[derive(Clone, Copy, Debug)]
pub struct BorrowedName<'a> {
    bytes: &'a [u8],
    spans: &'a [LabelSpan],
    is_fqdn: bool,
}

impl<'a> BorrowedName<'a> {
    #[verifier::type_invariant]
    closed spec fn inv(&self) -> bool {
        spans_fit(self.spans@, self.bytes@.len())
    }

    /// The view of the labels that `spans` cuts out of `bytes`.
    pub(crate) fn new(bytes: &'a [u8], spans: &'a [LabelSpan], is_fqdn: bool) -> (view: Self)
        requires
            spans_fit(spans@, bytes@.len()),
        ensures
            view@ == (NameView { labels: labels_of(bytes@, spans@), fqdn: is_fqdn }),
    {
        BorrowedName { bytes, spans, is_fqdn }
    }
}

impl<'a> View for BorrowedName<'a> {
    type V = NameView;

    closed spec fn view(&self) -> NameView {
        NameView { labels: labels_of(self.bytes@, self.spans@), fqdn: self.is_fqdn }
    }
}

impl<'a> DnsName for BorrowedName<'a> {
    open spec fn model(&self) -> NameView {
        self@
    }

    open spec fn can_mutate_in_place(&self) -> bool {
        true
    }

    fn labels(&self) -> (iter: LabelIter<'_>) {
        proof {
            use_type_invariant(self);
        }
        LabelIter::new(self.bytes, self.spans)
    }

    fn is_fqdn(&self) -> (flag: bool) {
        self.is_fqdn
    }

    fn set_fqdn(&mut self, is_fqdn: bool) {
        proof {
            use_type_invariant(&*self);
        }
        self.is_fqdn = is_fqdn;
    }

    fn borrowed_name<'b>(&'b self) -> (view: BorrowedName<'b>) {
        *self
    }

    fn to_name(&self) -> (name: Name) {
        proof {
            use_type_invariant(self);
        }
        Name::copy_of(self.bytes, self.spans, self.is_fqdn)
    }
}

} // verus!
