//! A name whose label bytes lie in a buffer that somebody else owns.

use crate::borrowed::BorrowedName;
use crate::dns_name::{DnsName, NameView};
use crate::label::{labels_of, spans_fit, LabelIter, LabelSpan};
use crate::name::Name;
use vstd::prelude::*;

verus! {

/// A name that indexes into a decode buffer.
///
/// The buffer is borrowed and never written to. The index of label spans and
/// the flag belong to the value itself.
#[derive(Debug)]
pub struct NameRef<'a> {
    buffer: &'a [u8],
    spans: Vec<LabelSpan>,
    is_fqdn: bool,
}

impl<'a> NameRef<'a> {
    #[verifier::type_invariant]
    closed spec fn inv(&self) -> bool {
        spans_fit(self.spans@, self.buffer@.len())
    }

    /// The name whose labels `spans` cuts out of `buffer`, if every span lies in it.
    pub fn new(buffer: &'a [u8], spans: Vec<LabelSpan>, is_fqdn: bool) -> (name: Option<Self>)
        ensures
            name is Some <==> spans_fit(spans@, buffer@.len()),
            name is Some ==> name->0@ == (NameView {
                labels: labels_of(buffer@, spans@),
                fqdn: is_fqdn,
            }),
    {
        let mut i: usize = 0;
        while i < spans.len()
            invariant
                i <= spans@.len(),
                forall|k: int|
                    0 <= k < i ==> (#[trigger] spans@[k]).start <= spans@[k].end <= buffer@.len(),
            decreases spans@.len() - i,
        {
            let span = spans[i];
            if span.start > span.end || span.end > buffer.len() {
                return None;
            }
            i = i + 1;
        }
        Some(NameRef { buffer, spans, is_fqdn })
    }
}

impl<'a> View for NameRef<'a> {
    type V = NameView;

    closed spec fn view(&self) -> NameView {
        NameView { labels: labels_of(self.buffer@, self.spans@), fqdn: self.is_fqdn }
    }
}

impl<'a> DnsName for NameRef<'a> {
    open spec fn model(&self) -> NameView {
        self@
    }

    open spec fn can_mutate_in_place(&self) -> bool {
        true
    }

    fn labels(&self) -> (iter: LabelIter<'_>) {
        proof {
            use_type_invariant(self);
        }
        LabelIter::new(self.buffer, self.spans.as_slice())
    }

    fn is_fqdn(&self) -> (flag: bool) {
        self.is_fqdn
    }

    fn set_fqdn(&mut self, is_fqdn: bool) {
        proof {
            use_type_invariant(&*self);
        }
        self.is_fqdn = is_fqdn;
    }

    fn borrowed_name<'b>(&'b self) -> (view: BorrowedName<'b>) {
        proof {
            use_type_invariant(self);
        }
        BorrowedName::new(self.buffer, self.spans.as_slice(), self.is_fqdn)
    }

    fn to_name(&self) -> (name: Name) {
        proof {
            use_type_invariant(self);
        }
        Name::copy_of(self.buffer, self.spans.as_slice(), self.is_fqdn)
    }
}

} // verus!
