//! The owned representation of a domain name.

use crate::borrowed::BorrowedName;
use crate::dns_name::{DnsName, NameView};
use crate::label::{labels_of, spans_fit, LabelIter, LabelSpan};
use vstd::prelude::*;

verus! {

/// A domain name that owns its label bytes.
///
/// The bytes of all labels lie in one allocation, with one span per label.
#[derive(Debug)]
pub struct Name {
    data: Vec<u8>,
    spans: Vec<LabelSpan>,
    is_fqdn: bool,
}

impl View for Name {
    type V = NameView;

    closed spec fn view(&self) -> NameView {
        NameView { labels: labels_of(self.data@, self.spans@), fqdn: self.is_fqdn }
    }
}

impl Name {
    #[verifier::type_invariant]
    closed spec fn inv(&self) -> bool {
        spans_fit(self.spans@, self.data@.len())
    }

    /// The name without labels, not fully qualified.
    pub fn new() -> (name: Self)
        ensures
            name@ == (NameView { labels: Seq::empty(), fqdn: false }),
    {
        let name = Name { data: Vec::new(), spans: Vec::new(), is_fqdn: false };
        assert(name@.labels =~= Seq::empty());
        name
    }

    /// The name with `label` appended as its last label.
    pub fn append_label(self, label: &[u8]) -> (name: Self)
        ensures
            name@ == (NameView { labels: self@.labels.push(label@), fqdn: self@.fqdn }),
    {
        proof {
            use_type_invariant(&self);
        }
        let Name { mut data, mut spans, is_fqdn } = self;
        let ghost before = data@;
        let start = data.len();
        let mut j: usize = 0;
        while j < label.len()
            invariant
                j <= label@.len(),
                data@ == before + label@.take(j as int),
            decreases label@.len() - j,
        {
            data.push(label[j]);
            j = j + 1;
        }
        let end = data.len();
        let ghost earlier = spans@;
        spans.push(LabelSpan { start, end });
        proof {
            assert(label@.take(j as int) =~= label@);
            lemma_labels_survive_append(before, label@, earlier);
            assert(data@.subrange(start as int, end as int) =~= label@);
            assert(labels_of(data@, spans@) =~= labels_of(before, earlier).push(label@));
        }
        Name { data, spans, is_fqdn }
    }

    /// An owned copy of the labels that `spans` cuts out of `bytes`.
    ///
    /// The copy packs the labels one after the other, whatever lay between
    /// them in `bytes`.
    pub(crate) fn copy_of(bytes: &[u8], spans: &[LabelSpan], is_fqdn: bool) -> (name: Self)
        requires
            spans_fit(spans@, bytes@.len()),
        ensures
            name@ == (NameView { labels: labels_of(bytes@, spans@), fqdn: is_fqdn }),
    {
        let ghost labels = labels_of(bytes@, spans@);
        let mut data: Vec<u8> = Vec::new();
        let mut packed: Vec<LabelSpan> = Vec::new();
        let mut i: usize = 0;
        while i < spans.len()
            invariant
                i <= spans@.len(),
                spans_fit(spans@, bytes@.len()),
                labels == labels_of(bytes@, spans@),
                packed@.len() == i,
                spans_fit(packed@, data@.len()),
                labels_of(data@, packed@) == labels.take(i as int),
            decreases spans@.len() - i,
        {
            let span = spans[i];
            let start = data.len();
            let ghost before = data@;
            let mut j: usize = span.start;
            while j < span.end
                invariant
                    span.start <= j <= span.end <= bytes@.len(),
                    data@ == before + bytes@.subrange(span.start as int, j as int),
                decreases span.end - j,
            {
                data.push(bytes[j]);
                j = j + 1;
            }
            let ghost earlier = packed@;
            packed.push(LabelSpan { start, end: data.len() });
            proof {
                lemma_labels_survive_append(before, labels[i as int], earlier);
                assert forall|k: int| 0 <= k <= i implies #[trigger] labels_of(data@, packed@)[k]
                    == labels[k] by {
                    if k < i {
                        assert(labels_of(data@, earlier)[k] == labels.take(i as int)[k]);
                    }
                }
            }
            i = i + 1;
        }
        assert(labels.take(i as int) =~= labels);
        Name { data, spans: packed, is_fqdn }
    }
}

impl DnsName for Name {
    open spec fn model(&self) -> NameView {
        self@
    }

    open spec fn can_mutate_in_place(&self) -> bool {
        true
    }

    fn labels(&self) -> (iter: LabelIter<'_>) {
        proof {
            use_type_invariant(self);
        }
        LabelIter::new(self.data.as_slice(), self.spans.as_slice())
    }

    fn is_fqdn(&self) -> (flag: bool) {
        self.is_fqdn
    }

    fn set_fqdn(&mut self, is_fqdn: bool) {
        proof {
            use_type_invariant(&*self);
        }
        self.is_fqdn = is_fqdn;
    }

    fn borrowed_name<'b>(&'b self) -> (view: BorrowedName<'b>) {
        proof {
            use_type_invariant(self);
        }
        BorrowedName::new(self.data.as_slice(), self.spans.as_slice(), self.is_fqdn)
    }

    fn to_name(&self) -> (name: Name) {
        proof {
            use_type_invariant(self);
        }
        Name::copy_of(self.data.as_slice(), self.spans.as_slice(), self.is_fqdn)
    }
}

/// Appending bytes leaves every label that lies in the bytes before them as it was.
proof fn lemma_labels_survive_append(bytes: Seq<u8>, tail: Seq<u8>, spans: Seq<LabelSpan>)
    requires
        spans_fit(spans, bytes.len()),
    ensures
        spans_fit(spans, (bytes + tail).len()),
        labels_of(bytes + tail, spans) == labels_of(bytes, spans),
{
    assert forall|i: int| 0 <= i < spans.len() implies (bytes + tail).subrange(
        spans[i].start as int,
        spans[i].end as int,
    ) == bytes.subrange(spans[i].start as int, spans[i].end as int) by {
        assert((bytes + tail).subrange(spans[i].start as int, spans[i].end as int)
            =~= bytes.subrange(spans[i].start as int, spans[i].end as int));
    }
}

} // verus!
