//! Label boundaries over a byte sequence, and iteration over the labels.

use vstd::prelude::*;
use vstd::slice::slice_subrange;

verus! {

/// The half-open byte range `start..end` that one label occupies.
#[derive(Clone, Copy, Debug, PartialEq, Eq, Structural)]
pub struct LabelSpan {
    pub start: usize,
    pub end: usize,
}

/// Every span is a well-formed range inside a byte sequence of length `len`.
pub open spec fn spans_fit(spans: Seq<LabelSpan>, len: nat) -> bool {
    forall|i: int| 0 <= i < spans.len() ==> (#[trigger] spans[i]).start <= spans[i].end <= len
}

/// The labels that `spans` cut out of `bytes`, in order.
pub open spec fn labels_of(bytes: Seq<u8>, spans: Seq<LabelSpan>) -> Seq<Seq<u8>> {
    Seq::new(spans.len(), |i: int| bytes.subrange(spans[i].start as int, spans[i].end as int))
}

/// A cursor over the labels of a name, first label first.
///
/// The view of the cursor is the sequence of labels it has yet to yield.
/// Asking a name for its labels again starts over from the first one.
#[derive(Debug)]
pub struct LabelIter<'a> {
    bytes: &'a [u8],
    spans: &'a [LabelSpan],
    pos: usize,
}

impl<'a> View for LabelIter<'a> {
    type V = Seq<Seq<u8>>;

    closed spec fn view(&self) -> Seq<Seq<u8>> {
        labels_of(self.bytes@, self.spans@).skip(self.pos as int)
    }
}

impl<'a> LabelIter<'a> {
    #[verifier::type_invariant]
    spec fn inv(&self) -> bool {
        &&& spans_fit(self.spans@, self.bytes@.len())
        &&& self.pos <= self.spans@.len()
    }

    /// A cursor positioned before the first label that `spans` cuts out of `bytes`.
    pub(crate) fn new(bytes: &'a [u8], spans: &'a [LabelSpan]) -> (iter: Self)
        requires
            spans_fit(spans@, bytes@.len()),
        ensures
            iter@ == labels_of(bytes@, spans@),
    {
        LabelIter { bytes, spans, pos: 0 }
    }

    /// Yields the next label, or `None` once all labels have been yielded.
    pub fn next(&mut self) -> (label: Option<&'a [u8]>)
        ensures
            old(self)@.len() == 0 ==> label is None && final(self)@ == old(self)@,
            old(self)@.len() > 0 ==> label is Some && label->0@ == old(self)@[0] && final(self)@
                == old(self)@.skip(1),
    {
        proof {
            use_type_invariant(&*self);
        }
        if self.pos < self.spans.len() {
            let span = self.spans[self.pos];
            let label = slice_subrange(self.bytes, span.start, span.end);
            self.pos = self.pos + 1;
            Some(label)
        } else {
            None
        }
    }
}

} // verus!
