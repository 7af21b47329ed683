//! What the two codecs share: both give back the record that was written.

use vstd::prelude::*;
use crate::binary::{fits_wire, lemma_wire_round_trip, record_of_wire, texts_valid, wire_of};
use crate::record::RecordView;
use crate::text::{lemma_text_round_trip, text_decodes_to, text_view_of};

verus! {

/// The record read back from a record's binary message values and a record
/// that its text form stands for agree on name, age, color, cuteness and the
/// address list.
pub proof fn lemma_codecs_agree(r: RecordView, b: RecordView)
    requires
        fits_wire(r),
        text_decodes_to(text_view_of(r), b),
    ensures
        texts_valid(wire_of(r)),
        record_of_wire(wire_of(r)).name == b.name,
        record_of_wire(wire_of(r)).age == b.age,
        record_of_wire(wire_of(r)).color == b.color,
        record_of_wire(wire_of(r)).cuteness_bits == b.cuteness_bits,
        record_of_wire(wire_of(r)).addresses == b.addresses,
{
    lemma_wire_round_trip(r);
    lemma_text_round_trip(r);
}

/// A record without an image comes back without one from both codecs, not
/// with an empty blob.
pub proof fn lemma_absent_image(r: RecordView)
    requires
        fits_wire(r),
        r.image is None,
    ensures
        wire_of(r).image is None,
        record_of_wire(wire_of(r)).image is None,
        text_view_of(r).image is None,
        forall|x: RecordView| #[trigger] text_decodes_to(text_view_of(r), x) ==> x.image is None,
{
    lemma_wire_round_trip(r);
}

} // verus!
