//! The plain values that the binary codec's Cap'n Proto message carries. The
//! schema holds text as UTF-8 bytes and an address number as an 8-bit
//! integer; this module turns a record into those values and back, and sorts
//! the reader's failures into the codec's errors.

use vstd::prelude::*;
use vstd::utf8::{decode_utf8, encode_utf8, valid_utf8};
use crate::bytes::copy_range;
use crate::error::CodecError;
use crate::record::{addresses_view, Address, AddressView, Record, RecordView};

verus! {

/// An address as the message carries it.
pub struct WireAddress {
    pub street: Vec<u8>,
    pub number: u8,
    pub postalcode: u16,
}

pub struct WireAddressView {
    pub street: Seq<u8>,
    pub number: u8,
    pub postalcode: u16,
}

impl View for WireAddress {
    type V = WireAddressView;

    open spec fn view(&self) -> WireAddressView {
        WireAddressView { street: self.street@, number: self.number, postalcode: self.postalcode }
    }
}

/// A record as the message carries it; an absent image is an unset pointer.
pub struct WireRecord {
    pub name: Vec<u8>,
    pub age: u8,
    pub color: Vec<u8>,
    pub cuteness_bits: u32,
    pub addresses: Vec<WireAddress>,
    pub image: Option<Vec<u8>>,
}

pub struct WireRecordView {
    pub name: Seq<u8>,
    pub age: u8,
    pub color: Seq<u8>,
    pub cuteness_bits: u32,
    pub addresses: Seq<WireAddressView>,
    pub image: Option<Seq<u8>>,
}

pub open spec fn wire_addresses_view(a: Seq<WireAddress>) -> Seq<WireAddressView> {
    a.map_values(|x: WireAddress| x@)
}

impl View for WireRecord {
    type V = WireRecordView;

    open spec fn view(&self) -> WireRecordView {
        WireRecordView {
            name: self.name@,
            age: self.age,
            color: self.color@,
            cuteness_bits: self.cuteness_bits,
            addresses: wire_addresses_view(self.addresses@),
            image: match self.image {
                Some(b) => Some(b@),
                None => None,
            },
        }
    }
}

/// Every address number fits the schema's 8-bit field.
pub open spec fn fits_wire(r: RecordView) -> bool {
    forall|i: int| 0 <= i < r.addresses.len() ==> #[trigger] r.addresses[i].number <= 255
}

pub open spec fn wire_address_of(a: AddressView) -> WireAddressView {
    WireAddressView { street: encode_utf8(a.street), number: a.number as u8, postalcode: a.postalcode }
}

/// The values the message of a record carries.
pub open spec fn wire_of(r: RecordView) -> WireRecordView {
    WireRecordView {
        name: encode_utf8(r.name),
        age: r.age,
        color: encode_utf8(r.color),
        cuteness_bits: r.cuteness_bits,
        addresses: r.addresses.map_values(|a: AddressView| wire_address_of(a)),
        image: r.image,
    }
}

/// Every text of the message is well-formed UTF-8.
pub open spec fn texts_valid(w: WireRecordView) -> bool {
    &&& valid_utf8(w.name)
    &&& valid_utf8(w.color)
    &&& forall|i: int| 0 <= i < w.addresses.len() ==> valid_utf8(#[trigger] w.addresses[i].street)
}

pub open spec fn address_of_wire(a: WireAddressView) -> AddressView {
    AddressView { street: decode_utf8(a.street), number: a.number as u16, postalcode: a.postalcode }
}

/// The record that the values of a message with valid texts stand for.
pub open spec fn record_of_wire(w: WireRecordView) -> RecordView {
    RecordView {
        name: decode_utf8(w.name),
        age: w.age,
        color: decode_utf8(w.color),
        cuteness_bits: w.cuteness_bits,
        addresses: w.addresses.map_values(|a: WireAddressView| address_of_wire(a)),
        image: w.image,
    }
}

fn text_to_wire(s: &String) -> (r: Vec<u8>)
    ensures
        r@ == encode_utf8(s@),
{
    let b = s.as_str().as_bytes();
    copy_range(b, 0, b.len())
}

fn copy_image(i: &Option<Vec<u8>>) -> (r: Option<Vec<u8>>)
    ensures
        r matches Some(v) ==> i matches Some(w) && v@ == w@,
        r is None <==> i is None,
{
    match i {
        Some(b) => Some(copy_range(b.as_slice(), 0, b.len())),
        None => None,
    }
}

/// The values for the message of `r`, or `None` when an address number does
/// not fit the schema's 8-bit field.
pub fn to_wire(r: &Record) -> (w: Option<WireRecord>)
    ensures
        match w {
            Some(w) => fits_wire(r@) && w@ == wire_of(r@),
            None => !fits_wire(r@),
        },
{
    let mut addresses: Vec<WireAddress> = Vec::new();
    let mut i: usize = 0;
    while i < r.addresses.len()
        invariant
            i <= r.addresses@.len(),
            forall|j: int| 0 <= j < i ==> #[trigger] r@.addresses[j].number <= 255,
            wire_addresses_view(addresses@) == r@.addresses.subrange(0, i as int).map_values(
                |a: AddressView| wire_address_of(a),
            ),
        decreases r.addresses@.len() - i,
    {
        let a = &r.addresses[i];
        assert(r@.addresses[i as int] == a@);
        if a.number > 255 {
            assert(r@.addresses[i as int].number > 255);
            return None;
        }
        let x = WireAddress { street: text_to_wire(&a.street), number: a.number as u8, postalcode: a.postalcode };
        let ghost before = addresses@;
        addresses.push(x);
        assert(wire_addresses_view(addresses@) =~= wire_addresses_view(before).push(x@));
        i = i + 1;
        assert(r@.addresses.subrange(0, i as int) =~= r@.addresses.subrange(0, i - 1).push(a@));
        assert(wire_addresses_view(addresses@) =~= r@.addresses.subrange(0, i as int).map_values(
            |a: AddressView| wire_address_of(a),
        ));
    }
    assert(r@.addresses.subrange(0, r@.addresses.len() as int) =~= r@.addresses);
    let w = WireRecord {
        name: text_to_wire(&r.name),
        age: r.age,
        color: text_to_wire(&r.color),
        cuteness_bits: r.cuteness_bits,
        addresses,
        image: copy_image(&r.image),
    };
    assert(w@ =~= wire_of(r@));
    Some(w)
}

/// Relies on `String::from_utf8`: it accepts exactly the well-formed UTF-8
/// byte strings, and the string keeps their characters.
#[verifier::external_body]
fn string_from_utf8(b: Vec<u8>) -> (r: Option<String>)
    ensures
        match r {
            Some(t) => valid_utf8(b@) && t@ == decode_utf8(b@),
            None => !valid_utf8(b@),
        },
{
    String::from_utf8(b).ok()
}

/// The record a message's values stand for; `CorruptMessage` exactly when one
/// of its texts is not UTF-8.
pub fn from_wire(w: WireRecord) -> (r: Result<Record, CodecError>)
    ensures
        match r {
            Ok(rec) => texts_valid(w@) && rec@ == record_of_wire(w@),
            Err(e) => !texts_valid(w@) && e == CodecError::CorruptMessage,
        },
{
    let ghost wv = w@;
    let WireRecord { name, age, color, cuteness_bits, addresses: wire_addresses, image } = w;
    let name = match string_from_utf8(name) {
        Some(s) => s,
        None => return Err(CodecError::CorruptMessage),
    };
    let color = match string_from_utf8(color) {
        Some(s) => s,
        None => return Err(CodecError::CorruptMessage),
    };
    let mut addresses: Vec<Address> = Vec::new();
    let ghost all = wv.addresses;
    let mut i: usize = 0;
    while i < wire_addresses.len()
        invariant
            i <= all.len(),
            wire_addresses_view(wire_addresses@) == all,
            wv.addresses == all,
            wv == w@,
            valid_utf8(wv.name) && name@ == decode_utf8(wv.name),
            valid_utf8(wv.color) && color@ == decode_utf8(wv.color),
            forall|j: int| 0 <= j < i ==> valid_utf8(#[trigger] all[j].street),
            addresses_view(addresses@) == all.subrange(0, i as int).map_values(
                |a: WireAddressView| address_of_wire(a),
            ),
        decreases all.len() - i,
    {
        let a = &wire_addresses[i];
        assert(wire_addresses_view(wire_addresses@).len() == wire_addresses@.len());
        assert(i < all.len());
        assert(a@ == all[i as int]);
        let bytes = copy_range(a.street.as_slice(), 0, a.street.len());
        assert(bytes@ =~= all[i as int].street);
        let street = match string_from_utf8(bytes) {
            Some(s) => s,
            None => {
                assert(!valid_utf8(wv.addresses[i as int].street));
                assert(!texts_valid(wv));
                return Err(CodecError::CorruptMessage);
            },
        };
        assert(street@ == address_of_wire(all[i as int]).street);
        let x = Address { street, number: a.number as u16, postalcode: a.postalcode };
        let ghost before = addresses@;
        addresses.push(x);
        assert(addresses_view(addresses@) =~= addresses_view(before).push(x@));
        i = i + 1;
        assert(all.subrange(0, i as int) =~= all.subrange(0, i - 1).push(all[i - 1]));
        assert(addresses_view(addresses@) =~= all.subrange(0, i as int).map_values(
            |a: WireAddressView| address_of_wire(a),
        ));
    }
    assert(all.subrange(0, all.len() as int) =~= all);
    let rec = Record { name, age, color, cuteness_bits, addresses, image };
    assert(rec@ =~= record_of_wire(wv));
    Ok(rec)
}

/// Reading back the values written for a record gives the record: its texts,
/// numbers, image bytes and addresses in order.
pub proof fn lemma_wire_round_trip(r: RecordView)
    requires
        fits_wire(r),
    ensures
        texts_valid(wire_of(r)),
        record_of_wire(wire_of(r)) == r,
{
    let w = wire_of(r);
    vstd::utf8::encode_utf8_valid_utf8(r.name);
    vstd::utf8::encode_utf8_valid_utf8(r.color);
    vstd::utf8::encode_utf8_decode_utf8(r.name);
    vstd::utf8::encode_utf8_decode_utf8(r.color);
    assert forall|i: int| 0 <= i < w.addresses.len() implies valid_utf8(#[trigger] w.addresses[i].street) by {
        vstd::utf8::encode_utf8_valid_utf8(r.addresses[i].street);
    }
    assert forall|i: int| 0 <= i < r.addresses.len() implies address_of_wire(w.addresses[i]) == r.addresses[i] by {
        vstd::utf8::encode_utf8_decode_utf8(r.addresses[i].street);
        assert(r.addresses[i].number <= 255);
    }
    assert(record_of_wire(w).addresses =~= r.addresses);
    assert(record_of_wire(w) =~= r);
}

/// How reading a binary message failed, as the message reader reports it.
#[derive(Clone, Copy, Debug, PartialEq, Eq, Structural)]
pub enum BinaryFault {
    /// The buffer ends early, or its segment table or a pointer is invalid.
    Structure,
    /// A pointer leads to data of another kind or element size than the
    /// schema's.
    Layout,
}

/// The codec error for a failure of the message reader.
pub fn binary_fault_error(f: BinaryFault) -> (e: CodecError)
    ensures
        e == match f {
            BinaryFault::Structure => CodecError::CorruptMessage,
            BinaryFault::Layout => CodecError::SchemaMismatch,
        },
{
    match f {
        BinaryFault::Structure => CodecError::CorruptMessage,
        BinaryFault::Layout => CodecError::SchemaMismatch,
    }
}

} // verus!
