//! The record model: an entity with a fixed list of addresses and an optional
//! image blob, built once and then handed to each codec.

use vstd::prelude::*;
use vstd::string::StringExecFns;

verus! {

/// One nested address.
pub struct Address {
    pub street: String,
    pub number: u16,
    pub postalcode: u16,
}

/// The mathematical value of an [`Address`].
pub struct AddressView {
    pub street: Seq<char>,
    pub number: u16,
    pub postalcode: u16,
}

impl View for Address {
    type V = AddressView;

    open spec fn view(&self) -> AddressView {
        AddressView { street: self.street@, number: self.number, postalcode: self.postalcode }
    }
}

/// The root entity. `cuteness_bits` holds the IEEE-754 bits of a 32-bit float.
pub struct Record {
    pub name: String,
    pub age: u8,
    pub color: String,
    pub cuteness_bits: u32,
    pub addresses: Vec<Address>,
    pub image: Option<Vec<u8>>,
}

/// The mathematical value of a [`Record`].
pub struct RecordView {
    pub name: Seq<char>,
    pub age: u8,
    pub color: Seq<char>,
    pub cuteness_bits: u32,
    pub addresses: Seq<AddressView>,
    pub image: Option<Seq<u8>>,
}

pub open spec fn addresses_view(a: Seq<Address>) -> Seq<AddressView> {
    a.map_values(|x: Address| x@)
}

pub open spec fn image_view(i: Option<Vec<u8>>) -> Option<Seq<u8>> {
    match i {
        Some(v) => Some(v@),
        None => None,
    }
}

impl View for Record {
    type V = RecordView;

    open spec fn view(&self) -> RecordView {
        RecordView {
            name: self.name@,
            age: self.age,
            color: self.color@,
            cuteness_bits: self.cuteness_bits,
            addresses: addresses_view(self.addresses@),
            image: image_view(self.image),
        }
    }
}

/// The bits of the float 100.0, the sample record's cuteness.
pub const SAMPLE_CUTENESS_BITS: u32 = 0x42c8_0000;

/// The postal code of every address of the sample record.
pub const SAMPLE_POSTALCODE: u16 = 1234;

/// The address of index `i` in the sample record.
pub open spec fn sample_address(i: int) -> AddressView {
    AddressView { street: "some street"@, number: i as u16, postalcode: SAMPLE_POSTALCODE }
}

/// The sample record: literal fields, `count` addresses numbered from zero,
/// and the given image.
pub open spec fn sample_view(image: Option<Seq<u8>>, count: u16) -> RecordView {
    RecordView {
        name: "Minka"@,
        age: 8,
        color: "lucky"@,
        cuteness_bits: SAMPLE_CUTENESS_BITS,
        addresses: Seq::new(count as nat, |i: int| sample_address(i)),
        image,
    }
}

impl Address {
    pub fn new(street: String, number: u16, postalcode: u16) -> (r: Address)
        ensures
            r@ == (AddressView { street: street@, number, postalcode }),
    {
        Address { street, number, postalcode }
    }
}

impl Record {
    /// Builds the sample record with `count` addresses.
    pub fn sample(image: Option<Vec<u8>>, count: u16) -> (r: Record)
        ensures
            r@ == sample_view(image_view(image), count),
    {
        let mut addresses: Vec<Address> = Vec::new();
        let mut i: u16 = 0;
        while i < count
            invariant
                i <= count,
                addresses_view(addresses@) == Seq::new(i as nat, |j: int| sample_address(j)),
            decreases count - i,
        {
            let a = Address::new(String::from_str("some street"), i, SAMPLE_POSTALCODE);
            let ghost before = addresses@;
            addresses.push(a);
            assert(addresses_view(addresses@) == addresses_view(before).push(a@));
            i = i + 1;
            assert(addresses_view(addresses@) =~= Seq::new(i as nat, |j: int| sample_address(j)));
        }
        let r = Record {
            name: String::from_str("Minka"),
            age: 8,
            color: String::from_str("lucky"),
            cuteness_bits: SAMPLE_CUTENESS_BITS,
            addresses,
            image,
        };
        assert(r@ =~= sample_view(image_view(image), count));
        r
    }
}

} // verus!
