//! The text form of a record, as the self-describing text codec carries it:
//! every field as in the record, but the image as unpadded standard base64
//! text, so that a text-only format can hold it. Writing and reading the
//! text itself is left to the caller.

use vstd::prelude::*;
use crate::error::CodecError;
use crate::record::{addresses_view, Address, AddressView, Record, RecordView};

verus! {

/// The standard base64 alphabet.
pub open spec fn base64_alphabet() -> Seq<char> {
    seq!['A', 'B', 'C', 'D', 'E', 'F', 'G', 'H', 'I', 'J', 'K', 'L', 'M', 'N', 'O', 'P', 'Q', 'R', 'S', 'T', 'U', 'V', 'W', 'X', 'Y', 'Z', 'a', 'b', 'c', 'd', 'e', 'f', 'g', 'h', 'i', 'j', 'k', 'l', 'm', 'n', 'o', 'p', 'q', 'r', 's', 't', 'u', 'v', 'w', 'x', 'y', 'z', '0', '1', '2', '3', '4', '5', '6', '7', '8', '9', '+', '/']
}

/// The symbol for a 6-bit value.
pub open spec fn sym(v: int) -> char {
    base64_alphabet()[v]
}

/// The unpadded standard base64 text of a byte string: four symbols for each
/// group of three bytes, and two or three for a final group of one or two.
pub open spec fn base64_text(b: Seq<u8>) -> Seq<char>
    decreases b.len(),
{
    if b.len() == 0 {
        Seq::empty()
    } else if b.len() == 1 {
        seq![sym((b[0] as int) / 4), sym(((b[0] as int) % 4) * 16)]
    } else if b.len() == 2 {
        seq![sym((b[0] as int) / 4), sym(((b[0] as int) % 4) * 16 + (b[1] as int) / 16), sym(((b[1] as int) % 16) * 4)]
    } else {
        seq![
            sym((b[0] as int) / 4),
            sym(((b[0] as int) % 4) * 16 + (b[1] as int) / 16),
            sym(((b[1] as int) % 16) * 4 + (b[2] as int) / 64),
            sym((b[2] as int) % 64),
        ] + base64_text(b.subrange(3, b.len() as int))
    }
}

/// Relies on base64's `STANDARD_NO_PAD` engine `encode`: standard alphabet,
/// no padding. It panics only when the encoded length overflows `usize`.
#[verifier::external_body]
fn base64_encode(b: &[u8]) -> (r: String)
    requires
        b@.len() <= usize::MAX / 2,
    ensures
        r@ == base64_text(b@),
{
    base64::Engine::encode(&base64::engine::general_purpose::STANDARD_NO_PAD, b)
}

/// The decoder gave back exactly `b`.
pub open spec fn decoded_as(r: Option<Vec<u8>>, b: Seq<u8>) -> bool {
    r matches Some(v) && v@ == b
}

/// Relies on base64's `STANDARD_NO_PAD` engine `decode`, which takes no
/// padding and no stray trailing bits: it succeeds exactly on the texts that
/// `encode` writes, and gives back the bytes they were written from.
#[verifier::external_body]
fn base64_decode(s: &str) -> (r: Option<Vec<u8>>)
    ensures
        r matches Some(v) ==> base64_text(v@) == s@,
        forall|b| #[trigger] base64_text(b) == s@ ==> decoded_as(r, b),
{
    base64::Engine::decode(&base64::engine::general_purpose::STANDARD_NO_PAD, s).ok()
}

/// A record whose image is carried as base64 text.
pub struct TextRecord {
    pub name: String,
    pub age: u8,
    pub color: String,
    pub cuteness_bits: u32,
    pub addresses: Vec<Address>,
    pub image: Option<String>,
}

pub struct TextRecordView {
    pub name: Seq<char>,
    pub age: u8,
    pub color: Seq<char>,
    pub cuteness_bits: u32,
    pub addresses: Seq<AddressView>,
    pub image: Option<Seq<char>>,
}

impl View for TextRecord {
    type V = TextRecordView;

    open spec fn view(&self) -> TextRecordView {
        TextRecordView {
            name: self.name@,
            age: self.age,
            color: self.color@,
            cuteness_bits: self.cuteness_bits,
            addresses: addresses_view(self.addresses@),
            image: match self.image {
                Some(s) => Some(s@),
                None => None,
            },
        }
    }
}

/// The image fits what the base64 encoder can size.
pub open spec fn text_encodable(r: RecordView) -> bool {
    match r.image {
        Some(b) => b.len() <= usize::MAX / 2,
        None => true,
    }
}

/// The text form of a record.
pub open spec fn text_view_of(r: RecordView) -> TextRecordView {
    TextRecordView {
        name: r.name,
        age: r.age,
        color: r.color,
        cuteness_bits: r.cuteness_bits,
        addresses: r.addresses,
        image: match r.image {
            Some(b) => Some(base64_text(b)),
            None => None,
        },
    }
}

/// `rec` is what the text form `t` stands for: the same fields, and an image
/// whose base64 text is `t`'s, absent exactly when `t`'s is.
pub open spec fn text_decodes_to(t: TextRecordView, rec: RecordView) -> bool {
    &&& rec.name == t.name
    &&& rec.age == t.age
    &&& rec.color == t.color
    &&& rec.cuteness_bits == t.cuteness_bits
    &&& rec.addresses == t.addresses
    &&& match t.image {
        None => rec.image is None,
        Some(s) => rec.image matches Some(b) && base64_text(b) == s,
    }
}

/// The image text of `t`, if any, is the base64 text of some bytes.
pub open spec fn image_text_valid(t: TextRecordView) -> bool {
    match t.image {
        None => true,
        Some(s) => exists|b: Seq<u8>| #[trigger] base64_text(b) == s,
    }
}

/// Copies an address list.
pub fn clone_addresses(a: &Vec<Address>) -> (r: Vec<Address>)
    ensures
        addresses_view(r@) == addresses_view(a@),
{
    let mut r: Vec<Address> = Vec::new();
    let mut i: usize = 0;
    while i < a.len()
        invariant
            i <= a@.len(),
            addresses_view(r@) == addresses_view(a@.subrange(0, i as int)),
        decreases a@.len() - i,
    {
        let x = Address { street: a[i].street.clone(), number: a[i].number, postalcode: a[i].postalcode };
        let ghost before = r@;
        r.push(x);
        assert(addresses_view(r@) =~= addresses_view(before).push(x@));
        i = i + 1;
        assert(addresses_view(a@.subrange(0, i as int)) =~= addresses_view(a@.subrange(0, i - 1)).push(a@[i - 1]@));
    }
    assert(a@.subrange(0, a@.len() as int) =~= a@);
    r
}

/// The text form of a record, its image written as base64 text.
pub fn to_text_form(r: &Record) -> (t: TextRecord)
    requires
        text_encodable(r@),
    ensures
        t@ == text_view_of(r@),
{
    let image = match &r.image {
        Some(b) => Some(base64_encode(b.as_slice())),
        None => None,
    };
    let t = TextRecord {
        name: r.name.clone(),
        age: r.age,
        color: r.color.clone(),
        cuteness_bits: r.cuteness_bits,
        addresses: clone_addresses(&r.addresses),
        image,
    };
    assert(t@ =~= text_view_of(r@));
    t
}

/// The record a text form stands for. Fails with `EncodingMismatch` exactly
/// when the image text is not the base64 text of any bytes; an absent image
/// stays absent.
pub fn from_text_form(t: TextRecord) -> (r: Result<Record, CodecError>)
    ensures
        r matches Ok(rec) ==> text_decodes_to(t@, rec@),
        forall|rec: RecordView| #[trigger] text_decodes_to(t@, rec) ==> (r matches Ok(x) && x@ == rec),
        r is Err <==> !image_text_valid(t@),
        r matches Err(e) ==> e == CodecError::EncodingMismatch,
{
    let ghost tv = t@;
    let image = match &t.image {
        None => None,
        Some(s) => match base64_decode(s.as_str()) {
            Some(v) => Some(v),
            None => {
                return Err(CodecError::EncodingMismatch);
            },
        },
    };
    let rec = Record {
        name: t.name,
        age: t.age,
        color: t.color,
        cuteness_bits: t.cuteness_bits,
        addresses: t.addresses,
        image,
    };
    assert(text_decodes_to(tv, rec@));
    assert forall|x: RecordView| #[trigger] text_decodes_to(tv, x) implies x == rec@ by {
        assert(x.image == rec@.image);
        assert(x =~= rec@) by {}
    }
    Ok(rec)
}

/// Decoding the text form of a record gives the record back, its image bytes
/// included.
pub proof fn lemma_text_round_trip(r: RecordView)
    ensures
        text_decodes_to(text_view_of(r), r),
{
}

} // verus!
