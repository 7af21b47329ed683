use catcodec::binary::{binary_fault_error, from_wire, to_wire, BinaryFault, WireAddress, WireRecord};
use catcodec::error::CodecError;
use catcodec::record::{Address, Record};

fn same(a: &Record, b: &Record) -> bool {
    a.name == b.name
        && a.age == b.age
        && a.color == b.color
        && a.cuteness_bits == b.cuteness_bits
        && a.image == b.image
        && a.addresses.len() == b.addresses.len()
        && a.addresses.iter().zip(b.addresses.iter()).all(|(x, y)| {
            x.street == y.street && x.number == y.number && x.postalcode == y.postalcode
        })
}

#[test]
fn wire_values_of_the_sample() {
    let r = Record::sample(Some(vec![1, 2, 3]), 10);
    let w = to_wire(&r).unwrap();
    assert_eq!(w.name, b"Minka".to_vec());
    assert_eq!(w.color, b"lucky".to_vec());
    assert_eq!(w.age, 8);
    assert_eq!(w.cuteness_bits, 100.0f32.to_bits());
    assert_eq!(w.addresses.len(), 10);
    assert_eq!(w.addresses[7].street, b"some street".to_vec());
    assert_eq!(w.addresses[7].number, 7);
    assert_eq!(w.addresses[7].postalcode, 1234);
    assert_eq!(w.image, Some(vec![1, 2, 3]));
}

#[test]
fn sample_round_trips_through_wire_values() {
    let img: Vec<u8> = (0..=255u8).cycle().take(3000).collect();
    let r = Record::sample(Some(img), 10);
    let back = from_wire(to_wire(&r).unwrap()).unwrap();
    assert!(same(&r, &back));
}

#[test]
fn absent_image_stays_absent_on_the_wire() {
    let r = Record::sample(None, 3);
    let w = to_wire(&r).unwrap();
    assert_eq!(w.image, None);
    assert_eq!(from_wire(w).unwrap().image, None);
}

#[test]
fn empty_image_is_not_absent_on_the_wire() {
    let mut r = Record::sample(None, 1);
    r.image = Some(Vec::new());
    assert_eq!(from_wire(to_wire(&r).unwrap()).unwrap().image, Some(Vec::new()));
}

#[test]
fn non_ascii_text_goes_as_utf8() {
    let mut r = Record::sample(None, 0);
    r.name = String::from("Mínka 猫");
    r.addresses.push(Address::new(String::from("Straße"), 255, 9));
    let w = to_wire(&r).unwrap();
    assert_eq!(w.name, "Mínka 猫".as_bytes().to_vec());
    assert!(same(&r, &from_wire(w).unwrap()));
}

#[test]
fn number_over_eight_bits_does_not_fit() {
    let mut r = Record::sample(None, 2);
    r.addresses.push(Address::new(String::from("x"), 256, 1));
    assert!(to_wire(&r).is_none());
}

#[test]
fn invalid_utf8_is_corrupt() {
    let w = WireRecord {
        name: vec![b'A', 0xff],
        age: 1,
        color: b"b".to_vec(),
        cuteness_bits: 0,
        addresses: Vec::new(),
        image: None,
    };
    assert_eq!(from_wire(w).err(), Some(CodecError::CorruptMessage));
    let w = WireRecord {
        name: b"A".to_vec(),
        age: 1,
        color: b"b".to_vec(),
        cuteness_bits: 0,
        addresses: vec![WireAddress { street: vec![0xc3], number: 1, postalcode: 2 }],
        image: None,
    };
    assert_eq!(from_wire(w).err(), Some(CodecError::CorruptMessage));
}

#[test]
fn reader_faults_map_to_codec_errors() {
    assert_eq!(binary_fault_error(BinaryFault::Structure), CodecError::CorruptMessage);
    assert_eq!(binary_fault_error(BinaryFault::Layout), CodecError::SchemaMismatch);
}
