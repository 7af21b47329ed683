use catcodec::error::CodecError;
use catcodec::harness::Report;
use catcodec::binary::{from_wire, to_wire};
use catcodec::record::Record;
use catcodec::transport::{receive_all, Action, Codec, Connection, Endpoints, Phase};

fn chunked(bytes: &[u8], size: usize) -> Vec<Vec<u8>> {
    bytes.chunks(size).map(|c| c.to_vec()).collect()
}

#[test]
fn empty_stream_gives_empty_message() {
    let c = receive_all(Codec::Binary, &Vec::new());
    assert_eq!(c.phase, Phase::Complete);
    assert!(c.received.is_empty());
}

#[test]
fn stream_larger_than_one_read_is_joined() {
    let bytes: Vec<u8> = (0..5000u32).map(|i| (i * 7 % 251) as u8).collect();
    let c = receive_all(Codec::Text, &chunked(&bytes, 1024));
    assert_eq!(c.received, bytes);
    assert_eq!(c.codec, Codec::Text);
}

#[test]
fn received_message_equals_what_was_sent() {
    let bytes: Vec<u8> = (0..2500u32).map(|i| (i % 256) as u8).collect();
    let c = receive_all(Codec::Binary, &chunked(&bytes, 1024));
    assert_eq!(c.received, bytes);
}

#[test]
fn reads_after_close_change_nothing() {
    let mut c = Connection::accepted(Codec::Binary);
    assert_eq!(c.on_read(&[1, 2]), Action::ReadMore);
    assert_eq!(c.on_read(&[]), Action::Decode);
    assert_eq!(c.on_read(&[3]), Action::Ignore);
    assert_eq!(c.on_read_error(), Action::Ignore);
    assert_eq!(c.received, vec![1, 2]);
    assert_eq!(c.phase, Phase::Complete);
}

#[test]
fn read_error_aborts() {
    let mut c = Connection::accepted(Codec::Text);
    assert_eq!(c.on_read(&[1]), Action::ReadMore);
    assert_eq!(c.on_read_error(), Action::Abort);
    assert_eq!(c.phase, Phase::Aborted);
    assert_eq!(c.on_read(&[]), Action::Ignore);
}

#[test]
fn interleaved_connections_stay_independent() {
    let good: Vec<u8> = (0..200u8).collect();
    let mut a = Connection::accepted(Codec::Binary);
    let mut b = Connection::accepted(Codec::Text);
    let mut expected_b = Vec::new();
    for (i, chunk) in good.chunks(16).enumerate() {
        a.on_read(chunk);
        b.on_read(&[i as u8; 3]);
        expected_b.extend_from_slice(&[i as u8; 3]);
    }
    assert_eq!(b.on_read_error(), Action::Abort);
    assert_eq!(a.on_read(&[]), Action::Decode);
    assert_eq!(a.received, good);
    assert_eq!(b.received, expected_b);
    assert_eq!(b.phase, Phase::Aborted);
}

#[test]
fn endpoints_select_codec_by_port() {
    assert!(Endpoints::new(3000, 3000).is_none());
    let e = Endpoints::new(3000, 3001).unwrap();
    assert_eq!(e.codec_for_port(3000), Some(Codec::Binary));
    assert_eq!(e.codec_for_port(3001), Some(Codec::Text));
    assert_eq!(e.codec_for_port(3002), None);
}

#[test]
fn sample_record_fields() {
    let r = Record::sample(None, 4);
    assert_eq!(r.name, "Minka");
    assert_eq!(r.color, "lucky");
    assert_eq!(r.age, 8);
    assert_eq!(f32::from_bits(r.cuteness_bits), 100.0);
    let numbers: Vec<u16> = r.addresses.iter().map(|a| a.number).collect();
    assert_eq!(numbers, vec![0, 1, 2, 3]);
}

#[test]
fn report_keeps_sentinel_or_error() {
    let r = Record::sample(None, 2);
    let bytes = vec![0u8; 40];
    let decoded = from_wire(to_wire(&r).unwrap());
    let ok = Report::new(Codec::Binary, &bytes, 5, &decoded, 7);
    assert_eq!(ok.sentinel, Ok(String::from("Minka")));
    assert_eq!(ok.encoded_len, 40);
    assert_eq!((ok.encode_nanos, ok.decode_nanos), (5, 7));
    let bad = Report::new(Codec::Binary, &bytes[..3], 1, &Err(CodecError::CorruptMessage), 2);
    assert_eq!(bad.sentinel, Err(CodecError::CorruptMessage));
    assert_eq!(bad.encoded_len, 3);
}
