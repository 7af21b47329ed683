//! One line of the benchmark's comparison: what a codec made of the record.

use vstd::prelude::*;
use crate::error::CodecError;
use crate::record::Record;
use crate::transport::Codec;

verus! {

/// The measurements of one codec in one run. A failed decode leaves no
/// sentinel but keeps the rest, so that the other codec's line stands.
pub struct Report {
    pub codec: Codec,
    pub encoded_len: usize,
    pub encode_nanos: u64,
    pub decode_nanos: u64,
    /// The decoded record's name, as a check that decoding worked.
    pub sentinel: Result<String, CodecError>,
}

impl Report {
    pub fn new(
        codec: Codec,
        encoded: &[u8],
        encode_nanos: u64,
        decoded: &Result<Record, CodecError>,
        decode_nanos: u64,
    ) -> (r: Report)
        ensures
            r.codec == codec,
            r.encoded_len == encoded@.len(),
            r.encode_nanos == encode_nanos,
            r.decode_nanos == decode_nanos,
            match decoded {
                Ok(rec) => r.sentinel matches Ok(s) && s@ == rec.name@,
                Err(e) => r.sentinel == Err::<String, CodecError>(*e),
            },
    {
        let sentinel = match decoded {
            Ok(rec) => Ok(rec.name.clone()),
            Err(e) => Err(*e),
        };
        Report { codec, encoded_len: encoded.len(), encode_nanos, decode_nanos, sentinel }
    }
}

} // verus!
