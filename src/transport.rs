//! The server side of the stream transport. A connection carries exactly one
//! message and its end is the only delimiter: bytes are appended in the order
//! they arrive until a read returns nothing, and the listening endpoint, not
//! anything in the stream, says which codec reads them.

use vstd::prelude::*;
use crate::bytes::push_all;

verus! {

/// Which decoder a connection's bytes go to.
#[derive(Clone, Copy, Debug, PartialEq, Eq, Structural)]
pub enum Codec {
    Binary,
    Text,
}

/// The two listening ports, one per codec.
#[derive(Clone, Copy, Debug, PartialEq, Eq, Structural)]
pub struct Endpoints {
    pub binary_port: u16,
    pub text_port: u16,
}

impl Endpoints {
    /// The endpoints, or `None` when both codecs would share one port.
    pub fn new(binary_port: u16, text_port: u16) -> (r: Option<Endpoints>)
        ensures
            r is Some <==> binary_port != text_port,
            r matches Some(e) ==> e.binary_port == binary_port && e.text_port == text_port,
    {
        if binary_port == text_port {
            None
        } else {
            Some(Endpoints { binary_port, text_port })
        }
    }

    /// The codec of the endpoint that accepted a connection on `port`.
    pub fn codec_for_port(&self, port: u16) -> (r: Option<Codec>)
        ensures
            r == if port == self.binary_port {
                Some(Codec::Binary)
            } else if port == self.text_port {
                Some(Codec::Text)
            } else {
                None
            },
    {
        if port == self.binary_port {
            Some(Codec::Binary)
        } else if port == self.text_port {
            Some(Codec::Text)
        } else {
            None
        }
    }
}

/// Where a connection stands.
#[derive(Clone, Copy, Debug, PartialEq, Eq, Structural)]
pub enum Phase {
    Reading,
    Complete,
    Aborted,
}

/// What the task serving a connection does next.
#[derive(Clone, Copy, Debug, PartialEq, Eq, Structural)]
pub enum Action {
    ReadMore,
    Decode,
    Abort,
    Ignore,
}

/// One accepted connection and the bytes received on it so far.
pub struct Connection {
    pub codec: Codec,
    pub received: Vec<u8>,
    pub phase: Phase,
}

impl Connection {
    /// A freshly accepted connection.
    pub fn accepted(codec: Codec) -> (c: Connection)
        ensures
            c.codec == codec,
            c.received@ == Seq::<u8>::empty(),
            c.phase == Phase::Reading,
    {
        Connection { codec, received: Vec::new(), phase: Phase::Reading }
    }

    /// A read returned `chunk`. A non-empty chunk is appended; an empty one
    /// means the peer closed its write side and the message is complete.
    /// After the message is complete or aborted, reads change nothing.
    pub fn on_read(&mut self, chunk: &[u8]) -> (a: Action)
        ensures
            final(self).codec == old(self).codec,
            old(self).phase != Phase::Reading ==> *final(self) == *old(self) && a == Action::Ignore,
            old(self).phase == Phase::Reading && chunk@.len() > 0 ==> final(self).received@
                == old(self).received@ + chunk@ && final(self).phase == Phase::Reading && a
                == Action::ReadMore,
            old(self).phase == Phase::Reading && chunk@.len() == 0 ==> final(self).received@
                == old(self).received@ && final(self).phase == Phase::Complete && a == Action::Decode,
    {
        match self.phase {
            Phase::Reading => {
                if chunk.len() == 0 {
                    self.phase = Phase::Complete;
                    Action::Decode
                } else {
                    push_all(&mut self.received, chunk);
                    Action::ReadMore
                }
            },
            _ => Action::Ignore,
        }
    }

    /// A read failed: the connection is aborted and its bytes are not decoded.
    pub fn on_read_error(&mut self) -> (a: Action)
        ensures
            final(self).codec == old(self).codec,
            final(self).received@ == old(self).received@,
            old(self).phase != Phase::Reading ==> *final(self) == *old(self) && a == Action::Ignore,
            old(self).phase == Phase::Reading ==> final(self).phase == Phase::Aborted && a
                == Action::Abort,
    {
        match self.phase {
            Phase::Reading => {
                self.phase = Phase::Aborted;
                Action::Abort
            },
            _ => Action::Ignore,
        }
    }
}

/// The chunks joined in order.
pub open spec fn joined(chunks: Seq<Seq<u8>>) -> Seq<u8>
    decreases chunks.len(),
{
    if chunks.len() == 0 {
        Seq::empty()
    } else {
        joined(chunks.drop_last()) + chunks.last()
    }
}

pub open spec fn chunks_view(chunks: Seq<Vec<u8>>) -> Seq<Seq<u8>> {
    chunks.map_values(|c: Vec<u8>| c@)
}

/// Serves a connection whose reads return the non-empty `chunks` in order and
/// then nothing: the message handed to the decoder is the chunks joined, byte
/// for byte.
pub fn receive_all(codec: Codec, chunks: &Vec<Vec<u8>>) -> (c: Connection)
    requires
        forall|i: int| 0 <= i < chunks@.len() ==> (#[trigger] chunks@[i])@.len() > 0,
    ensures
        c.codec == codec,
        c.phase == Phase::Complete,
        c.received@ == joined(chunks_view(chunks@)),
{
    let mut c = Connection::accepted(codec);
    let mut i: usize = 0;
    while i < chunks.len()
        invariant
            i <= chunks@.len(),
            forall|j: int| 0 <= j < chunks@.len() ==> (#[trigger] chunks@[j])@.len() > 0,
            c.codec == codec,
            c.phase == Phase::Reading,
            c.received@ == joined(chunks_view(chunks@.subrange(0, i as int))),
        decreases chunks@.len() - i,
    {
        let a = c.on_read(chunks[i].as_slice());
        let ghost s = chunks_view(chunks@.subrange(0, i + 1));
        assert(s.drop_last() =~= chunks_view(chunks@.subrange(0, i as int)));
        assert(s.last() == chunks@[i as int]@);
        i = i + 1;
    }
    assert(chunks@.subrange(0, chunks@.len() as int) =~= chunks@);
    let empty: [u8; 0] = [];
    c.on_read(&empty);
    c
}

} // verus!
