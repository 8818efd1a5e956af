//! The sixteen byte message exchanged with the server.

use crate::wire::{
    be_bytes, be_value, lemma_be_value_of_bytes, read_u64_be, write_u64_be, WORD_LEN,
};
use vstd::prelude::*;
use vstd::slice::slice_subrange;

verus! {

/// Length of a message on the wire: two `u64` words, no prefix, no delimiter.
pub const PAYLOAD_LEN: usize = 16;

/// Why a message could not be decoded.
#[derive(Clone, Copy, Debug, PartialEq, Eq, Structural)]
pub enum PayloadError {
    /// The input ended before a whole message was available.
    ShortRead,
}

/// One message: how much work the server is asked to do, and the index of
/// the request that asks for it.
#[derive(Clone, Copy, Debug, PartialEq, Eq, Structural)]
pub struct Payload {
    pub work_iterations: u64,
    pub index: u64,
}

impl Payload {
    /// The message as it travels: `work_iterations`, then `index`, each as
    /// eight big-endian bytes.
    pub open spec fn wire(self) -> Seq<u8> {
        be_bytes(self.work_iterations) + be_bytes(self.index)
    }

    /// What a reader makes of `bytes`: the message held in the first sixteen
    /// of them, or a short read where there are fewer.
    pub open spec fn parse(bytes: Seq<u8>) -> Result<Payload, PayloadError> {
        if bytes.len() >= PAYLOAD_LEN {
            Ok(
                Payload {
                    work_iterations: be_value(bytes) as u64,
                    index: be_value(bytes.skip(WORD_LEN as int)) as u64,
                },
            )
        } else {
            Err(PayloadError::ShortRead)
        }
    }

    /// Appends the wire form of the message to `writer`.
    pub fn serialize_into(&self, writer: &mut Vec<u8>)
        ensures
            final(writer)@ == old(writer)@ + self.wire(),
            final(writer)@.len() == old(writer)@.len() + PAYLOAD_LEN,
    {
        let mut word = [0u8; 8];
        write_u64_be(&mut word, self.work_iterations);
        writer.extend_from_slice(&word);
        write_u64_be(&mut word, self.index);
        writer.extend_from_slice(&word);
    }

    /// Reads one message from the front of `reader` and moves `reader` past
    /// it. A reader with fewer than sixteen bytes left is refused and stays
    /// where it was.
    pub fn deserialize(reader: &mut &[u8]) -> (r: Result<Payload, PayloadError>)
        ensures
            r == Payload::parse((*old(reader))@),
            r is Ok ==> (*final(reader))@ == (*old(reader))@.skip(PAYLOAD_LEN as int),
            r is Err ==> (*final(reader))@ == (*old(reader))@,
    {
        let bytes: &[u8] = *reader;
        if bytes.len() < PAYLOAD_LEN {
            return Err(PayloadError::ShortRead);
        }
        let work_iterations = read_u64_be(bytes);
        let index = read_u64_be(slice_subrange(bytes, WORD_LEN, bytes.len()));
        *reader = slice_subrange(bytes, PAYLOAD_LEN, bytes.len());
        Ok(Payload { work_iterations, index })
    }
}

/// A message followed by anything decodes to that message: the decoder
/// looks at the first sixteen bytes only.
pub proof fn lemma_parse_wire_prefix(p: Payload, rest: Seq<u8>)
    ensures
        Payload::parse(p.wire() + rest) == Ok::<Payload, PayloadError>(p),
{
    lemma_be_value_of_bytes(p.work_iterations);
    lemma_be_value_of_bytes(p.index);
    let bytes = p.wire() + rest;
    assert(be_value(bytes) == be_value(be_bytes(p.work_iterations)));
    assert(be_value(bytes.skip(WORD_LEN as int)) == be_value(be_bytes(p.index)));
}

/// Round trip: for every pair of words, decoding the encoding of the pair
/// yields the pair, and the encoding is sixteen bytes long.
pub proof fn lemma_round_trip(work_iterations: u64, index: u64)
    ensures
        (Payload { work_iterations, index }).wire().len() == PAYLOAD_LEN,
        Payload::parse((Payload { work_iterations, index }).wire()) == Ok::<Payload, PayloadError>(
            Payload { work_iterations, index },
        ),
{
    let p = Payload { work_iterations, index };
    lemma_parse_wire_prefix(p, Seq::empty());
    assert(p.wire() + Seq::<u8>::empty() =~= p.wire());
}

} // verus!
