//! The protocol adapter: how a request is made from a work descriptor and a
//! request index, and how the index is recovered from a response.

use crate::payload::{lemma_parse_wire_prefix, Payload, PayloadError, PAYLOAD_LEN};
use vstd::prelude::*;

verus! {

/// `clap::Arg`, one command-line option as the argument parser describes it.
/// Opaque here: values of it are only handed on.
#[verifier::external_type_specification]
#[verifier::external_body]
pub struct ExArg<'a, 'b>(clap::Arg<'a, 'b>) where 'a: 'b;

/// `clap::ArgMatches`, the arguments as parsed. Opaque here: nothing is read
/// from it.
#[verifier::external_type_specification]
#[verifier::external_body]
pub struct ExArgMatches<'a>(clap::ArgMatches<'a>);

/// What the load generator knows of the work one request asks for.
#[derive(Clone, Copy, Debug, PartialEq, Eq, Structural)]
pub struct Packet {
    /// Amount of work the server performs before it replies.
    pub work_iterations: u64,
}

/// The synthetic protocol. It has no options and keeps no state, so one
/// value serves every connection.
#[derive(Clone, Copy, Debug, PartialEq, Eq, Structural)]
pub struct SyntheticProtocol {}

impl SyntheticProtocol {
    /// The bytes of request number `i` for the work `p`.
    pub open spec fn request(i: usize, p: Packet) -> Seq<u8> {
        (Payload { work_iterations: p.work_iterations, index: i as u64 }).wire()
    }

    /// The index that a response carries, where `scratch` holds a whole
    /// response. The index is a `u64` on the wire and is cut to `usize`.
    pub open spec fn response_index(scratch: Seq<u8>) -> Result<usize, PayloadError> {
        match Payload::parse(scratch) {
            Ok(payload) => Ok(payload.index as usize),
            Err(e) => Err(e),
        }
    }

    /// Appends request number `i` for the work `p` to `buf`.
    pub fn gen_req(&self, i: usize, p: &Packet, buf: &mut Vec<u8>)
        ensures
            final(buf)@ == old(buf)@ + Self::request(i, *p),
    {
        (Payload { work_iterations: p.work_iterations, index: i as u64 }).serialize_into(buf);
    }

    /// Decodes the response that was received into the front of `scratch`
    /// and returns the index of the request it answers. A buffer that cannot
    /// hold a whole response is a short read.
    pub fn read_response(&self, scratch: &[u8]) -> (r: Result<usize, PayloadError>)
        ensures
            r == Self::response_index(scratch@),
            r is Ok <==> scratch@.len() >= PAYLOAD_LEN,
    {
        let mut reader: &[u8] = scratch;
        match Payload::deserialize(&mut reader) {
            Ok(payload) => Ok(#[verifier::truncate] (payload.index as usize)),
            Err(e) => Err(e),
        }
    }

    /// Makes the adapter. The parsed arguments and the chosen transport are
    /// accepted and not looked at: this protocol has nothing to configure.
    pub fn with_args<T>(_matches: &clap::ArgMatches, _tport: T) -> (r: Self)
        ensures
            r == (SyntheticProtocol {}),
    {
        SyntheticProtocol {}
    }

    /// The command-line options of this protocol: none.
    pub fn args<'a, 'b>() -> (r: Vec<clap::Arg<'a, 'b>>)
        ensures
            r@.len() == 0,
    {
        Vec::new()
    }
}

/// Index correlation: a response that starts with the bytes of request
/// number `i` reports index `i`, whatever the work was and whatever follows
/// in the buffer.
pub proof fn lemma_response_reports_request_index(i: usize, p: Packet, rest: Seq<u8>)
    ensures
        SyntheticProtocol::response_index(SyntheticProtocol::request(i, p) + rest) == Ok::<
            usize,
            PayloadError,
        >(i),
{
    lemma_parse_wire_prefix(Payload { work_iterations: p.work_iterations, index: i as u64 }, rest);
}

} // verus!
