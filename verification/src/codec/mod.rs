//! The encoder that turns a request into wire bytes and the incremental
//! decoder that turns arriving bytes back into a matched response.

use vstd::prelude::*;

use crate::frame::{function_of_code, Function};

pub mod decoder;
pub mod encoder;
pub mod laws;

pub use encoder::request_to_bytesmut;

verus! {

/// Mutual convert TCP client frames and buffers.
#[derive(Debug, Default)]
pub struct TcpCodec;

/// Mutual convert RTU client frames and buffers.
#[derive(Debug, Default)]
pub struct RtuCodec;

/// A fatal framing error: the current exchange cannot be completed.
#[derive(Clone, Copy, Debug, PartialEq, Eq, Structural)]
pub enum DecodeError {
    /// The function-code byte matches none of the known functions.
    InvalidFunctionCode(u8),
    /// The reply's function differs from the pending request's function.
    FunctionMismatch,
    /// The frame's trailing checksum does not match its content.
    ChecksumMismatch,
}

/// What a raw function-code byte denotes: the logical function and whether
/// the byte carries the exception marker. Codes above `0x80` keep the
/// function they answer and set the flag; a code that matches none of the
/// eight functions denotes nothing.
pub open spec fn spec_lookup(code: u8) -> Option<(Function, bool)> {
    if code <= 0x80 {
        match function_of_code(code) {
            Some(f) => Some((f, false)),
            None => None,
        }
    } else {
        match function_of_code((code - 0x80) as u8) {
            Some(f) => Some((f, true)),
            None => None,
        }
    }
}

/// Look a raw function-code byte up in the function table.
pub fn get_function(code: u8) -> (r: Option<(Function, bool)>)
    ensures
        r == spec_lookup(code),
{
    if code <= 0x80 {
        match Function::from_code(code) {
            Some(f) => Some((f, false)),
            None => None,
        }
    } else {
        match Function::from_code(code - 0x80) {
            Some(f) => Some((f, true)),
            None => None,
        }
    }
}

/// A by-content copy of a byte vector.
pub(crate) fn copy_bytes(v: &Vec<u8>) -> (r: Vec<u8>)
    ensures
        r@ == v@,
{
    let mut out: Vec<u8> = Vec::new();
    let mut i: usize = 0;
    while i < v.len()
        invariant
            i <= v@.len(),
            out@ == v@.take(i as int),
        decreases v@.len() - i,
    {
        out.push(v[i]);
        proof {
            assert(out@ =~= v@.take(i + 1));
        }
        i = i + 1;
    }
    proof {
        assert(out@ =~= v@);
    }
    out
}

} // verus!
