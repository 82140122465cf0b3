//! The incremental frame parser: it consumes bytes from the transport buffer,
//! waits until a whole frame is present, validates the checksum, and builds
//! the response matched to the pending request.

use vstd::prelude::*;

use bytes::BytesMut;

use crate::buffer::{buf_byte_at, buf_bytes, buf_len, buf_read_u16, buf_take_front};
use crate::checksum::crc_of;
use crate::codec::{get_function, spec_lookup, DecodeError};
use crate::frame::response::{
    ExceptionResponse, ReadCoilsResponse, ReadDiscreteInputsResponse, ReadInputRegistersResponse,
    ReadMultipleHoldingRegistersResponse, WriteMultipleCoilsResponse,
    WriteMultipleHoldingRegistersResponse, WriteSingleCoilResponse,
    WriteSingleHoldingRegisterResponse,
};
use crate::frame::{be16, Function};
use crate::{Request, Response};

verus! {

/// What one decode call does to a buffer holding the bytes `s`, decided by
/// the function expected by the pending request.
pub enum Step {
    /// Too few bytes for a whole frame: nothing is consumed.
    Incomplete,
    /// The header refuses the frame before its end is known: nothing is
    /// consumed.
    RejectHeader(DecodeError),
    /// A whole frame arrived but its checksum does not match its content:
    /// the frame's bytes are consumed.
    RejectChecksum { consumed: int },
    /// A whole, checksummed frame: its bytes are consumed and its payload
    /// (the bytes between the function code and the checksum) parses into
    /// the response.
    Accept { payload: Seq<u8>, is_exception: bool, consumed: int },
}

/// How many data bytes follow address and function code: one for an
/// exception reply; for a read, the count byte plus the count it holds (zero
/// until that byte has arrived); a fixed four for a write.
pub open spec fn spec_data_len(function: Function, is_exception: bool, s: Seq<u8>) -> int {
    if is_exception {
        1
    } else {
        match function {
            Function::ReadCoils
            | Function::ReadDiscreteInputs
            | Function::ReadMultipleHoldingRegisters
            | Function::ReadInputRegisters => if s.len() >= 3 {
                s[2] + 1
            } else {
                0
            },
            Function::WriteSingleCoil
            | Function::WriteSingleHoldingRegister
            | Function::WriteMultipleCoils
            | Function::WriteMultipleHoldingRegisters => 4,
        }
    }
}

/// The decoder's step on buffer content `s` when the pending request expects
/// `expected`: wait for the function byte, look it up, refuse a mismatched
/// function, derive the frame length, wait for the whole frame, then let the
/// checksum decide.
pub open spec fn spec_step(expected: Function, s: Seq<u8>) -> Step {
    if s.len() < 2 {
        Step::Incomplete
    } else {
        match spec_lookup(s[1]) {
            None => Step::RejectHeader(DecodeError::InvalidFunctionCode(s[1])),
            Some((f, is_exception)) => {
                if !is_exception && f != expected {
                    Step::RejectHeader(DecodeError::FunctionMismatch)
                } else {
                    let data_len = spec_data_len(f, is_exception, s);
                    if s.len() < data_len + 4 {
                        Step::Incomplete
                    } else {
                        let content = s.take(data_len + 2);
                        let candidate = be16(s[data_len + 2], s[data_len + 3]);
                        if crc_of(content) == candidate {
                            Step::Accept {
                                payload: s.subrange(2, data_len + 2),
                                is_exception,
                                consumed: data_len + 4,
                            }
                        } else {
                            Step::RejectChecksum { consumed: data_len + 4 }
                        }
                    }
                }
            },
        }
    }
}

/// The response that answers `req` with payload bytes `payload`: the same
/// arm, the request's head and body carried over, and the result parsed from
/// the payload — the device's exception code if the exception marker was
/// set, the function's success body otherwise.
pub open spec fn resp_matches(resp: Response, req: Request, payload: Seq<u8>, is_exception: bool) -> bool {
    match (req, resp) {
        (Request::ReadCoils(h, b), Response::ReadCoils(h2, b2, result)) => {
            &&& h2 == h
            &&& b2 == b
            &&& (match result {
                Ok(body) => !is_exception && body.parses_from(payload),
                Err(e) => is_exception && e.parses_from(payload),
            })
        },
        (Request::ReadDiscreteInputs(h, b), Response::ReadDiscreteInputs(h2, b2, result)) => {
            &&& h2 == h
            &&& b2 == b
            &&& (match result {
                Ok(body) => !is_exception && body.parses_from(payload),
                Err(e) => is_exception && e.parses_from(payload),
            })
        },
        (
            Request::ReadMultipleHoldingRegisters(h, b),
            Response::ReadMultipleHoldingRegisters(h2, b2, result),
        ) => {
            &&& h2 == h
            &&& b2 == b
            &&& (match result {
                Ok(body) => !is_exception && body.parses_from(payload),
                Err(e) => is_exception && e.parses_from(payload),
            })
        },
        (Request::ReadInputRegisters(h, b), Response::ReadInputRegisters(h2, b2, result)) => {
            &&& h2 == h
            &&& b2 == b
            &&& (match result {
                Ok(body) => !is_exception && body.parses_from(payload),
                Err(e) => is_exception && e.parses_from(payload),
            })
        },
        (Request::WriteSingleCoil(h, b), Response::WriteSingleCoil(h2, b2, result)) => {
            &&& h2 == h
            &&& b2 == b
            &&& (match result {
                Ok(body) => !is_exception && body.parses_from(payload),
                Err(e) => is_exception && e.parses_from(payload),
            })
        },
        (
            Request::WriteSingleHoldingRegister(h, b),
            Response::WriteSingleHoldingRegister(h2, b2, result),
        ) => {
            &&& h2 == h
            &&& b2 == b
            &&& (match result {
                Ok(body) => !is_exception && body.parses_from(payload),
                Err(e) => is_exception && e.parses_from(payload),
            })
        },
        (Request::WriteMultipleCoils(h, b), Response::WriteMultipleCoils(h2, b2, result)) => {
            &&& h2 == h
            &&& b2.same_as(b)
            &&& (match result {
                Ok(body) => !is_exception && body.parses_from(payload),
                Err(e) => is_exception && e.parses_from(payload),
            })
        },
        (
            Request::WriteMultipleHoldingRegisters(h, b),
            Response::WriteMultipleHoldingRegisters(h2, b2, result),
        ) => {
            &&& h2 == h
            &&& b2.same_as(b)
            &&& (match result {
                Ok(body) => !is_exception && body.parses_from(payload),
                Err(e) => is_exception && e.parses_from(payload),
            })
        },
        _ => false,
    }
}

/// The fewest payload bytes the response correlator reads: the exception
/// code alone, a read's count byte, or a write's four echoed bytes.
pub open spec fn min_payload(f: Function, is_exception: bool) -> int {
    if is_exception {
        1
    } else {
        match f {
            Function::ReadCoils
            | Function::ReadDiscreteInputs
            | Function::ReadMultipleHoldingRegisters
            | Function::ReadInputRegisters => 1,
            Function::WriteSingleCoil
            | Function::WriteSingleHoldingRegister
            | Function::WriteMultipleCoils
            | Function::WriteMultipleHoldingRegisters => 4,
        }
    }
}

impl Request {
    /// Try to extract one reply frame from the transport buffer.
    ///
    /// Returns `Ok(None)` while too few bytes have arrived (nothing is
    /// consumed), the matched response once a whole frame with a valid
    /// checksum is present (the frame's bytes are consumed, trailing bytes
    /// stay), and a fatal error for an unknown function code, a function
    /// that differs from this pending request's, or a checksum mismatch.
    pub fn decode(&self, src: &mut BytesMut) -> (r: Result<Option<Response>, DecodeError>)
        requires
            self.wf(),
        ensures
            ({
                let s = buf_bytes(*old(src));
                match spec_step(self.spec_head().function, s) {
                    Step::Incomplete => r == Ok::<Option<Response>, DecodeError>(None)
                        && buf_bytes(*final(src)) == s,
                    Step::RejectHeader(e) => r == Err::<Option<Response>, DecodeError>(e)
                        && buf_bytes(*final(src)) == s,
                    Step::RejectChecksum { consumed } => r == Err::<Option<Response>, DecodeError>(
                        DecodeError::ChecksumMismatch,
                    ) && buf_bytes(*final(src)) == s.skip(consumed),
                    Step::Accept { payload, is_exception, consumed } => {
                        &&& (match r {
                            Ok(opt) => match opt {
                                Some(resp) => resp_matches(resp, *self, payload, is_exception),
                                None => false,
                            },
                            Err(_) => false,
                        })
                        &&& buf_bytes(*final(src)) == s.skip(consumed)
                    },
                }
            }),
    {
        let ghost s = buf_bytes(*src);
        let func_byte = match buf_byte_at(src, 1) {
            None => {
                return Ok(None);
            },
            Some(b) => b,
        };
        let looked_up = match get_function(func_byte) {
            None => {
                return Err(DecodeError::InvalidFunctionCode(func_byte));
            },
            Some(pair) => pair,
        };
        let (function, is_exception) = looked_up;
        let expected = self.head().function;
        if !is_exception && function != expected {
            return Err(DecodeError::FunctionMismatch);
        }
        let data_len: usize = if is_exception {
            1
        } else {
            match function {
                Function::ReadCoils
                | Function::ReadDiscreteInputs
                | Function::ReadMultipleHoldingRegisters
                | Function::ReadInputRegisters => {
                    match buf_byte_at(src, 2) {
                        None => 0,
                        Some(bytes_num) => bytes_num as usize + 1,
                    }
                },
                Function::WriteSingleCoil
                | Function::WriteSingleHoldingRegister
                | Function::WriteMultipleCoils
                | Function::WriteMultipleHoldingRegisters => 4,
            }
        };
        proof {
            assert(data_len == spec_data_len(function, is_exception, s));
        }
        let frame_len = data_len + 4;
        if buf_len(src) < frame_len {
            return Ok(None);
        }
        let body_bytes = buf_take_front(src, data_len + 2);
        let crc = buf_read_u16(src);
        proof {
            assert(buf_bytes(*src) =~= s.skip(data_len + 4));
            assert(crc == be16(s[data_len + 2], s[data_len + 3]));
        }
        if crate::checksum::check(body_bytes.as_slice(), crc) {
            let mut frame_start = body_bytes;
            let payload = frame_start.split_off(2);
            proof {
                assert(payload@ =~= s.subrange(2, data_len + 2));
            }
            let rs = get_response(payload, self.clone(), is_exception);
            return Ok(Some(rs));
        }
        Err(DecodeError::ChecksumMismatch)
    }
}

/// Build the response that answers `request`: its arm and stored context are
/// carried over, and the payload bytes parse into the success body, or into
/// the device's exception code when the exception marker was set.
fn get_response(src: Vec<u8>, request: Request, is_exception: bool) -> (resp: Response)
    requires
        src@.len() >= min_payload(request.spec_function(), is_exception),
    ensures
        resp_matches(resp, request, src@, is_exception),
{
    match request {
        Request::ReadCoils(head, req) => {
            let rs = if is_exception {
                Err(ExceptionResponse::from_payload(&src))
            } else {
                Ok(ReadCoilsResponse::from_payload(src))
            };
            Response::ReadCoils(head, req, rs)
        },
        Request::ReadDiscreteInputs(head, req) => {
            let rs = if is_exception {
                Err(ExceptionResponse::from_payload(&src))
            } else {
                Ok(ReadDiscreteInputsResponse::from_payload(src))
            };
            Response::ReadDiscreteInputs(head, req, rs)
        },
        Request::ReadMultipleHoldingRegisters(head, req) => {
            let rs = if is_exception {
                Err(ExceptionResponse::from_payload(&src))
            } else {
                Ok(ReadMultipleHoldingRegistersResponse::from_payload(src))
            };
            Response::ReadMultipleHoldingRegisters(head, req, rs)
        },
        Request::ReadInputRegisters(head, req) => {
            let rs = if is_exception {
                Err(ExceptionResponse::from_payload(&src))
            } else {
                Ok(ReadInputRegistersResponse::from_payload(src))
            };
            Response::ReadInputRegisters(head, req, rs)
        },
        Request::WriteSingleCoil(head, req) => {
            let rs = if is_exception {
                Err(ExceptionResponse::from_payload(&src))
            } else {
                Ok(WriteSingleCoilResponse::from_payload(&src))
            };
            Response::WriteSingleCoil(head, req, rs)
        },
        Request::WriteSingleHoldingRegister(head, req) => {
            let rs = if is_exception {
                Err(ExceptionResponse::from_payload(&src))
            } else {
                Ok(WriteSingleHoldingRegisterResponse::from_payload(&src))
            };
            Response::WriteSingleHoldingRegister(head, req, rs)
        },
        Request::WriteMultipleCoils(head, req) => {
            let rs = if is_exception {
                Err(ExceptionResponse::from_payload(&src))
            } else {
                Ok(WriteMultipleCoilsResponse::from_payload(&src))
            };
            Response::WriteMultipleCoils(head, req, rs)
        },
        Request::WriteMultipleHoldingRegisters(head, req) => {
            let rs = if is_exception {
                Err(ExceptionResponse::from_payload(&src))
            } else {
                Ok(WriteMultipleHoldingRegistersResponse::from_payload(&src))
            };
            Response::WriteMultipleHoldingRegisters(head, req, rs)
        },
    }
}

} // verus!
