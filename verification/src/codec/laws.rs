//! The codec's guarantees that span several operations, each proved once and
//! for all inputs: what a well-formed reply decodes to, that partial frames
//! only ever wait, that trailing bytes survive a decode, that the checksum
//! alone decides a complete frame, that a mismatched function is fatal, and
//! what an exception reply carries.

use vstd::prelude::*;

use crate::checksum::crc_of;
use crate::codec::decoder::{resp_matches, spec_data_len, spec_step, Step};
use crate::codec::encoder::request_wire;
use crate::codec::{spec_lookup, DecodeError};
use crate::frame::response::ExceptionResponse;
use crate::frame::{be16, code_of, head_wire, hi_byte, lemma_be16_round_trip, lo_byte, Function, Version};
use crate::{Request, Response};

verus! {

/// `s` is exactly one whole reply frame for a pending request that expects
/// `expected`: its function byte is known and either carries the exception
/// marker or names the expected function, its length is what that function
/// byte demands, and its trailing checksum matches its content.
pub open spec fn wellformed_reply(expected: Function, s: Seq<u8>) -> bool {
    &&& s.len() >= 2
    &&& match spec_lookup(s[1]) {
        Some((f, is_exception)) => {
            let data_len = spec_data_len(f, is_exception, s);
            &&& (is_exception || f == expected)
            &&& s.len() == data_len + 4
            &&& crc_of(s.take(data_len + 2)) == be16(s[data_len + 2], s[data_len + 3])
        },
        None => false,
    }
}

/// The payload a whole reply frame carries: everything between the function
/// code and the checksum.
pub open spec fn reply_payload(s: Seq<u8>) -> Seq<u8> {
    s.subrange(2, s.len() - 2)
}

/// Whether a reply frame's function byte carries the exception marker.
pub open spec fn reply_is_exception(s: Seq<u8>) -> bool {
    s[1] > 0x80
}

/// Round trip: a request built by a constructor, once its frame has gone
/// out, turns any well-formed reply into exactly one accepted response, and
/// that response carries the request's own head and function.
pub proof fn lemma_round_trip(req: Request, s: Seq<u8>, resp: Response)
    requires
        req.wf(),
        wellformed_reply(req.spec_head().function, s),
        resp_matches(resp, req, reply_payload(s), reply_is_exception(s)),
    ensures
        spec_step(req.spec_head().function, s) == (Step::Accept {
            payload: reply_payload(s),
            is_exception: reply_is_exception(s),
            consumed: s.len() as int,
        }),
        resp.spec_head() == req.spec_head(),
        resp.spec_function() == req.spec_function(),
{
    assert(spec_step(req.spec_head().function, s) == (Step::Accept {
        payload: reply_payload(s),
        is_exception: reply_is_exception(s),
        consumed: s.len() as int,
    })) by {
        let (f, is_exception) = spec_lookup(s[1])->Some_0;
        let data_len = spec_data_len(f, is_exception, s);
        assert(reply_payload(s) =~= s.subrange(2, data_len + 2));
    }
}

/// Feeding a frame one byte at a time never consumes a partial frame: every
/// strict prefix of a frame that would be accepted whole reports only that
/// more bytes are needed.
pub proof fn lemma_partial_feed(expected: Function, frame: Seq<u8>, k: int)
    requires
        spec_step(expected, frame) matches Step::Accept { consumed, .. } && consumed
            == frame.len(),
        0 <= k < frame.len(),
    ensures
        spec_step(expected, frame.take(k)) == Step::Incomplete,
{
    let p = frame.take(k);
    if k >= 2 {
        assert(p[1] == frame[1]);
        if k >= 3 {
            assert(p[2] == frame[2]);
        }
    }
}

/// Bytes arriving after a whole frame change nothing: the decoder accepts
/// the same payload, consumes only the frame, and leaves the tail for the
/// next call.
pub proof fn lemma_trailing_bytes(expected: Function, frame: Seq<u8>, tail: Seq<u8>)
    requires
        spec_step(expected, frame) matches Step::Accept { consumed, .. } && consumed
            == frame.len(),
    ensures
        spec_step(expected, frame + tail) == spec_step(expected, frame),
        (frame + tail).skip(frame.len() as int) == tail,
{
    let s = frame + tail;
    assert(s[1] == frame[1]);
    let (f, is_exception) = spec_lookup(frame[1])->Some_0;
    if frame.len() >= 3 {
        assert(s[2] == frame[2]);
    }
    let data_len = spec_data_len(f, is_exception, frame);
    assert(spec_data_len(f, is_exception, s) == data_len);
    assert(s.take(data_len + 2) =~= frame.take(data_len + 2));
    assert(s[data_len + 2] == frame[data_len + 2]);
    assert(s[data_len + 3] == frame[data_len + 3]);
    assert(s.subrange(2, data_len + 2) =~= frame.subrange(2, data_len + 2));
    assert(s.skip(frame.len() as int) =~= tail);
}

/// Once a whole frame is present, the checksum alone decides: a matching
/// checksum is accepted, a mismatched one is rejected as a checksum error —
/// a corrupted frame can never slip through as a response.
pub proof fn lemma_checksum_decides(expected: Function, s: Seq<u8>)
    requires
        s.len() >= 2,
        spec_lookup(s[1]) matches Some(pair) && (pair.1 || pair.0 == expected) && s.len()
            >= spec_data_len(pair.0, pair.1, s) + 4,
    ensures
        ({
            let (f, is_exception) = spec_lookup(s[1])->Some_0;
            let data_len = spec_data_len(f, is_exception, s);
            if crc_of(s.take(data_len + 2)) == be16(s[data_len + 2], s[data_len + 3]) {
                spec_step(expected, s) == (Step::Accept {
                    payload: s.subrange(2, data_len + 2),
                    is_exception,
                    consumed: data_len + 4,
                })
            } else {
                spec_step(expected, s) == (Step::RejectChecksum { consumed: data_len + 4 })
            }
        }),
{
}

/// A validly framed reply whose function byte names, without the exception
/// marker, a different function than the pending request's is always fatal:
/// the decoder reports the mismatch and consumes nothing.
pub proof fn lemma_function_mismatch(expected: Function, s: Seq<u8>)
    requires
        s.len() >= 2,
        spec_lookup(s[1]) matches Some(pair) && !pair.1 && pair.0 != expected,
    ensures
        spec_step(expected, s) == Step::RejectHeader(DecodeError::FunctionMismatch),
{
}

/// Loopback echo: for the single-write functions a device's reply is the
/// request frame itself, so the encoder's own output, fed back, is accepted
/// whole, with the request's four body bytes as payload.
pub proof fn lemma_single_write_echo(req: Request)
    requires
        req.wf(),
        req.spec_head().version == Version::Rtu,
        !req.spec_head().is_exception,
        req.spec_function() == Function::WriteSingleCoil || req.spec_function()
            == Function::WriteSingleHoldingRegister,
    ensures
        spec_step(req.spec_head().function, request_wire(req)) == (Step::Accept {
            payload: req.body_wire(),
            is_exception: false,
            consumed: 8,
        }),
{
    let h = req.spec_head();
    let content = head_wire(h) + req.body_wire();
    let s = request_wire(req);
    let crc = crc_of(content);
    lemma_be16_round_trip(crc);
    assert(head_wire(h) =~= seq![h.uid, code_of(h.function)]);
    assert(s.len() == 8);
    assert(s[1] == code_of(h.function));
    assert(spec_lookup(s[1]) == Some((h.function, false)));
    assert(s.take(6) =~= content);
    assert(s[6] == hi_byte(crc) && s[7] == lo_byte(crc));
    assert(s.subrange(2, 6) =~= req.body_wire());
}

/// An exception reply — the exception marker on the function byte and a
/// one-byte body holding the device's error code — decodes, when its
/// checksum holds, into a response whose result is exactly that error code.
pub proof fn lemma_exception_reply(expected: Function, s: Seq<u8>)
    requires
        s.len() == 5,
        spec_lookup(s[1]) matches Some(pair) && pair.1,
        crc_of(s.take(3)) == be16(s[3], s[4]),
    ensures
        spec_step(expected, s) == (Step::Accept {
            payload: s.subrange(2, 3),
            is_exception: true,
            consumed: 5,
        }),
        forall|resp: Response, req: Request|
            #[trigger] resp_matches(resp, req, s.subrange(2, 3), true) ==> resp.spec_exception()
                == Some(ExceptionResponse(s[2])),
{
    assert forall|resp: Response, req: Request|
        #[trigger] resp_matches(resp, req, s.subrange(2, 3), true) implies resp.spec_exception()
        == Some(ExceptionResponse(s[2])) by {
        assert(s.subrange(2, 3)[0] == s[2]);
    }
}

} // verus!
