//! Serializes a request into wire bytes: head, body, and for serial framing
//! the trailing checksum over everything before it.

use vstd::prelude::*;

use bytes::BytesMut;

use crate::buffer::{buf_append, buf_bytes};
use crate::checksum::crc_of;
use crate::frame::{head_wire, hi_byte, lo_byte, Version};
use crate::Request;

verus! {

/// The full wire encoding of a request: head bytes, then body bytes; for the
/// serial variant the checksum of those bytes follows, high byte first.
pub open spec fn request_wire(req: Request) -> Seq<u8> {
    let content = head_wire(req.spec_head()) + req.body_wire();
    if req.spec_head().version == Version::Rtu {
        content + seq![hi_byte(crc_of(content)), lo_byte(crc_of(content))]
    } else {
        content
    }
}

/// Append a 16-bit value big-endian.
fn push_u16(out: &mut Vec<u8>, x: u16)
    ensures
        final(out)@ == old(out)@ + seq![hi_byte(x), lo_byte(x)],
{
    out.push((x / 256) as u8);
    out.push((x % 256) as u8);
    proof {
        assert(final(out)@ =~= old(out)@ + seq![hi_byte(x), lo_byte(x)]);
    }
}

/// Append a byte vector by content.
fn push_bytes(out: &mut Vec<u8>, src: &Vec<u8>)
    ensures
        final(out)@ == old(out)@ + src@,
{
    let mut i: usize = 0;
    while i < src.len()
        invariant
            i <= src@.len(),
            out@ == old(out)@ + src@.take(i as int),
        decreases src@.len() - i,
    {
        out.push(src[i]);
        proof {
            assert(out@ =~= old(out)@ + src@.take(i + 1));
        }
        i = i + 1;
    }
    proof {
        assert(out@ =~= old(out)@ + src@);
    }
}

/// Serialize a request and append its wire bytes to the transport buffer.
pub fn request_to_bytesmut(item: &Request, dst: &mut BytesMut)
    ensures
        buf_bytes(*final(dst)) == buf_bytes(*old(dst)) + request_wire(*item),
{
    let head = *item.head();
    let mut out: Vec<u8> = Vec::new();
    if head.version == Version::Tcp {
        push_u16(&mut out, head.tid);
        push_u16(&mut out, head.pid);
        push_u16(&mut out, head.length);
    }
    out.push(head.uid);
    let code = head.function.to_code();
    let wire_byte = if head.is_exception {
        code + 0x80
    } else {
        code
    };
    out.push(wire_byte);
    proof {
        assert(out@ =~= head_wire(item.spec_head()));
    }
    match item {
        Request::ReadCoils(_, body) => {
            push_u16(&mut out, body.first_address);
            push_u16(&mut out, body.coils_number);
        },
        Request::ReadDiscreteInputs(_, body) => {
            push_u16(&mut out, body.first_address);
            push_u16(&mut out, body.discrete_inputs_number);
        },
        Request::ReadMultipleHoldingRegisters(_, body) => {
            push_u16(&mut out, body.first_address);
            push_u16(&mut out, body.registers_number);
        },
        Request::ReadInputRegisters(_, body) => {
            push_u16(&mut out, body.first_address);
            push_u16(&mut out, body.registers_number);
        },
        Request::WriteSingleCoil(_, body) => {
            push_u16(&mut out, body.coil_address);
            push_u16(&mut out, body.value);
        },
        Request::WriteSingleHoldingRegister(_, body) => {
            push_u16(&mut out, body.register_address);
            push_u16(&mut out, body.value);
        },
        Request::WriteMultipleCoils(_, body) => {
            push_u16(&mut out, body.first_address);
            push_u16(&mut out, body.coils_number);
            out.push(body.bytes_number);
            push_bytes(&mut out, &body.values);
        },
        Request::WriteMultipleHoldingRegisters(_, body) => {
            push_u16(&mut out, body.first_address);
            push_u16(&mut out, body.registers_number);
            out.push(body.bytes_number);
            push_bytes(&mut out, &body.values);
        },
    }
    proof {
        assert(out@ =~= head_wire(item.spec_head()) + item.body_wire());
    }
    if head.version == Version::Rtu {
        let crc = crate::checksum::compute(out.as_slice());
        out.push((crc / 256) as u8);
        out.push((crc % 256) as u8);
        proof {
            assert(out@ =~= request_wire(*item));
        }
    }
    buf_append(dst, out.as_slice());
}

} // verus!
