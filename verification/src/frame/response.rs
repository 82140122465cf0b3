//! Function-specific response bodies, the exception body, and how each parses
//! from a reply frame's payload bytes.

use vstd::prelude::*;

use crate::frame::be16;

verus! {

/// The one-byte error code a device returns when it cannot honour a request.
#[derive(Clone, Copy, Debug, PartialEq, Eq, Structural)]
pub struct ExceptionResponse(pub u8);

impl ExceptionResponse {
    /// The payload of an exception reply is the single error-code byte.
    pub open spec fn parses_from(self, payload: Seq<u8>) -> bool {
        payload.len() >= 1 && self.0 == payload[0]
    }

    pub fn from_payload(payload: &Vec<u8>) -> (r: Self)
        requires
            payload@.len() >= 1,
        ensures
            r.parses_from(payload@),
    {
        ExceptionResponse(payload[0])
    }
}

/// Body of a read-coils reply (function code `0x01`).
#[derive(Clone, Debug)]
pub struct ReadCoilsResponse {
    /// Number of value bytes that follow.
    pub bytes_number: u8,
    /// Packed coil values, eight per byte.
    pub values: Vec<u8>,
}

impl ReadCoilsResponse {
    /// The payload is one count byte followed by the value bytes.
    pub open spec fn parses_from(self, payload: Seq<u8>) -> bool {
        &&& payload.len() >= 1
        &&& self.bytes_number == payload[0]
        &&& self.values@ == payload.skip(1)
    }

    pub fn from_payload(payload: Vec<u8>) -> (r: Self)
        requires
            payload@.len() >= 1,
        ensures
            r.parses_from(payload@),
    {
        let mut head = payload;
        let rest = head.split_off(1);
        ReadCoilsResponse { bytes_number: head[0], values: rest }
    }
}

/// Body of a read-discrete-inputs reply (function code `0x02`).
#[derive(Clone, Debug)]
pub struct ReadDiscreteInputsResponse {
    /// Number of value bytes that follow.
    pub bytes_number: u8,
    /// Packed discrete-input values, eight per byte.
    pub values: Vec<u8>,
}

impl ReadDiscreteInputsResponse {
    /// The payload is one count byte followed by the value bytes.
    pub open spec fn parses_from(self, payload: Seq<u8>) -> bool {
        &&& payload.len() >= 1
        &&& self.bytes_number == payload[0]
        &&& self.values@ == payload.skip(1)
    }

    pub fn from_payload(payload: Vec<u8>) -> (r: Self)
        requires
            payload@.len() >= 1,
        ensures
            r.parses_from(payload@),
    {
        let mut head = payload;
        let rest = head.split_off(1);
        ReadDiscreteInputsResponse { bytes_number: head[0], values: rest }
    }
}

/// Body of a read-multiple-holding-registers reply (function code `0x03`).
#[derive(Clone, Debug)]
pub struct ReadMultipleHoldingRegistersResponse {
    /// Number of value bytes that follow.
    pub bytes_number: u8,
    /// Register values, two bytes per register.
    pub values: Vec<u8>,
}

impl ReadMultipleHoldingRegistersResponse {
    /// The payload is one count byte followed by the value bytes.
    pub open spec fn parses_from(self, payload: Seq<u8>) -> bool {
        &&& payload.len() >= 1
        &&& self.bytes_number == payload[0]
        &&& self.values@ == payload.skip(1)
    }

    pub fn from_payload(payload: Vec<u8>) -> (r: Self)
        requires
            payload@.len() >= 1,
        ensures
            r.parses_from(payload@),
    {
        let mut head = payload;
        let rest = head.split_off(1);
        ReadMultipleHoldingRegistersResponse { bytes_number: head[0], values: rest }
    }

    /// The register value bytes carried by this reply.
    pub fn get_values(&self) -> (r: &Vec<u8>)
        ensures
            r@ == self.values@,
    {
        &self.values
    }
}

/// Body of a read-input-registers reply (function code `0x04`).
#[derive(Clone, Debug)]
pub struct ReadInputRegistersResponse {
    /// Number of value bytes that follow.
    pub bytes_number: u8,
    /// Register values, two bytes per register.
    pub values: Vec<u8>,
}

impl ReadInputRegistersResponse {
    /// The payload is one count byte followed by the value bytes.
    pub open spec fn parses_from(self, payload: Seq<u8>) -> bool {
        &&& payload.len() >= 1
        &&& self.bytes_number == payload[0]
        &&& self.values@ == payload.skip(1)
    }

    pub fn from_payload(payload: Vec<u8>) -> (r: Self)
        requires
            payload@.len() >= 1,
        ensures
            r.parses_from(payload@),
    {
        let mut head = payload;
        let rest = head.split_off(1);
        ReadInputRegistersResponse { bytes_number: head[0], values: rest }
    }
}

/// Body of a write-single-coil reply (function code `0x05`): the echoed
/// address and value.
#[derive(Clone, Copy, Debug, PartialEq, Eq, Structural)]
pub struct WriteSingleCoilResponse {
    /// Address of the written coil.
    pub coil_address: u16,
    /// The value written.
    pub value: u16,
}

impl WriteSingleCoilResponse {
    /// The payload is the echoed address and value, big-endian.
    pub open spec fn parses_from(self, payload: Seq<u8>) -> bool {
        &&& payload.len() >= 4
        &&& self.coil_address == be16(payload[0], payload[1])
        &&& self.value == be16(payload[2], payload[3])
    }

    pub fn from_payload(payload: &Vec<u8>) -> (r: Self)
        requires
            payload@.len() >= 4,
        ensures
            r.parses_from(payload@),
    {
        WriteSingleCoilResponse {
            coil_address: (payload[0] as u16) * 256 + (payload[1] as u16),
            value: (payload[2] as u16) * 256 + (payload[3] as u16),
        }
    }
}

/// Body of a write-single-holding-register reply (function code `0x06`): the
/// echoed address and value.
#[derive(Clone, Copy, Debug, PartialEq, Eq, Structural)]
pub struct WriteSingleHoldingRegisterResponse {
    /// Address of the written holding register.
    pub register_address: u16,
    /// The value written.
    pub value: u16,
}

impl WriteSingleHoldingRegisterResponse {
    /// The payload is the echoed address and value, big-endian.
    pub open spec fn parses_from(self, payload: Seq<u8>) -> bool {
        &&& payload.len() >= 4
        &&& self.register_address == be16(payload[0], payload[1])
        &&& self.value == be16(payload[2], payload[3])
    }

    pub fn from_payload(payload: &Vec<u8>) -> (r: Self)
        requires
            payload@.len() >= 4,
        ensures
            r.parses_from(payload@),
    {
        WriteSingleHoldingRegisterResponse {
            register_address: (payload[0] as u16) * 256 + (payload[1] as u16),
            value: (payload[2] as u16) * 256 + (payload[3] as u16),
        }
    }
}

/// Body of a write-multiple-coils reply (function code `0x0F`): the echoed
/// start address and coil count.
#[derive(Clone, Copy, Debug, PartialEq, Eq, Structural)]
pub struct WriteMultipleCoilsResponse {
    /// Address of the first written coil.
    pub first_address: u16,
    /// Number of coils written.
    pub coils_number: u16,
}

impl WriteMultipleCoilsResponse {
    /// The payload is the echoed start address and count, big-endian.
    pub open spec fn parses_from(self, payload: Seq<u8>) -> bool {
        &&& payload.len() >= 4
        &&& self.first_address == be16(payload[0], payload[1])
        &&& self.coils_number == be16(payload[2], payload[3])
    }

    pub fn from_payload(payload: &Vec<u8>) -> (r: Self)
        requires
            payload@.len() >= 4,
        ensures
            r.parses_from(payload@),
    {
        WriteMultipleCoilsResponse {
            first_address: (payload[0] as u16) * 256 + (payload[1] as u16),
            coils_number: (payload[2] as u16) * 256 + (payload[3] as u16),
        }
    }
}

/// Body of a write-multiple-holding-registers reply (function code `0x10`):
/// the echoed start address and register count.
#[derive(Clone, Copy, Debug, PartialEq, Eq, Structural)]
pub struct WriteMultipleHoldingRegistersResponse {
    /// Address of the first written holding register.
    pub first_address: u16,
    /// Number of holding registers written.
    pub registers_number: u16,
}

impl WriteMultipleHoldingRegistersResponse {
    /// The payload is the echoed start address and count, big-endian.
    pub open spec fn parses_from(self, payload: Seq<u8>) -> bool {
        &&& payload.len() >= 4
        &&& self.first_address == be16(payload[0], payload[1])
        &&& self.registers_number == be16(payload[2], payload[3])
    }

    pub fn from_payload(payload: &Vec<u8>) -> (r: Self)
        requires
            payload@.len() >= 4,
        ensures
            r.parses_from(payload@),
    {
        WriteMultipleHoldingRegistersResponse {
            first_address: (payload[0] as u16) * 256 + (payload[1] as u16),
            registers_number: (payload[2] as u16) * 256 + (payload[3] as u16),
        }
    }
}

} // verus!
