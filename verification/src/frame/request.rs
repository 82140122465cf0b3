//! Function-specific request bodies and their wire encodings.

use vstd::prelude::*;

use crate::frame::{hi_byte, lo_byte};

verus! {

/// Body of a read-coils request (function code `0x01`).
#[derive(Clone, Copy, Debug, PartialEq, Eq, Structural)]
pub struct ReadCoilsRequest {
    /// Address of the first coil to read.
    pub first_address: u16,
    /// Number of coils to read.
    pub coils_number: u16,
}

impl ReadCoilsRequest {
    pub open spec fn wire(self) -> Seq<u8> {
        seq![
            hi_byte(self.first_address),
            lo_byte(self.first_address),
            hi_byte(self.coils_number),
            lo_byte(self.coils_number),
        ]
    }
}

/// Body of a read-discrete-inputs request (function code `0x02`).
#[derive(Clone, Copy, Debug, PartialEq, Eq, Structural)]
pub struct ReadDiscreteInputsRequest {
    /// Address of the first discrete input to read.
    pub first_address: u16,
    /// Number of discrete inputs to read.
    pub discrete_inputs_number: u16,
}

impl ReadDiscreteInputsRequest {
    pub open spec fn wire(self) -> Seq<u8> {
        seq![
            hi_byte(self.first_address),
            lo_byte(self.first_address),
            hi_byte(self.discrete_inputs_number),
            lo_byte(self.discrete_inputs_number),
        ]
    }
}

/// Body of a read-multiple-holding-registers request (function code `0x03`).
#[derive(Clone, Copy, Debug, PartialEq, Eq, Structural)]
pub struct ReadMultipleHoldingRegistersRequest {
    /// Address of the first register to read.
    pub first_address: u16,
    /// Number of registers to read.
    pub registers_number: u16,
}

impl ReadMultipleHoldingRegistersRequest {
    pub open spec fn wire(self) -> Seq<u8> {
        seq![
            hi_byte(self.first_address),
            lo_byte(self.first_address),
            hi_byte(self.registers_number),
            lo_byte(self.registers_number),
        ]
    }
}

/// Body of a read-input-registers request (function code `0x04`).
#[derive(Clone, Copy, Debug, PartialEq, Eq, Structural)]
pub struct ReadInputRegistersRequest {
    /// Address of the first register to read.
    pub first_address: u16,
    /// Number of registers to read.
    pub registers_number: u16,
}

impl ReadInputRegistersRequest {
    pub open spec fn wire(self) -> Seq<u8> {
        seq![
            hi_byte(self.first_address),
            lo_byte(self.first_address),
            hi_byte(self.registers_number),
            lo_byte(self.registers_number),
        ]
    }
}

/// Body of a write-single-coil request (function code `0x05`).
#[derive(Clone, Copy, Debug, PartialEq, Eq, Structural)]
pub struct WriteSingleCoilRequest {
    /// Address of the coil to write.
    pub coil_address: u16,
    /// Value to write: `0x0000` for off, `0xFF00` for on.
    pub value: u16,
}

impl WriteSingleCoilRequest {
    pub open spec fn wire(self) -> Seq<u8> {
        seq![
            hi_byte(self.coil_address),
            lo_byte(self.coil_address),
            hi_byte(self.value),
            lo_byte(self.value),
        ]
    }
}

/// Body of a write-single-holding-register request (function code `0x06`).
#[derive(Clone, Copy, Debug, PartialEq, Eq, Structural)]
pub struct WriteSingleHoldingRegisterRequest {
    /// Address of the holding register to write.
    pub register_address: u16,
    /// Value to write.
    pub value: u16,
}

impl WriteSingleHoldingRegisterRequest {
    pub open spec fn wire(self) -> Seq<u8> {
        seq![
            hi_byte(self.register_address),
            lo_byte(self.register_address),
            hi_byte(self.value),
            lo_byte(self.value),
        ]
    }
}

/// Body of a write-multiple-coils request (function code `0x0F`).
#[derive(Clone, Debug)]
pub struct WriteMultipleCoilsRequest {
    /// Address of the first coil to write.
    pub first_address: u16,
    /// Number of coils to write.
    pub coils_number: u16,
    /// Number of value bytes that follow.
    pub bytes_number: u8,
    /// Packed coil values, eight per byte.
    pub values: Vec<u8>,
}

impl WriteMultipleCoilsRequest {
    pub open spec fn wire(self) -> Seq<u8> {
        seq![
            hi_byte(self.first_address),
            lo_byte(self.first_address),
            hi_byte(self.coils_number),
            lo_byte(self.coils_number),
            self.bytes_number,
        ] + self.values@
    }

    /// Field-wise equality; the value bytes compare by content.
    pub open spec fn same_as(self, other: Self) -> bool {
        &&& self.first_address == other.first_address
        &&& self.coils_number == other.coils_number
        &&& self.bytes_number == other.bytes_number
        &&& self.values@ == other.values@
    }
}

/// Body of a write-multiple-holding-registers request (function code `0x10`).
#[derive(Clone, Debug)]
pub struct WriteMultipleHoldingRegistersRequest {
    /// Address of the first holding register to write.
    pub first_address: u16,
    /// Number of holding registers to write.
    pub registers_number: u16,
    /// Number of value bytes that follow.
    pub bytes_number: u8,
    /// New register values, two bytes per register.
    pub values: Vec<u8>,
}

impl WriteMultipleHoldingRegistersRequest {
    pub open spec fn wire(self) -> Seq<u8> {
        seq![
            hi_byte(self.first_address),
            lo_byte(self.first_address),
            hi_byte(self.registers_number),
            lo_byte(self.registers_number),
            self.bytes_number,
        ] + self.values@
    }

    /// Field-wise equality; the value bytes compare by content.
    pub open spec fn same_as(self, other: Self) -> bool {
        &&& self.first_address == other.first_address
        &&& self.registers_number == other.registers_number
        &&& self.bytes_number == other.bytes_number
        &&& self.values@ == other.values@
    }
}

} // verus!
