//! The frame data model: protocol version, function codes, the message head,
//! and the per-function request and response bodies.

use vstd::prelude::*;

pub mod request;
pub mod response;

verus! {

/// Protocol variant of a frame: serial (`Rtu`) or network (`Tcp`).
#[derive(Clone, Copy, Debug, PartialEq, Eq, Structural)]
pub enum Version {
    Tcp,
    Rtu,
}

/// The eight Modbus operations this codec models.
#[derive(Clone, Copy, Debug, PartialEq, Eq, Structural)]
pub enum Function {
    ReadCoils,
    ReadDiscreteInputs,
    ReadMultipleHoldingRegisters,
    ReadInputRegisters,
    WriteSingleCoil,
    WriteSingleHoldingRegister,
    WriteMultipleCoils,
    WriteMultipleHoldingRegisters,
}

/// The wire code of a function, in its normal (non-exception) form.
pub open spec fn code_of(f: Function) -> u8 {
    match f {
        Function::ReadCoils => 0x01,
        Function::ReadDiscreteInputs => 0x02,
        Function::ReadMultipleHoldingRegisters => 0x03,
        Function::ReadInputRegisters => 0x04,
        Function::WriteSingleCoil => 0x05,
        Function::WriteSingleHoldingRegister => 0x06,
        Function::WriteMultipleCoils => 0x0F,
        Function::WriteMultipleHoldingRegisters => 0x10,
    }
}

/// The function that a normal-form wire code denotes, if any.
pub open spec fn function_of_code(code: u8) -> Option<Function> {
    match code {
        0x01 => Some(Function::ReadCoils),
        0x02 => Some(Function::ReadDiscreteInputs),
        0x03 => Some(Function::ReadMultipleHoldingRegisters),
        0x04 => Some(Function::ReadInputRegisters),
        0x05 => Some(Function::WriteSingleCoil),
        0x06 => Some(Function::WriteSingleHoldingRegister),
        0x0F => Some(Function::WriteMultipleCoils),
        0x10 => Some(Function::WriteMultipleHoldingRegisters),
        _ => None,
    }
}

/// A function's wire code maps back to that function: the code round-trips
/// losslessly, in both directions.
pub proof fn lemma_function_code_round_trip(f: Function, code: u8)
    ensures
        function_of_code(code_of(f)) == Some(f),
        function_of_code(code) matches Some(g) ==> code_of(g) == code,
{
}

impl Function {
    /// The wire code of this function in its normal form.
    pub fn to_code(&self) -> (code: u8)
        ensures
            code == code_of(*self),
    {
        match self {
            Function::ReadCoils => 0x01,
            Function::ReadDiscreteInputs => 0x02,
            Function::ReadMultipleHoldingRegisters => 0x03,
            Function::ReadInputRegisters => 0x04,
            Function::WriteSingleCoil => 0x05,
            Function::WriteSingleHoldingRegister => 0x06,
            Function::WriteMultipleCoils => 0x0F,
            Function::WriteMultipleHoldingRegisters => 0x10,
        }
    }

    /// The function a normal-form wire code denotes, if any.
    pub fn from_code(code: u8) -> (r: Option<Function>)
        ensures
            r == function_of_code(code),
    {
        match code {
            0x01 => Some(Function::ReadCoils),
            0x02 => Some(Function::ReadDiscreteInputs),
            0x03 => Some(Function::ReadMultipleHoldingRegisters),
            0x04 => Some(Function::ReadInputRegisters),
            0x05 => Some(Function::WriteSingleCoil),
            0x06 => Some(Function::WriteSingleHoldingRegister),
            0x0F => Some(Function::WriteMultipleCoils),
            0x10 => Some(Function::WriteMultipleHoldingRegisters),
            _ => None,
        }
    }
}

/// High byte of a 16-bit big-endian field.
pub open spec fn hi_byte(x: u16) -> u8 {
    (x / 256) as u8
}

/// Low byte of a 16-bit big-endian field.
pub open spec fn lo_byte(x: u16) -> u8 {
    (x % 256) as u8
}

/// The 16-bit value read big-endian from two bytes.
pub open spec fn be16(hi: u8, lo: u8) -> u16 {
    ((hi as int) * 256 + (lo as int)) as u16
}

/// Splitting a 16-bit value into bytes and reading them back is the identity.
pub proof fn lemma_be16_round_trip(x: u16)
    ensures
        be16(hi_byte(x), lo_byte(x)) == x,
{
}

/// Per-frame envelope: addressing, function, exception flag, body length and
/// protocol variant. Copied into the request when it is built and echoed into
/// the response that answers it.
#[derive(Clone, Copy, Debug, PartialEq, Eq, Structural)]
pub struct Head {
    /// Transaction identifier (always zero for the serial variant).
    pub tid: u16,
    /// Protocol identifier (always zero).
    pub pid: u16,
    /// Body length in bytes, plus two.
    pub length: u16,
    /// Unit (slave) address.
    pub uid: u8,
    /// The operation this frame performs.
    pub function: Function,
    /// Protocol variant the frame is encoded for.
    pub version: Version,
    /// Whether the frame is an exception reply.
    pub is_exception: bool,
}

impl Head {
    pub fn new(
        tid: u16,
        uid: u8,
        function: Function,
        body_length: u16,
        version: Version,
        is_exception: bool,
    ) -> (head: Head)
        requires
            body_length + 2 <= u16::MAX,
        ensures
            head == (Head {
                tid,
                pid: 0,
                length: (body_length + 2) as u16,
                uid,
                function,
                version,
                is_exception,
            }),
    {
        Head {
            tid,
            pid: 0x00,
            length: body_length + 2,
            uid,
            function,
            version,
            is_exception,
        }
    }
}

/// The function-code byte a head puts on the wire: the plain code, or the
/// code with the exception marker added.
pub open spec fn wire_code(h: Head) -> u8 {
    if h.is_exception {
        (code_of(h.function) + 0x80) as u8
    } else {
        code_of(h.function)
    }
}

/// The bytes a head contributes to a frame: for `Tcp` the six-byte prefix,
/// then unit address and function-code byte; for `Rtu` the last two alone.
pub open spec fn head_wire(h: Head) -> Seq<u8> {
    if h.version == Version::Tcp {
        seq![
            hi_byte(h.tid),
            lo_byte(h.tid),
            hi_byte(h.pid),
            lo_byte(h.pid),
            hi_byte(h.length),
            lo_byte(h.length),
            h.uid,
            wire_code(h),
        ]
    } else {
        seq![h.uid, wire_code(h)]
    }
}

} // verus!
