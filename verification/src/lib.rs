//! A Modbus client codec: typed requests serialize to checksummed wire
//! frames, and the byte stream coming back from a device is decoded
//! incrementally into a response matched against the pending request.

use vstd::prelude::*;

mod buffer;
mod checksum;
pub mod codec;
pub mod frame;

use crate::frame::request::{
    ReadCoilsRequest, ReadDiscreteInputsRequest, ReadInputRegistersRequest,
    ReadMultipleHoldingRegistersRequest, WriteMultipleCoilsRequest,
    WriteMultipleHoldingRegistersRequest, WriteSingleCoilRequest,
    WriteSingleHoldingRegisterRequest,
};
use crate::frame::response::{
    ExceptionResponse, ReadCoilsResponse, ReadDiscreteInputsResponse,
    ReadInputRegistersResponse, ReadMultipleHoldingRegistersResponse,
    WriteMultipleCoilsResponse, WriteMultipleHoldingRegistersResponse,
    WriteSingleCoilResponse, WriteSingleHoldingRegisterResponse,
};
use crate::frame::{Function, Head, Version};

verus! {

/// A request to a device: one arm per function, each carrying the frame head
/// and the function-specific body.
pub enum Request {
    ReadCoils(Head, ReadCoilsRequest),
    ReadDiscreteInputs(Head, ReadDiscreteInputsRequest),
    ReadMultipleHoldingRegisters(Head, ReadMultipleHoldingRegistersRequest),
    ReadInputRegisters(Head, ReadInputRegistersRequest),
    WriteSingleCoil(Head, WriteSingleCoilRequest),
    WriteSingleHoldingRegister(Head, WriteSingleHoldingRegisterRequest),
    WriteMultipleCoils(Head, WriteMultipleCoilsRequest),
    WriteMultipleHoldingRegisters(Head, WriteMultipleHoldingRegistersRequest),
}

/// A decoded reply: the arm, head and request body of the request it answers,
/// together with the parsed success body or the device's exception.
pub enum Response {
    ReadCoils(Head, ReadCoilsRequest, Result<ReadCoilsResponse, ExceptionResponse>),
    ReadDiscreteInputs(
        Head,
        ReadDiscreteInputsRequest,
        Result<ReadDiscreteInputsResponse, ExceptionResponse>,
    ),
    ReadMultipleHoldingRegisters(
        Head,
        ReadMultipleHoldingRegistersRequest,
        Result<ReadMultipleHoldingRegistersResponse, ExceptionResponse>,
    ),
    ReadInputRegisters(
        Head,
        ReadInputRegistersRequest,
        Result<ReadInputRegistersResponse, ExceptionResponse>,
    ),
    WriteSingleCoil(Head, WriteSingleCoilRequest, Result<WriteSingleCoilResponse, ExceptionResponse>),
    WriteSingleHoldingRegister(
        Head,
        WriteSingleHoldingRegisterRequest,
        Result<WriteSingleHoldingRegisterResponse, ExceptionResponse>,
    ),
    WriteMultipleCoils(
        Head,
        WriteMultipleCoilsRequest,
        Result<WriteMultipleCoilsResponse, ExceptionResponse>,
    ),
    WriteMultipleHoldingRegisters(
        Head,
        WriteMultipleHoldingRegistersRequest,
        Result<WriteMultipleHoldingRegistersResponse, ExceptionResponse>,
    ),
}

impl Request {
    /// The head stored in this request.
    pub open spec fn spec_head(self) -> Head {
        match self {
            Request::ReadCoils(head, _) => head,
            Request::ReadDiscreteInputs(head, _) => head,
            Request::ReadMultipleHoldingRegisters(head, _) => head,
            Request::ReadInputRegisters(head, _) => head,
            Request::WriteSingleCoil(head, _) => head,
            Request::WriteSingleHoldingRegister(head, _) => head,
            Request::WriteMultipleCoils(head, _) => head,
            Request::WriteMultipleHoldingRegisters(head, _) => head,
        }
    }

    /// The function this request's arm stands for.
    pub open spec fn spec_function(self) -> Function {
        match self {
            Request::ReadCoils(..) => Function::ReadCoils,
            Request::ReadDiscreteInputs(..) => Function::ReadDiscreteInputs,
            Request::ReadMultipleHoldingRegisters(..) => Function::ReadMultipleHoldingRegisters,
            Request::ReadInputRegisters(..) => Function::ReadInputRegisters,
            Request::WriteSingleCoil(..) => Function::WriteSingleCoil,
            Request::WriteSingleHoldingRegister(..) => Function::WriteSingleHoldingRegister,
            Request::WriteMultipleCoils(..) => Function::WriteMultipleCoils,
            Request::WriteMultipleHoldingRegisters(..) => Function::WriteMultipleHoldingRegisters,
        }
    }

    /// The bytes this request's body contributes to a frame.
    pub open spec fn body_wire(self) -> Seq<u8> {
        match self {
            Request::ReadCoils(_, body) => body.wire(),
            Request::ReadDiscreteInputs(_, body) => body.wire(),
            Request::ReadMultipleHoldingRegisters(_, body) => body.wire(),
            Request::ReadInputRegisters(_, body) => body.wire(),
            Request::WriteSingleCoil(_, body) => body.wire(),
            Request::WriteSingleHoldingRegister(_, body) => body.wire(),
            Request::WriteMultipleCoils(_, body) => body.wire(),
            Request::WriteMultipleHoldingRegisters(_, body) => body.wire(),
        }
    }

    /// Internal consistency: the head's function names the arm and the head's
    /// length field counts the body bytes, plus two.
    pub open spec fn wf(self) -> bool {
        &&& self.spec_head().function == self.spec_function()
        &&& self.spec_head().length == self.body_wire().len() + 2
        &&& self.body_wire().len() + 4 <= u16::MAX
    }

    /// Same arm, same head, same body content.
    pub open spec fn same_as(self, other: Request) -> bool {
        match (self, other) {
            (Request::ReadCoils(h, b), Request::ReadCoils(h2, b2)) => h == h2 && b == b2,
            (Request::ReadDiscreteInputs(h, b), Request::ReadDiscreteInputs(h2, b2)) => h == h2
                && b == b2,
            (
                Request::ReadMultipleHoldingRegisters(h, b),
                Request::ReadMultipleHoldingRegisters(h2, b2),
            ) => h == h2 && b == b2,
            (Request::ReadInputRegisters(h, b), Request::ReadInputRegisters(h2, b2)) => h == h2
                && b == b2,
            (Request::WriteSingleCoil(h, b), Request::WriteSingleCoil(h2, b2)) => h == h2
                && b == b2,
            (
                Request::WriteSingleHoldingRegister(h, b),
                Request::WriteSingleHoldingRegister(h2, b2),
            ) => h == h2 && b == b2,
            (Request::WriteMultipleCoils(h, b), Request::WriteMultipleCoils(h2, b2)) => h == h2
                && b.same_as(b2),
            (
                Request::WriteMultipleHoldingRegisters(h, b),
                Request::WriteMultipleHoldingRegisters(h2, b2),
            ) => h == h2 && b.same_as(b2),
            _ => false,
        }
    }

    /// Decide well-formedness at run time, for callers outside the proof:
    /// every constructor builds a request for which this returns true.
    pub fn is_wf(&self) -> (r: bool)
        ensures
            r == self.wf(),
    {
        let body_len: usize = match self {
            Request::ReadCoils(..) => 4,
            Request::ReadDiscreteInputs(..) => 4,
            Request::ReadMultipleHoldingRegisters(..) => 4,
            Request::ReadInputRegisters(..) => 4,
            Request::WriteSingleCoil(..) => 4,
            Request::WriteSingleHoldingRegister(..) => 4,
            Request::WriteMultipleCoils(_, body) => {
                if body.values.len() > 65526 {
                    return false;
                }
                5 + body.values.len()
            },
            Request::WriteMultipleHoldingRegisters(_, body) => {
                if body.values.len() > 65526 {
                    return false;
                }
                5 + body.values.len()
            },
        };
        let head = self.head();
        let function_matches = match self {
            Request::ReadCoils(..) => head.function == Function::ReadCoils,
            Request::ReadDiscreteInputs(..) => head.function == Function::ReadDiscreteInputs,
            Request::ReadMultipleHoldingRegisters(..) => head.function
                == Function::ReadMultipleHoldingRegisters,
            Request::ReadInputRegisters(..) => head.function == Function::ReadInputRegisters,
            Request::WriteSingleCoil(..) => head.function == Function::WriteSingleCoil,
            Request::WriteSingleHoldingRegister(..) => head.function
                == Function::WriteSingleHoldingRegister,
            Request::WriteMultipleCoils(..) => head.function == Function::WriteMultipleCoils,
            Request::WriteMultipleHoldingRegisters(..) => head.function
                == Function::WriteMultipleHoldingRegisters,
        };
        function_matches && body_len + 4 <= u16::MAX as usize && head.length as usize == body_len
            + 2
    }

    /// Serialize this request and append its wire bytes to the transport
    /// buffer.
    pub fn to_bytes(&self, data: &mut bytes::BytesMut)
        ensures
            crate::buffer::buf_bytes(*final(data)) == crate::buffer::buf_bytes(*old(data))
                + crate::codec::encoder::request_wire(*self),
    {
        crate::codec::request_to_bytesmut(self, data)
    }

    /// The head of this request.
    pub fn head(&self) -> (head: &Head)
        ensures
            *head == self.spec_head(),
    {
        match self {
            Request::ReadCoils(head, _) => head,
            Request::ReadDiscreteInputs(head, _) => head,
            Request::ReadMultipleHoldingRegisters(head, _) => head,
            Request::ReadInputRegisters(head, _) => head,
            Request::WriteSingleCoil(head, _) => head,
            Request::WriteSingleHoldingRegister(head, _) => head,
            Request::WriteMultipleCoils(head, _) => head,
            Request::WriteMultipleHoldingRegisters(head, _) => head,
        }
    }

    /// Create a read coils request (function code `0x01`).
    ///
    /// * `unit_id` - server address
    /// * `first_address` - address of the first coil to read
    /// * `number` - number of coils to read
    pub fn read_coils_request(unit_id: u8, first_address: u16, number: u16) -> (r: Request)
        ensures
            r == Request::ReadCoils(
                Self::spec_init_head(unit_id, Function::ReadCoils, 4, false),
                ReadCoilsRequest { first_address, coils_number: number },
            ),
            r.wf(),
    {
        let function = Function::ReadCoils;
        let request_body = ReadCoilsRequest { first_address, coils_number: number };
        let head = Self::init_head(unit_id, function, 4, false);
        Request::ReadCoils(head, request_body)
    }

    /// Create a read discrete inputs request (function code `0x02`).
    ///
    /// * `unit_id` - server address
    /// * `first_address` - address of the first discrete input to read
    /// * `number` - number of discrete inputs to read
    pub fn read_discrete_request(&self, unit_id: u8, first_address: u16, number: u16) -> (r:
        Request)
        ensures
            r == Request::ReadDiscreteInputs(
                Self::spec_init_head(unit_id, Function::ReadDiscreteInputs, 4, false),
                ReadDiscreteInputsRequest { first_address, discrete_inputs_number: number },
            ),
            r.wf(),
    {
        let function = Function::ReadDiscreteInputs;
        let request_body = ReadDiscreteInputsRequest {
            first_address,
            discrete_inputs_number: number,
        };
        let head = Self::init_head(unit_id, function, 4, false);
        Request::ReadDiscreteInputs(head, request_body)
    }

    /// Create a read multiple holding registers request (function code `0x03`).
    ///
    /// * `unit_id` - server address
    /// * `first_address` - address of the first register to read
    /// * `number` - number of registers to read
    pub fn read_multiple_holding_registers_request(
        unit_id: u8,
        first_address: u16,
        number: u16,
    ) -> (r: Request)
        ensures
            r == Request::ReadMultipleHoldingRegisters(
                Self::spec_init_head(unit_id, Function::ReadMultipleHoldingRegisters, 4, false),
                ReadMultipleHoldingRegistersRequest { first_address, registers_number: number },
            ),
            r.wf(),
    {
        let function = Function::ReadMultipleHoldingRegisters;
        let request_body = ReadMultipleHoldingRegistersRequest {
            first_address,
            registers_number: number,
        };
        let head = Self::init_head(unit_id, function, 4, false);
        Request::ReadMultipleHoldingRegisters(head, request_body)
    }

    /// Create a read input registers request (function code `0x04`).
    ///
    /// * `unit_id` - server address
    /// * `first_address` - address of the first register to read
    /// * `number` - number of registers to read
    pub fn read_input_registers_request(&self, unit_id: u8, first_address: u16, number: u16) -> (r:
        Request)
        ensures
            r == Request::ReadInputRegisters(
                Self::spec_init_head(unit_id, Function::ReadInputRegisters, 4, false),
                ReadInputRegistersRequest { first_address, registers_number: number },
            ),
            r.wf(),
    {
        let function = Function::ReadInputRegisters;
        let request_body = ReadInputRegistersRequest { first_address, registers_number: number };
        let head = Self::init_head(unit_id, function, 4, false);
        Request::ReadInputRegisters(head, request_body)
    }

    /// Create a write single coil request (function code `0x05`).
    ///
    /// * `unit_id` - server address
    /// * `address` - address of the coil to write
    /// * `value` - value to write: 0 (`0x0000`) for off, 65280 (`0xFF00`) for on
    pub fn write_single_coil_request(&self, unit_id: u8, address: u16, value: u16) -> (r: Request)
        ensures
            r == Request::WriteSingleCoil(
                Self::spec_init_head(unit_id, Function::WriteSingleCoil, 4, false),
                WriteSingleCoilRequest { coil_address: address, value },
            ),
            r.wf(),
    {
        let function = Function::WriteSingleCoil;
        let request_body = WriteSingleCoilRequest { coil_address: address, value };
        let head = Self::init_head(unit_id, function, 4, false);
        Request::WriteSingleCoil(head, request_body)
    }

    /// Create a write single holding register request (function code `0x06`).
    ///
    /// * `unit_id` - server address
    /// * `address` - address of the holding register to write
    /// * `value` - value to write
    pub fn write_single_holding_register_request(&self, unit_id: u8, address: u16, value: u16) -> (
        r: Request)
        ensures
            r == Request::WriteSingleHoldingRegister(
                Self::spec_init_head(unit_id, Function::WriteSingleHoldingRegister, 4, false),
                WriteSingleHoldingRegisterRequest { register_address: address, value },
            ),
            r.wf(),
    {
        let function = Function::WriteSingleHoldingRegister;
        let request_body = WriteSingleHoldingRegisterRequest { register_address: address, value };
        let head = Self::init_head(unit_id, function, 4, false);
        Request::WriteSingleHoldingRegister(head, request_body)
    }

    /// Create a write multiple coils request (function code `0x0F`).
    ///
    /// * `unit_id` - server address
    /// * `address` - address of the first coil to write
    /// * `coils_number` - number of coils to write
    /// * `values` - packed coil values, eight per byte
    pub fn write_multiple_coils_request(
        &self,
        unit_id: u8,
        address: u16,
        coils_number: u16,
        values: Vec<u8>,
    ) -> (r: Request)
        requires
            values@.len() <= 255,
        ensures
            r matches Request::WriteMultipleCoils(head, body) && {
                &&& head == Self::spec_init_head(
                    unit_id,
                    Function::WriteMultipleCoils,
                    (5 + values@.len()) as u16,
                    false,
                )
                &&& body.first_address == address
                &&& body.coils_number == coils_number
                &&& body.bytes_number == values@.len()
                &&& body.values@ == values@
            },
            r.wf(),
    {
        let function = Function::WriteMultipleCoils;
        let bytes_number = values.len() as u8;
        let body_length = 5 + bytes_number as u16;
        let request_body = WriteMultipleCoilsRequest {
            first_address: address,
            coils_number,
            bytes_number,
            values,
        };
        let head = Self::init_head(unit_id, function, body_length, false);
        Request::WriteMultipleCoils(head, request_body)
    }

    /// Create a write multiple holding registers request (function code `0x10`).
    ///
    /// * `unit_id` - server address
    /// * `address` - address of the first holding register to write
    /// * `values` - new register values, two bytes per register
    pub fn write_multiple_holding_registers_request(
        &self,
        unit_id: u8,
        address: u16,
        values: Vec<u8>,
    ) -> (r: Request)
        requires
            values@.len() <= 255,
        ensures
            r matches Request::WriteMultipleHoldingRegisters(head, body) && {
                &&& head == Self::spec_init_head(
                    unit_id,
                    Function::WriteMultipleHoldingRegisters,
                    (5 + values@.len()) as u16,
                    false,
                )
                &&& body.first_address == address
                &&& body.registers_number == values@.len() / 2
                &&& body.bytes_number == values@.len()
                &&& body.values@ == values@
            },
            r.wf(),
    {
        let function = Function::WriteMultipleHoldingRegisters;
        let bytes_number = values.len() as u8;
        let registers_number = (values.len() / 2) as u16;
        let body_length = 5 + bytes_number as u16;
        let request_body = WriteMultipleHoldingRegistersRequest {
            first_address: address,
            registers_number,
            bytes_number,
            values,
        };
        let head = Self::init_head(unit_id, function, body_length, false);
        Request::WriteMultipleHoldingRegisters(head, request_body)
    }

    /// The head every constructor builds: serial framing, transaction id zero.
    pub open spec fn spec_init_head(
        uid: u8,
        function: Function,
        body_length: u16,
        is_exception: bool,
    ) -> Head {
        Head {
            tid: 0,
            pid: 0,
            length: (body_length + 2) as u16,
            uid,
            function,
            version: Version::Rtu,
            is_exception,
        }
    }

    /// Build the message head for a new request.
    fn init_head(uid: u8, function: Function, body_length: u16, is_exception: bool) -> (head: Head)
        requires
            body_length + 2 <= u16::MAX,
        ensures
            head == Self::spec_init_head(uid, function, body_length, is_exception),
    {
        Head::new(Self::get_tid(uid), uid, function, body_length, Version::Rtu, is_exception)
    }

    /// The transaction id for a unit: always zero for serial framing.
    fn get_tid(_unit_id: u8) -> (tid: u16)
        ensures
            tid == 0,
    {
        0
    }
}

impl Clone for Request {
    /// A copy with the same arm, head and body content.
    fn clone(&self) -> (r: Self)
        ensures
            self.same_as(r),
    {
        match self {
            Request::ReadCoils(head, body) => Request::ReadCoils(*head, *body),
            Request::ReadDiscreteInputs(head, body) => Request::ReadDiscreteInputs(*head, *body),
            Request::ReadMultipleHoldingRegisters(head, body) => {
                Request::ReadMultipleHoldingRegisters(*head, *body)
            },
            Request::ReadInputRegisters(head, body) => Request::ReadInputRegisters(*head, *body),
            Request::WriteSingleCoil(head, body) => Request::WriteSingleCoil(*head, *body),
            Request::WriteSingleHoldingRegister(head, body) => {
                Request::WriteSingleHoldingRegister(*head, *body)
            },
            Request::WriteMultipleCoils(head, body) => {
                let values = crate::codec::copy_bytes(&body.values);
                Request::WriteMultipleCoils(
                    *head,
                    WriteMultipleCoilsRequest {
                        first_address: body.first_address,
                        coils_number: body.coils_number,
                        bytes_number: body.bytes_number,
                        values,
                    },
                )
            },
            Request::WriteMultipleHoldingRegisters(head, body) => {
                let values = crate::codec::copy_bytes(&body.values);
                Request::WriteMultipleHoldingRegisters(
                    *head,
                    WriteMultipleHoldingRegistersRequest {
                        first_address: body.first_address,
                        registers_number: body.registers_number,
                        bytes_number: body.bytes_number,
                        values,
                    },
                )
            },
        }
    }
}

impl Response {
    /// The head carried by this response.
    pub open spec fn spec_head(self) -> Head {
        match self {
            Response::ReadCoils(head, _, _) => head,
            Response::ReadDiscreteInputs(head, _, _) => head,
            Response::ReadMultipleHoldingRegisters(head, _, _) => head,
            Response::ReadInputRegisters(head, _, _) => head,
            Response::WriteSingleCoil(head, _, _) => head,
            Response::WriteSingleHoldingRegister(head, _, _) => head,
            Response::WriteMultipleCoils(head, _, _) => head,
            Response::WriteMultipleHoldingRegisters(head, _, _) => head,
        }
    }

    /// The function this response's arm stands for.
    pub open spec fn spec_function(self) -> Function {
        match self {
            Response::ReadCoils(..) => Function::ReadCoils,
            Response::ReadDiscreteInputs(..) => Function::ReadDiscreteInputs,
            Response::ReadMultipleHoldingRegisters(..) => Function::ReadMultipleHoldingRegisters,
            Response::ReadInputRegisters(..) => Function::ReadInputRegisters,
            Response::WriteSingleCoil(..) => Function::WriteSingleCoil,
            Response::WriteSingleHoldingRegister(..) => Function::WriteSingleHoldingRegister,
            Response::WriteMultipleCoils(..) => Function::WriteMultipleCoils,
            Response::WriteMultipleHoldingRegisters(..) => Function::WriteMultipleHoldingRegisters,
        }
    }

    /// The device exception this response carries, if its result is the
    /// error arm.
    pub open spec fn spec_exception(self) -> Option<ExceptionResponse> {
        match self {
            Response::ReadCoils(_, _, result) => match result {
                Ok(_) => None,
                Err(e) => Some(e),
            },
            Response::ReadDiscreteInputs(_, _, result) => match result {
                Ok(_) => None,
                Err(e) => Some(e),
            },
            Response::ReadMultipleHoldingRegisters(_, _, result) => match result {
                Ok(_) => None,
                Err(e) => Some(e),
            },
            Response::ReadInputRegisters(_, _, result) => match result {
                Ok(_) => None,
                Err(e) => Some(e),
            },
            Response::WriteSingleCoil(_, _, result) => match result {
                Ok(_) => None,
                Err(e) => Some(e),
            },
            Response::WriteSingleHoldingRegister(_, _, result) => match result {
                Ok(_) => None,
                Err(e) => Some(e),
            },
            Response::WriteMultipleCoils(_, _, result) => match result {
                Ok(_) => None,
                Err(e) => Some(e),
            },
            Response::WriteMultipleHoldingRegisters(_, _, result) => match result {
                Ok(_) => None,
                Err(e) => Some(e),
            },
        }
    }
}

} // verus!
