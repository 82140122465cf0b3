use bytes::BytesMut;

use modbus_client::codec::{get_function, DecodeError};
use modbus_client::frame::{Function, Version};
use modbus_client::{Request, Response};

/// Append the serial checksum to a frame's content bytes.
fn frame_with_crc(content: &[u8]) -> Vec<u8> {
    let crc = easy_modbus::util::crc::compute(content);
    let mut v = content.to_vec();
    v.push((crc >> 8) as u8);
    v.push((crc & 0xFF) as u8);
    v
}

fn encoded(req: &Request) -> Vec<u8> {
    let mut buf = BytesMut::new();
    req.to_bytes(&mut buf);
    buf.to_vec()
}

fn buffer_of(bytes: &[u8]) -> BytesMut {
    let mut buf = BytesMut::new();
    buf.extend_from_slice(bytes);
    buf
}

#[test]
fn read_coils_request_encodes() {
    let request = Request::read_coils_request(0x0B, 0x001D, 0x001F);
    assert_eq!(
        encoded(&request),
        vec![0x0B, 0x01, 0x00, 0x1D, 0x00, 0x1F, 0xED, 0x6E]
    );
}

#[test]
fn read_discrete_request_encodes() {
    let frame = Request::read_coils_request(0x01, 0x0000, 0x0001);
    let request = frame.read_discrete_request(0x0B, 0x007A, 0x001C);
    assert_eq!(
        encoded(&request),
        vec![0x0B, 0x02, 0x00, 0x7A, 0x00, 0x1C, 0x58, 0xB0]
    );
}

#[test]
fn read_multiple_holding_registers_request_encodes() {
    let request = Request::read_multiple_holding_registers_request(0x0B, 0x006F, 0x0003);
    assert_eq!(
        encoded(&request),
        vec![0x0B, 0x03, 0x00, 0x6F, 0x00, 0x03, 0x35, 0x7C]
    );
}

#[test]
fn read_input_registers_request_encodes() {
    let frame = Request::read_coils_request(0x01, 0x0000, 0x0001);
    let request = frame.read_input_registers_request(0x0B, 0x000A, 0x0001);
    assert_eq!(
        encoded(&request),
        vec![0x0B, 0x04, 0x00, 0x0A, 0x00, 0x01, 0x11, 0x62]
    );
}

#[test]
fn write_single_coil_request_encodes() {
    let frame = Request::read_coils_request(0x01, 0x0000, 0x0001);
    let request = frame.write_single_coil_request(0x0B, 0x00BF, 0x0000);
    assert_eq!(
        encoded(&request),
        vec![0x0B, 0x05, 0x00, 0xBF, 0x00, 0x00, 0xFC, 0x84]
    );
}

#[test]
fn write_single_holding_register_request_encodes() {
    let frame = Request::read_coils_request(0x01, 0x0000, 0x0001);
    let request = frame.write_single_holding_register_request(0x0B, 0x0004, 0xABCD);
    assert_eq!(
        encoded(&request),
        vec![0x0B, 0x06, 0x00, 0x04, 0xAB, 0xCD, 0x76, 0x04]
    );
}

#[test]
fn write_multiple_coils_request_encodes() {
    let frame = Request::read_coils_request(0x01, 0x0000, 0x0001);
    let request = frame.write_multiple_coils_request(0x0B, 0x001B, 0x0009, vec![0x4D, 0x01]);
    assert_eq!(
        encoded(&request),
        vec![0x0B, 0x0F, 0x00, 0x1B, 0x00, 0x09, 0x02, 0x4D, 0x01, 0x6C, 0xA7]
    );
}

#[test]
fn write_multiple_holding_registers_request_encodes() {
    let frame = Request::read_coils_request(0x01, 0x0000, 0x0001);
    let request =
        frame.write_multiple_holding_registers_request(0x0B, 0x0012, vec![0x0B, 0x0A, 0xC1, 0x02]);
    assert_eq!(
        encoded(&request),
        vec![0x0B, 0x10, 0x00, 0x12, 0x00, 0x02, 0x04, 0x0B, 0x0A, 0xC1, 0x02, 0xA0, 0xD5]
    );
}

#[test]
fn constructor_head_is_consistent() {
    let request = Request::read_coils_request(0x0B, 0x001D, 0x001F);
    let head = request.head();
    assert_eq!(head.tid, 0);
    assert_eq!(head.pid, 0);
    assert_eq!(head.length, 6);
    assert_eq!(head.uid, 0x0B);
    assert_eq!(head.function, Function::ReadCoils);
    assert_eq!(head.version, Version::Rtu);
    assert!(!head.is_exception);
}

#[test]
fn function_codes_round_trip() {
    let functions = [
        Function::ReadCoils,
        Function::ReadDiscreteInputs,
        Function::ReadMultipleHoldingRegisters,
        Function::ReadInputRegisters,
        Function::WriteSingleCoil,
        Function::WriteSingleHoldingRegister,
        Function::WriteMultipleCoils,
        Function::WriteMultipleHoldingRegisters,
    ];
    for f in functions {
        assert_eq!(Function::from_code(f.to_code()), Some(f));
    }
    assert_eq!(Function::from_code(0x00), None);
    assert_eq!(Function::from_code(0x07), None);
    assert_eq!(Function::from_code(0x80), None);
}

#[test]
fn function_table_marks_exceptions() {
    assert_eq!(get_function(0x01), Some((Function::ReadCoils, false)));
    assert_eq!(get_function(0x81), Some((Function::ReadCoils, true)));
    assert_eq!(get_function(0x10), Some((Function::WriteMultipleHoldingRegisters, false)));
    assert_eq!(get_function(0x90), Some((Function::WriteMultipleHoldingRegisters, true)));
    assert_eq!(get_function(0x07), None);
    assert_eq!(get_function(0x80), None);
    assert_eq!(get_function(0x87), None);
}

#[test]
fn holding_registers_scenario() {
    let request = Request::read_multiple_holding_registers_request(0x01, 0, 2);
    assert_eq!(
        encoded(&request),
        vec![0x01, 0x03, 0x00, 0x00, 0x00, 0x02, 0xC4, 0x0B]
    );

    let mut buf = buffer_of(&[0x01, 0x03, 0x02, 0x27, 0xC5, 0x63, 0xE7]);
    let response = request.decode(&mut buf).unwrap().unwrap();
    match response {
        Response::ReadMultipleHoldingRegisters(head, body, Ok(values)) => {
            assert_eq!(head.uid, 0x01);
            assert_eq!(head.function, Function::ReadMultipleHoldingRegisters);
            assert_eq!(body.first_address, 0);
            assert_eq!(body.registers_number, 2);
            assert_eq!(values.bytes_number, 2);
            assert_eq!(values.get_values(), &vec![0x27, 0xC5]);
        }
        _ => panic!("wrong response arm"),
    }
    assert_eq!(buf.len(), 0);
}

#[test]
fn round_trip_all_functions() {
    let frame = Request::read_coils_request(0x01, 0x0000, 0x0001);

    let request = Request::read_coils_request(0x11, 0x0013, 0x0025);
    let reply = frame_with_crc(&[0x11, 0x01, 0x05, 0xCD, 0x6B, 0xB2, 0x0E, 0x1B]);
    let mut buf = buffer_of(&reply);
    match request.decode(&mut buf).unwrap().unwrap() {
        Response::ReadCoils(head, _, Ok(body)) => {
            assert_eq!(head.uid, 0x11);
            assert_eq!(head.function, Function::ReadCoils);
            assert_eq!(body.bytes_number, 5);
            assert_eq!(body.values, vec![0xCD, 0x6B, 0xB2, 0x0E, 0x1B]);
        }
        _ => panic!("wrong response arm"),
    }

    let request = frame.read_discrete_request(0x11, 0x00C4, 0x0016);
    let reply = frame_with_crc(&[0x11, 0x02, 0x03, 0xAC, 0xDB, 0x35]);
    let mut buf = buffer_of(&reply);
    match request.decode(&mut buf).unwrap().unwrap() {
        Response::ReadDiscreteInputs(head, _, Ok(body)) => {
            assert_eq!(head.function, Function::ReadDiscreteInputs);
            assert_eq!(body.values, vec![0xAC, 0xDB, 0x35]);
        }
        _ => panic!("wrong response arm"),
    }

    let request = Request::read_multiple_holding_registers_request(0x11, 0x006B, 0x0002);
    let reply = frame_with_crc(&[0x11, 0x03, 0x04, 0xAE, 0x41, 0x56, 0x52]);
    let mut buf = buffer_of(&reply);
    match request.decode(&mut buf).unwrap().unwrap() {
        Response::ReadMultipleHoldingRegisters(head, _, Ok(body)) => {
            assert_eq!(head.function, Function::ReadMultipleHoldingRegisters);
            assert_eq!(body.values, vec![0xAE, 0x41, 0x56, 0x52]);
        }
        _ => panic!("wrong response arm"),
    }

    let request = frame.read_input_registers_request(0x11, 0x0008, 0x0001);
    let reply = frame_with_crc(&[0x11, 0x04, 0x02, 0x00, 0x0A]);
    let mut buf = buffer_of(&reply);
    match request.decode(&mut buf).unwrap().unwrap() {
        Response::ReadInputRegisters(head, _, Ok(body)) => {
            assert_eq!(head.function, Function::ReadInputRegisters);
            assert_eq!(body.values, vec![0x00, 0x0A]);
        }
        _ => panic!("wrong response arm"),
    }

    let request = frame.write_single_coil_request(0x11, 0x00AC, 0xFF00);
    let reply = encoded(&request);
    let mut buf = buffer_of(&reply);
    match request.decode(&mut buf).unwrap().unwrap() {
        Response::WriteSingleCoil(head, _, Ok(body)) => {
            assert_eq!(head.function, Function::WriteSingleCoil);
            assert_eq!(body.coil_address, 0x00AC);
            assert_eq!(body.value, 0xFF00);
        }
        _ => panic!("wrong response arm"),
    }

    let request = frame.write_single_holding_register_request(0x11, 0x0001, 0x0003);
    let reply = encoded(&request);
    let mut buf = buffer_of(&reply);
    match request.decode(&mut buf).unwrap().unwrap() {
        Response::WriteSingleHoldingRegister(head, _, Ok(body)) => {
            assert_eq!(head.function, Function::WriteSingleHoldingRegister);
            assert_eq!(body.register_address, 0x0001);
            assert_eq!(body.value, 0x0003);
        }
        _ => panic!("wrong response arm"),
    }

    let request = frame.write_multiple_coils_request(0x11, 0x0013, 0x000A, vec![0xCD, 0x01]);
    let reply = frame_with_crc(&[0x11, 0x0F, 0x00, 0x13, 0x00, 0x0A]);
    let mut buf = buffer_of(&reply);
    match request.decode(&mut buf).unwrap().unwrap() {
        Response::WriteMultipleCoils(head, body, Ok(echo)) => {
            assert_eq!(head.function, Function::WriteMultipleCoils);
            assert_eq!(body.values, vec![0xCD, 0x01]);
            assert_eq!(echo.first_address, 0x0013);
            assert_eq!(echo.coils_number, 0x000A);
        }
        _ => panic!("wrong response arm"),
    }

    let request =
        frame.write_multiple_holding_registers_request(0x11, 0x0001, vec![0x00, 0x0A, 0x01, 0x02]);
    let reply = frame_with_crc(&[0x11, 0x10, 0x00, 0x01, 0x00, 0x02]);
    let mut buf = buffer_of(&reply);
    match request.decode(&mut buf).unwrap().unwrap() {
        Response::WriteMultipleHoldingRegisters(head, body, Ok(echo)) => {
            assert_eq!(head.function, Function::WriteMultipleHoldingRegisters);
            assert_eq!(body.registers_number, 2);
            assert_eq!(body.values, vec![0x00, 0x0A, 0x01, 0x02]);
            assert_eq!(echo.first_address, 0x0001);
            assert_eq!(echo.registers_number, 0x0002);
        }
        _ => panic!("wrong response arm"),
    }
}

#[test]
fn partial_feed_waits_for_full_frame() {
    let request = Request::read_multiple_holding_registers_request(0x01, 0, 2);
    let reply = [0x01, 0x03, 0x02, 0x27, 0xC5, 0x63, 0xE7];
    let mut buf = BytesMut::new();
    for (i, byte) in reply.iter().enumerate() {
        if i + 1 < reply.len() {
            buf.extend_from_slice(&[*byte]);
            let step = request.decode(&mut buf).unwrap();
            assert!(step.is_none(), "prefix of {} bytes must be incomplete", i + 1);
            assert_eq!(buf.len(), i + 1, "an incomplete prefix must not be consumed");
        } else {
            buf.extend_from_slice(&[*byte]);
        }
    }
    let response = request.decode(&mut buf).unwrap();
    assert!(response.is_some());
    assert_eq!(buf.len(), 0);
}

#[test]
fn trailing_bytes_stay_in_buffer() {
    let request = Request::read_multiple_holding_registers_request(0x01, 0, 2);
    let mut buf = buffer_of(&[0x01, 0x03, 0x02, 0x27, 0xC5, 0x63, 0xE7, 0xAA, 0xBB]);
    let response = request.decode(&mut buf).unwrap();
    assert!(response.is_some());
    assert_eq!(buf.to_vec(), vec![0xAA, 0xBB]);
}

#[test]
fn corrupted_byte_fails_checksum() {
    let frame = Request::read_coils_request(0x01, 0x0000, 0x0001);
    let request = frame.write_single_coil_request(0x11, 0x00AC, 0xFF00);
    let valid = encoded(&request);
    for position in [0usize, 2, 3, 4, 5, 6, 7] {
        let mut corrupted = valid.clone();
        corrupted[position] ^= 0x40;
        let mut buf = buffer_of(&corrupted);
        let result = request.decode(&mut buf);
        assert!(
            matches!(result, Err(DecodeError::ChecksumMismatch)),
            "corruption at byte {} must be caught",
            position
        );
        assert_eq!(buf.len(), 0, "a checksum failure consumes the frame");
    }
}

#[test]
fn function_mismatch_is_fatal() {
    let pending = Request::read_coils_request(0x11, 0x0013, 0x0025);
    let reply = frame_with_crc(&[0x11, 0x05, 0x00, 0xAC, 0xFF, 0x00]);
    let mut buf = buffer_of(&reply);
    assert!(matches!(pending.decode(&mut buf), Err(DecodeError::FunctionMismatch)));
    assert_eq!(buf.len(), reply.len(), "a header rejection consumes nothing");
}

#[test]
fn exception_reply_carries_device_code() {
    let request = Request::read_coils_request(0x01, 0x0000, 0x0001);
    let reply = frame_with_crc(&[0x01, 0x81, 0x02]);
    let mut buf = buffer_of(&reply);
    match request.decode(&mut buf).unwrap().unwrap() {
        Response::ReadCoils(head, _, Err(exception)) => {
            assert_eq!(head.uid, 0x01);
            assert_eq!(head.function, Function::ReadCoils);
            assert_eq!(exception.0, 0x02);
        }
        _ => panic!("wrong response arm"),
    }
    assert_eq!(buf.len(), 0);
}

#[test]
fn exception_reply_for_other_function_still_decodes() {
    let request = Request::read_coils_request(0x01, 0x0000, 0x0001);
    let reply = frame_with_crc(&[0x01, 0x85, 0x03]);
    let mut buf = buffer_of(&reply);
    match request.decode(&mut buf).unwrap().unwrap() {
        Response::ReadCoils(_, _, Err(exception)) => {
            assert_eq!(exception.0, 0x03);
        }
        _ => panic!("wrong response arm"),
    }
}

#[test]
fn unknown_function_code_is_fatal() {
    let request = Request::read_coils_request(0x01, 0x0000, 0x0001);
    let mut buf = buffer_of(&[0x01, 0x07, 0x00]);
    assert!(matches!(
        request.decode(&mut buf),
        Err(DecodeError::InvalidFunctionCode(0x07))
    ));
    let mut buf = buffer_of(&[0x01, 0x80, 0x00]);
    assert!(matches!(
        request.decode(&mut buf),
        Err(DecodeError::InvalidFunctionCode(0x80))
    ));
}

#[test]
fn short_buffers_are_incomplete() {
    let request = Request::read_coils_request(0x01, 0x0000, 0x0001);
    let mut empty = BytesMut::new();
    assert!(matches!(request.decode(&mut empty), Ok(None)));
    let mut one = buffer_of(&[0x01]);
    assert!(matches!(request.decode(&mut one), Ok(None)));
    assert_eq!(one.len(), 1);
}
