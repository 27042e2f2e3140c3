use modbus_rtu::decode::{decode_step, read_response, tail_len, DecodeState, DecodeStep};
use modbus_rtu::ring_buffer::RingBuffer;
use modbus_rtu::transport::{ByteReader, ByteWriter};
use modbus_rtu::{byte_to_error, Address, Error, ModbusClient, ModbusError, ServerAddress};

/// Accepts and discards every byte.
struct SinkWriter;

impl ByteWriter for SinkWriter {
    type Error = ();

    fn write_byte(&mut self, _value: u8) -> Result<(), ()> {
        Ok(())
    }
}

/// Replays a scripted reply, failing once the script runs out.
struct ScriptedReader {
    bytes: Vec<u8>,
    pos: usize,
}

impl ByteReader for ScriptedReader {
    type Error = u8;

    fn read_byte(&mut self) -> Result<u8, u8> {
        if self.pos < self.bytes.len() {
            let value = self.bytes[self.pos];
            self.pos += 1;
            Ok(value)
        } else {
            Err(0xEE)
        }
    }
}

#[test]
fn byte_to_error_maps_each_exception_code() {
    assert_eq!(byte_to_error(1), ModbusError::NotSupportedFunction);
    assert_eq!(byte_to_error(2), ModbusError::StartAddressOrQuantityInvalid);
    assert_eq!(byte_to_error(3), ModbusError::AddressInvalid);
    assert_eq!(byte_to_error(4), ModbusError::TypeInvalid);
    assert_eq!(byte_to_error(0), ModbusError::Unknown);
    assert_eq!(byte_to_error(5), ModbusError::Unknown);
    assert_eq!(byte_to_error(0xFF), ModbusError::Unknown);
}

#[test]
fn coil_and_register_byte_counts_follow_the_formulas() {
    for q in 1..=2000u16 {
        let expected = ((q as usize) + 7) / 8;
        assert_eq!(tail_len(0x01, q), 3 + expected);
    }
    for q in 1..=125u16 {
        assert_eq!(tail_len(0x04, q), 3 + 2 * (q as usize));
    }
    // The four write operations always owe four payload bytes plus checksum,
    // whatever the quantity.
    for fc in [0x05u8, 0x06, 0x0F, 0x10] {
        assert_eq!(tail_len(fc, 1), 6);
        assert_eq!(tail_len(fc, 2000), 6);
    }
}

#[test]
fn decode_step_walks_a_normal_reply() {
    let state = DecodeState::AwaitServerAddressEcho;
    let step = decode_step(0x01, 10, state, 0x11);
    assert_eq!(step, DecodeStep::Continue(DecodeState::AwaitFunctionCode));
    // quantity 10 -> byte count 2, so 3 + 2 = 5 tail bytes.
    let step = decode_step(0x01, 10, DecodeState::AwaitFunctionCode, 0x01);
    assert_eq!(step, DecodeStep::Continue(DecodeState::AwaitPayload { remaining: 5 }));
    let step = decode_step(0x01, 10, DecodeState::AwaitPayload { remaining: 5 }, 0x02);
    assert_eq!(step, DecodeStep::Continue(DecodeState::AwaitPayload { remaining: 4 }));
    let step = decode_step(0x01, 10, DecodeState::AwaitPayload { remaining: 1 }, 0x55);
    assert_eq!(step, DecodeStep::Complete);
}

#[test]
fn decode_step_routes_a_flagged_function_code_to_the_exception_path() {
    // Whatever the quantity, the flagged echo goes to the exception state
    // and the very next byte settles the error kind.
    for quantity in [1u16, 8, 100, 2000] {
        let step = decode_step(0x01, quantity, DecodeState::AwaitFunctionCode, 0x81);
        assert_eq!(step, DecodeStep::Continue(DecodeState::AwaitExceptionCode));
        let step = decode_step(0x01, quantity, DecodeState::AwaitExceptionCode, 0x02);
        assert_eq!(
            step,
            DecodeStep::Failed(ModbusError::StartAddressOrQuantityInvalid)
        );
    }
}

#[test]
fn exception_reply_consumes_exactly_one_byte_after_the_flagged_code() {
    let client = ModbusClient::new(vec![0u8; 256], ServerAddress(0x11));
    let mut writer = SinkWriter;
    // A long script: a normal reply to this request would need 7 bytes, but
    // the exception path must stop right after the exception code.
    let mut reader = ScriptedReader {
        bytes: vec![0x11, 0x81, 0x02, 0xDE, 0xAD, 0xBE, 0xEF, 0x00, 0x00, 0x00],
        pos: 0,
    };
    let result = client
        .read_coil_from(Address(0x0013))
        .with_quantity(10)
        .send(&mut writer, &mut reader);
    assert!(matches!(
        result,
        Err(Error::Modbus(ModbusError::StartAddressOrQuantityInvalid))
    ));
    assert_eq!(reader.pos, 3);
}

#[test]
fn exception_reply_on_a_write_is_reported_too() {
    let client = ModbusClient::new(vec![0u8; 256], ServerAddress(0x11));
    let mut writer = SinkWriter;
    let mut reader = ScriptedReader { bytes: vec![0x11, 0x85, 0x01, 0x00, 0x00], pos: 0 };
    let result = client
        .write_coil_from(Address(0x00AC))
        .send(&[true], &mut writer, &mut reader);
    assert!(matches!(
        result,
        Err(Error::Modbus(ModbusError::NotSupportedFunction))
    ));
    assert_eq!(reader.pos, 3);
}

#[test]
fn normal_read_reply_is_captured_whole() {
    let client = ModbusClient::new(vec![0u8; 256], ServerAddress(0x11));
    let mut writer = SinkWriter;
    let reply = vec![0x11, 0x01, 0x02, 0xCD, 0x01, 0x5A, 0xA5];
    let mut reader = ScriptedReader { bytes: reply.clone(), pos: 0 };
    let result = client
        .read_coil_from(Address(0x0013))
        .with_quantity(10)
        .send(&mut writer, &mut reader);
    let (length, bytes) = result.unwrap();
    assert_eq!(length, 7);
    assert_eq!(bytes, reply);
    assert_eq!(reader.pos, 7);
}

#[test]
fn read_failure_surfaces_the_transport_error() {
    let client = ModbusClient::new(vec![0u8; 256], ServerAddress(0x11));
    let mut writer = SinkWriter;
    // The reply breaks off after two bytes.
    let mut reader = ScriptedReader { bytes: vec![0x11, 0x01], pos: 0 };
    let result = client
        .read_coil_from(Address(0x0013))
        .with_quantity(10)
        .send(&mut writer, &mut reader);
    assert!(matches!(result, Err(Error::UartReadErr(0xEE))));
}

#[test]
fn read_response_can_be_driven_directly() {
    let mut buffer = RingBuffer::new(vec![0u8; 64]);
    let reply = vec![0x22, 0x04, 0x02, 0x12, 0x34, 0x00, 0x00];
    let mut reader = ScriptedReader { bytes: reply.clone(), pos: 0 };
    let result: Result<(usize, Vec<u8>), Error<(), u8>> =
        read_response(0x04, 1, &mut reader, &mut buffer);
    let (length, bytes) = result.unwrap();
    assert_eq!(length, 7);
    assert_eq!(bytes, reply);
}
