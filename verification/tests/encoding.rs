use modbus_rtu::coils::pack_coils;
use modbus_rtu::ring_buffer::RingBuffer;
use modbus_rtu::transport::{ByteReader, ByteWriter};
use modbus_rtu::{add_crc, Address, ModbusClient, ServerAddress};

/// Records every byte the engine transmits.
struct RecordingWriter {
    bytes: Vec<u8>,
}

impl ByteWriter for RecordingWriter {
    type Error = ();

    fn write_byte(&mut self, value: u8) -> Result<(), ()> {
        self.bytes.push(value);
        Ok(())
    }
}

/// Replays a scripted reply, failing once the script runs out.
struct ScriptedReader {
    bytes: Vec<u8>,
    pos: usize,
}

impl ByteReader for ScriptedReader {
    type Error = u8;

    fn read_byte(&mut self) -> Result<u8, u8> {
        if self.pos < self.bytes.len() {
            let value = self.bytes[self.pos];
            self.pos += 1;
            Ok(value)
        } else {
            Err(0xEE)
        }
    }
}

fn crc_of(pdu: &[u8]) -> (u8, u8) {
    let crc = crc16::State::<crc16::MODBUS>::calculate(pdu);
    (crc as u8, (crc >> 8) as u8)
}

fn echo_reply(request: &[u8]) -> Vec<u8> {
    // A write reply echoes the first six request bytes, then its checksum.
    let mut reply = request[..6].to_vec();
    let (lo, hi) = crc_of(&reply);
    reply.push(lo);
    reply.push(hi);
    reply
}

#[test]
fn addresses_convert_from_plain_integers() {
    assert_eq!(ServerAddress::from(0x11u8), ServerAddress(0x11));
    assert_eq!(Address::from(0x00ACu16), Address(0x00AC));
    let server: ServerAddress = 0x22u8.into();
    assert_eq!(server.0, 0x22);
    let address: Address = 0x1234u16.into();
    assert_eq!(address.0, 0x1234);
}

#[test]
fn crc16_modbus_check_value() {
    let mut buffer = RingBuffer::new(vec![0u8; 16]);
    for byte in b"123456789" {
        buffer.push_single(*byte).unwrap();
    }
    assert_eq!(add_crc(&buffer), 0x4B37);
}

#[test]
fn read_coils_request_frame_is_exact() {
    let client = ModbusClient::new(vec![0u8; 256], ServerAddress(0x11));
    let mut writer = RecordingWriter { bytes: Vec::new() };
    let mut reader = ScriptedReader {
        // header, byte count, two data bytes, checksum
        bytes: vec![0x11, 0x01, 0x02, 0x00, 0x00, 0x00, 0x00],
        pos: 0,
    };
    let result = client
        .read_coil_from(Address(0x0013))
        .with_quantity(10)
        .send(&mut writer, &mut reader);
    assert!(result.is_ok());
    let pdu = [0x11, 0x01, 0x00, 0x13, 0x00, 0x0A];
    let (lo, hi) = crc_of(&pdu);
    let mut expected = pdu.to_vec();
    expected.push(lo);
    expected.push(hi);
    assert_eq!(writer.bytes, expected);
    assert_eq!(writer.bytes.len(), 8);
}

#[test]
fn write_single_coil_on_frame_is_exact() {
    let client = ModbusClient::new(vec![0u8; 256], ServerAddress(0x11));
    let mut writer = RecordingWriter { bytes: Vec::new() };
    let pdu = [0x11, 0x05, 0x00, 0xAC, 0xFF, 0x00];
    let mut reader = ScriptedReader { bytes: echo_reply(&pdu), pos: 0 };
    let result = client
        .write_coil_from(Address(0x00AC))
        .send(&[true], &mut writer, &mut reader);
    assert!(result.is_ok());
    let (lo, hi) = crc_of(&pdu);
    let mut expected = pdu.to_vec();
    expected.push(lo);
    expected.push(hi);
    assert_eq!(writer.bytes, expected);
}

#[test]
fn write_single_coil_off_frame_is_exact() {
    let client = ModbusClient::new(vec![0u8; 256], ServerAddress(0x11));
    let mut writer = RecordingWriter { bytes: Vec::new() };
    let pdu = [0x11, 0x05, 0x00, 0xAC, 0x00, 0x00];
    let mut reader = ScriptedReader { bytes: echo_reply(&pdu), pos: 0 };
    let result = client
        .write_coil_from(Address(0x00AC))
        .send(&[false], &mut writer, &mut reader);
    assert!(result.is_ok());
    let (lo, hi) = crc_of(&pdu);
    let mut expected = pdu.to_vec();
    expected.push(lo);
    expected.push(hi);
    assert_eq!(writer.bytes, expected);
}

#[test]
fn write_multiple_coils_packs_nine_values_into_two_bytes() {
    let values = [true, false, true, true, false, false, true, true, true];
    let client = ModbusClient::new(vec![0u8; 256], ServerAddress(0x11));
    let mut writer = RecordingWriter { bytes: Vec::new() };
    let echo = [0x11, 0x0F, 0x00, 0x13, 0x00, 0x09];
    let mut reader = ScriptedReader { bytes: echo_reply(&echo), pos: 0 };
    let result = client
        .write_coil_from(Address(0x0013))
        .send(&values, &mut writer, &mut reader);
    assert!(result.is_ok());
    let pdu = [0x11, 0x0F, 0x00, 0x13, 0x00, 0x09, 0x02, 0xCD, 0x01];
    let (lo, hi) = crc_of(&pdu);
    let mut expected = pdu.to_vec();
    expected.push(lo);
    expected.push(hi);
    assert_eq!(writer.bytes, expected);
}

#[test]
fn pack_coils_matches_the_wire_examples() {
    assert_eq!(
        pack_coils(&[true, false, true, true, false, false, true, true, true]),
        vec![0xCD, 0x01]
    );
    assert_eq!(pack_coils(&[]), vec![0x00]);
    assert_eq!(pack_coils(&[true]), vec![0x01]);
    assert_eq!(pack_coils(&[false, true]), vec![0x02]);
    assert_eq!(pack_coils(&[true; 8]), vec![0xFF]);
    assert_eq!(pack_coils(&[false; 8]), vec![0x00]);
    assert_eq!(pack_coils(&[false, false, false, false, false, false, false, false, true]),
        vec![0x00, 0x01]);
}

#[test]
fn read_registers_request_frame_is_exact() {
    let client = ModbusClient::new(vec![0u8; 256], ServerAddress(0x21));
    let mut writer = RecordingWriter { bytes: Vec::new() };
    let mut reader = ScriptedReader {
        // header, byte count, four data bytes, checksum
        bytes: vec![0x21, 0x04, 0x04, 0x00, 0x0A, 0x01, 0x02, 0x00, 0x00],
        pos: 0,
    };
    let result = client
        .read_register_from(Address(0x006B))
        .with_quantity(2)
        .send(&mut writer, &mut reader);
    assert!(result.is_ok());
    let pdu = [0x21, 0x04, 0x00, 0x6B, 0x00, 0x02];
    let (lo, hi) = crc_of(&pdu);
    let mut expected = pdu.to_vec();
    expected.push(lo);
    expected.push(hi);
    assert_eq!(writer.bytes, expected);
}

#[test]
fn write_single_register_frame_is_exact() {
    let client = ModbusClient::new(vec![0u8; 256], ServerAddress(0x11));
    let mut writer = RecordingWriter { bytes: Vec::new() };
    let pdu = [0x11, 0x06, 0x00, 0x01, 0x00, 0x03];
    let mut reader = ScriptedReader { bytes: echo_reply(&pdu), pos: 0 };
    let result = client
        .write_registers_from(Address(0x0001))
        .send(&[0x0003], &mut writer, &mut reader);
    assert!(result.is_ok());
    let (lo, hi) = crc_of(&pdu);
    let mut expected = pdu.to_vec();
    expected.push(lo);
    expected.push(hi);
    assert_eq!(writer.bytes, expected);
}

#[test]
fn write_multiple_registers_frame_is_exact() {
    let client = ModbusClient::new(vec![0u8; 256], ServerAddress(0x11));
    let mut writer = RecordingWriter { bytes: Vec::new() };
    let echo = [0x11, 0x10, 0x00, 0x01, 0x00, 0x02];
    let mut reader = ScriptedReader { bytes: echo_reply(&echo), pos: 0 };
    let result = client
        .write_registers_from(Address(0x0001))
        .send(&[0x000A, 0x0102], &mut writer, &mut reader);
    assert!(result.is_ok());
    let pdu = [0x11, 0x10, 0x00, 0x01, 0x00, 0x02, 0x04, 0x00, 0x0A, 0x01, 0x02];
    let (lo, hi) = crc_of(&pdu);
    let mut expected = pdu.to_vec();
    expected.push(lo);
    expected.push(hi);
    assert_eq!(writer.bytes, expected);
}

/// Refuses every byte.
struct FailingWriter;

impl ByteWriter for FailingWriter {
    type Error = &'static str;

    fn write_byte(&mut self, _value: u8) -> Result<(), &'static str> {
        Err("line down")
    }
}

#[test]
fn write_failure_is_reported_as_uart_write_error() {
    let client = ModbusClient::new(vec![0u8; 256], ServerAddress(0x11));
    let mut writer = FailingWriter;
    let mut reader = ScriptedReader { bytes: Vec::new(), pos: 0 };
    let result = client
        .read_coil_from(Address(0x0000))
        .with_quantity(1)
        .send(&mut writer, &mut reader);
    assert!(matches!(
        result,
        Err(modbus_rtu::Error::UartWriteErr("line down"))
    ));
}
