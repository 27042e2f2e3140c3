//! A Modbus RTU master (client) protocol engine.
//!
//! The library builds request frames for the four canonical Modbus data
//! operations (read coils, read holding registers, write coils, write
//! registers), appends the CRC-16/MODBUS checksum, streams the frame over a
//! caller-supplied byte transport, and decodes the slave's reply, including
//! protocol-level exception responses.

use vstd::prelude::*;

pub mod coils;
pub mod decode;
pub mod frame;
pub mod registers;
pub mod ring_buffer;
pub mod transport;

use crate::ring_buffer::RingBuffer;

verus! {

/// The CRC-16/MODBUS checksum of a byte sequence. The algorithm is supplied
/// by an outside crate; this name stands for its result, which depends on
/// the bytes alone.
pub uninterp spec fn crc16_modbus_of(bytes: Seq<u8>) -> u16;

/// Relies on crc16::State::<MODBUS>::calculate: the CRC-16/MODBUS checksum
/// of a byte slice is a pure function of those bytes.
#[verifier::external_body]
pub(crate) fn crc16_modbus(bytes: &Vec<u8>) -> (r: u16)
    ensures
        r == crc16_modbus_of(bytes@),
{
    crc16::State::<crc16::MODBUS>::calculate(bytes.as_slice())
}

/// The CRC-16/MODBUS checksum over the bytes staged in the buffer so far.
pub fn add_crc(buffer: &RingBuffer) -> (r: u16)
    requires
        buffer.wf(),
    ensures
        r == crc16_modbus_of(buffer@),
{
    let written_buffer = buffer.get_written();
    crc16_modbus(&written_buffer)
}

/// The 8-bit identifier of the addressed slave device.
#[derive(Copy, Clone, PartialEq, Eq, Structural, Debug)]
pub struct ServerAddress(pub u8);

/// A 16-bit zero-based coil or register address on the slave.
#[derive(Copy, Clone, PartialEq, Eq, Structural, Debug)]
pub struct Address(pub u16);

/// The semantic kind of a Modbus exception response, derived from the
/// exception-code byte of the reply.
#[derive(Copy, Clone, PartialEq, Eq, Structural, Debug)]
pub enum ModbusError {
    NotSupportedFunction,
    StartAddressOrQuantityInvalid,
    AddressInvalid,
    TypeInvalid,
    Unknown,
}

/// The outcome of a failed request: a protocol exception reported by the
/// slave, or a failure of the byte transport in either direction.
#[derive(Debug)]
pub enum Error<W, R> {
    Modbus(ModbusError),
    UartReadErr(R),
    UartWriteErr(W),
}

/// The error kind that a given exception-code byte denotes.
pub open spec fn spec_error_kind(code: u8) -> ModbusError {
    if code == 1 {
        ModbusError::NotSupportedFunction
    } else if code == 2 {
        ModbusError::StartAddressOrQuantityInvalid
    } else if code == 3 {
        ModbusError::AddressInvalid
    } else if code == 4 {
        ModbusError::TypeInvalid
    } else {
        ModbusError::Unknown
    }
}

/// Maps an exception-code byte from the wire to its semantic error kind.
/// Codes 1 through 4 have dedicated kinds; every other byte is `Unknown`.
pub fn byte_to_error(code: u8) -> (r: ModbusError)
    ensures
        r == spec_error_kind(code),
{
    match code {
        1 => ModbusError::NotSupportedFunction,
        2 => ModbusError::StartAddressOrQuantityInvalid,
        3 => ModbusError::AddressInvalid,
        4 => ModbusError::TypeInvalid,
        _ => ModbusError::Unknown,
    }
}

/// The client facade: binds a slave address and the shared staging buffer,
/// and hands out one builder per operation. Each builder consumes the
/// facade, so only one request can ever be in flight.
pub struct ModbusClient {
    server_address: ServerAddress,
    buffer: RingBuffer,
}

impl ModbusClient {
    /// The facade is well formed: its staging buffer is.
    pub closed spec fn wf(&self) -> bool {
        self.buffer.wf()
    }

    /// The slave identifier every request is addressed to.
    pub closed spec fn spec_server(&self) -> u8 {
        self.server_address.0
    }

    /// The capacity of the staging buffer.
    pub closed spec fn spec_capacity(&self) -> nat {
        self.buffer.spec_capacity()
    }

    /// Binds the slave address and wraps the caller-supplied backing
    /// storage as the shared staging buffer; the storage's size becomes the
    /// largest frame the client can stage.
    pub fn new(buffer: Vec<u8>, server_address: ServerAddress) -> (r: ModbusClient)
        ensures
            r.wf(),
            r.spec_server() == server_address.0,
            r.spec_capacity() == buffer@.len(),
    {
        ModbusClient { server_address, buffer: RingBuffer::new(buffer) }
    }

    /// A builder that writes one or more registers starting at the given
    /// address.
    pub fn write_registers_from(self, start_address: Address) -> (r:
        registers::WriteRegisterModbusClient)
        requires
            self.wf(),
        ensures
            r.wf(),
            r.spec_server() == self.spec_server(),
            r.spec_address() == start_address.0,
            r.spec_capacity() == self.spec_capacity(),
    {
        registers::WriteRegisterModbusClient::new(self.server_address, start_address, self.buffer)
    }

    /// A builder that reads registers starting at the given address.
    pub fn read_register_from(self, start_address: Address) -> (r:
        registers::ReadRegisterModbusClient)
        requires
            self.wf(),
        ensures
            r.wf(),
            r.spec_server() == self.spec_server(),
            r.spec_address() == start_address.0,
            r.spec_quantity() == 0,
            r.spec_capacity() == self.spec_capacity(),
    {
        registers::ReadRegisterModbusClient::new(self.server_address, start_address, self.buffer)
    }

    /// A builder that writes one or more coils starting at the given
    /// address.
    pub fn write_coil_from(self, start_address: Address) -> (r: coils::WriteCoilModbusClient)
        requires
            self.wf(),
        ensures
            r.wf(),
            r.spec_server() == self.spec_server(),
            r.spec_address() == start_address.0,
            r.spec_capacity() == self.spec_capacity(),
    {
        coils::WriteCoilModbusClient::new(self.server_address, start_address, self.buffer)
    }

    /// A builder that reads coils starting at the given address.
    pub fn read_coil_from(self, start_address: Address) -> (r: coils::ReadCoilModbusClient)
        requires
            self.wf(),
        ensures
            r.wf(),
            r.spec_server() == self.spec_server(),
            r.spec_address() == start_address.0,
            r.spec_quantity() == 0,
            r.spec_capacity() == self.spec_capacity(),
    {
        coils::ReadCoilModbusClient::new(self.server_address, start_address, self.buffer)
    }
}

impl From<u8> for ServerAddress {
    fn from(value: u8) -> (r: ServerAddress) {
        ServerAddress(value)
    }
}

impl vstd::std_specs::convert::FromSpecImpl<u8> for ServerAddress {
    open spec fn obeys_from_spec() -> bool {
        true
    }

    open spec fn from_spec(value: u8) -> ServerAddress {
        ServerAddress(value)
    }
}

impl From<u16> for Address {
    fn from(value: u16) -> (r: Address) {
        Address(value)
    }
}

impl vstd::std_specs::convert::FromSpecImpl<u16> for Address {
    open spec fn obeys_from_spec() -> bool {
        true
    }

    open spec fn from_spec(value: u16) -> Address {
        Address(value)
    }
}

} // verus!
