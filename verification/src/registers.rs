//! The holding-register operations: building Read Holding Registers, Write
//! Single Register and Write Multiple Registers requests, sending them, and
//! decoding the reply. Register values travel big-endian.

use vstd::prelude::*;
use crate::{add_crc, Address, Error, ServerAddress};
use crate::decode::{read_response, spec_response_frame_len};
use crate::frame::{
    hi_byte, lo_byte, read_request_pdu, register_byte_count, register_data_bytes, with_crc,
    write_multiple_registers_pdu, write_single_register_pdu, FC_READ_REGISTERS,
    FC_WRITE_MULTIPLE_REGISTERS, FC_WRITE_SINGLE_REGISTER,
};
use crate::ring_buffer::RingBuffer;
use crate::transport::{transmit_frame, ByteReader, ByteWriter};

verus! {

/// Builds and sends a Read Holding Registers request: the start address
/// comes from the facade, the quantity from `with_quantity`.
pub struct ReadRegisterModbusClient {
    server_address: ServerAddress,
    start_address: Address,
    quantity: u16,
    buffer: RingBuffer,
}

/// Builds and sends a Write Single Register or Write Multiple Registers
/// request, chosen by how many values `send` is handed.
pub struct WriteRegisterModbusClient {
    server_address: ServerAddress,
    start_address: Address,
    buffer: RingBuffer,
}

impl ReadRegisterModbusClient {
    /// The builder is well formed: its staging buffer is.
    pub closed spec fn wf(&self) -> bool {
        self.buffer.wf()
    }

    /// The slave identifier the request is addressed to.
    pub closed spec fn spec_server(&self) -> u8 {
        self.server_address.0
    }

    /// The zero-based address of the first register to read.
    pub closed spec fn spec_address(&self) -> u16 {
        self.start_address.0
    }

    /// The number of registers to read.
    pub closed spec fn spec_quantity(&self) -> u16 {
        self.quantity
    }

    /// The capacity of the staging buffer.
    pub closed spec fn spec_capacity(&self) -> nat {
        self.buffer.spec_capacity()
    }

    /// A builder for the given slave and start address, with quantity zero
    /// until `with_quantity` sets it.
    pub fn new(
        server_address: ServerAddress,
        start_address: Address,
        buffer: RingBuffer,
    ) -> (r: ReadRegisterModbusClient)
        requires
            buffer.wf(),
        ensures
            r.wf(),
            r.spec_server() == server_address.0,
            r.spec_address() == start_address.0,
            r.spec_quantity() == 0,
            r.spec_capacity() == buffer.spec_capacity(),
    {
        ReadRegisterModbusClient { server_address, start_address, quantity: 0, buffer }
    }

    /// The same builder with the quantity of registers to read replaced.
    pub fn with_quantity(self, quantity: u16) -> (r: ReadRegisterModbusClient)
        ensures
            r.wf() == self.wf(),
            r.spec_server() == self.spec_server(),
            r.spec_address() == self.spec_address(),
            r.spec_quantity() == quantity,
            r.spec_capacity() == self.spec_capacity(),
    {
        ReadRegisterModbusClient {
            server_address: self.server_address,
            start_address: self.start_address,
            quantity,
            buffer: self.buffer,
        }
    }

    /// Stages the complete checksummed Read Holding Registers frame in the
    /// buffer.
    fn encode_request(&mut self)
        requires
            old(self).wf(),
            8 <= old(self).spec_capacity(),
        ensures
            final(self).wf(),
            final(self).spec_server() == old(self).spec_server(),
            final(self).spec_address() == old(self).spec_address(),
            final(self).spec_quantity() == old(self).spec_quantity(),
            final(self).spec_capacity() == old(self).spec_capacity(),
            final(self).buffer@ == with_crc(
                read_request_pdu(
                    old(self).spec_server(),
                    FC_READ_REGISTERS,
                    old(self).spec_address(),
                    old(self).spec_quantity(),
                ),
            ),
    {
        self.buffer.clear();
        let _ = self.buffer.push_single(self.server_address.0);
        let _ = self.buffer.push_single(FC_READ_REGISTERS);
        let _ = self.buffer.push_single((self.start_address.0 >> 8) as u8);
        let _ = self.buffer.push_single(self.start_address.0 as u8);
        let _ = self.buffer.push_single((self.quantity >> 8) as u8);
        let _ = self.buffer.push_single(self.quantity as u8);
        proof {
            assert(self.buffer@ =~= read_request_pdu(
                self.server_address.0,
                FC_READ_REGISTERS,
                self.start_address.0,
                self.quantity,
            ));
        }
        let crc = add_crc(&self.buffer);
        let _ = self.buffer.push_single(crc as u8);
        let _ = self.buffer.push_single((crc >> 8) as u8);
        proof {
            assert(self.buffer@ =~= with_crc(
                read_request_pdu(
                    self.server_address.0,
                    FC_READ_REGISTERS,
                    self.start_address.0,
                    self.quantity,
                ),
            ));
        }
    }

    /// Encodes the request, streams it out, and decodes the reply. A normal
    /// reply yields exactly the expected frame for the requested quantity:
    /// header, byte count, two data bytes per register and checksum.
    pub fn send<W: ByteWriter, R: ByteReader>(self, writer: &mut W, reader: &mut R) -> (r: Result<
        (usize, Vec<u8>),
        Error<W::Error, R::Error>,
    >)
        requires
            self.wf(),
            8 <= self.spec_capacity(),
            spec_response_frame_len(FC_READ_REGISTERS, self.spec_quantity())
                <= self.spec_capacity(),
        ensures
            r matches Ok(t) ==> t.0 == t.1@.len() && t.1@.len() == spec_response_frame_len(
                FC_READ_REGISTERS,
                self.spec_quantity(),
            ) && t.1@[1] != (FC_READ_REGISTERS | 0x80u8),
    {
        let quantity = self.quantity;
        let mut this = self;
        this.encode_request();
        let frame = this.buffer.get_written();
        match transmit_frame(&frame, writer) {
            Ok(_) => {
            },
            Err(e) => {
                return Err(Error::UartWriteErr(e));
            },
        }
        read_response::<W::Error, R>(FC_READ_REGISTERS, quantity, reader, &mut this.buffer)
    }
}

impl WriteRegisterModbusClient {
    /// The builder is well formed: its staging buffer is.
    pub closed spec fn wf(&self) -> bool {
        self.buffer.wf()
    }

    /// The slave identifier the request is addressed to.
    pub closed spec fn spec_server(&self) -> u8 {
        self.server_address.0
    }

    /// The zero-based address of the first register to write.
    pub closed spec fn spec_address(&self) -> u16 {
        self.start_address.0
    }

    /// The capacity of the staging buffer.
    pub closed spec fn spec_capacity(&self) -> nat {
        self.buffer.spec_capacity()
    }

    /// A builder for the given slave and start address.
    pub fn new(
        server_address: ServerAddress,
        start_address: Address,
        buffer: RingBuffer,
    ) -> (r: WriteRegisterModbusClient)
        requires
            buffer.wf(),
        ensures
            r.wf(),
            r.spec_server() == server_address.0,
            r.spec_address() == start_address.0,
            r.spec_capacity() == buffer.spec_capacity(),
    {
        WriteRegisterModbusClient { server_address, start_address, buffer }
    }

    /// Appends the Write Single Register request to the buffer, the value
    /// big-endian.
    fn create_package_single(&mut self, value: u16)
        requires
            old(self).wf(),
            old(self).buffer@.len() + 6 <= old(self).spec_capacity(),
        ensures
            final(self).wf(),
            final(self).spec_server() == old(self).spec_server(),
            final(self).spec_address() == old(self).spec_address(),
            final(self).spec_capacity() == old(self).spec_capacity(),
            final(self).buffer@ == old(self).buffer@ + write_single_register_pdu(
                old(self).spec_server(),
                old(self).spec_address(),
                value,
            ),
    {
        let _ = self.buffer.push_single(self.server_address.0);
        let _ = self.buffer.push_single(FC_WRITE_SINGLE_REGISTER);
        let _ = self.buffer.push_single((self.start_address.0 >> 8) as u8);
        let _ = self.buffer.push_single(self.start_address.0 as u8);
        let _ = self.buffer.push_single((value >> 8) as u8);
        let _ = self.buffer.push_single(value as u8);
        proof {
            assert(self.buffer@ =~= old(self).buffer@ + write_single_register_pdu(
                old(self).spec_server(),
                old(self).spec_address(),
                value,
            ));
        }
    }

    /// Appends the Write Multiple Registers request to the buffer: address,
    /// quantity, byte count, and each value big-endian in request order.
    fn create_package_multiple(&mut self, values: &[u16])
        requires
            old(self).wf(),
            1 <= values@.len() <= 125,
            old(self).buffer@.len() + 7 + 2 * values@.len() <= old(self).spec_capacity(),
        ensures
            final(self).wf(),
            final(self).spec_server() == old(self).spec_server(),
            final(self).spec_address() == old(self).spec_address(),
            final(self).spec_capacity() == old(self).spec_capacity(),
            final(self).buffer@ == old(self).buffer@ + write_multiple_registers_pdu(
                old(self).spec_server(),
                old(self).spec_address(),
                values@,
            ),
    {
        let quantity = values.len() as u16;
        let _ = self.buffer.push_single(self.server_address.0);
        let _ = self.buffer.push_single(FC_WRITE_MULTIPLE_REGISTERS);
        let _ = self.buffer.push_single((self.start_address.0 >> 8) as u8);
        let _ = self.buffer.push_single(self.start_address.0 as u8);
        let _ = self.buffer.push_single((quantity >> 8) as u8);
        let _ = self.buffer.push_single(quantity as u8);
        let _ = self.buffer.push_single(2 * (values.len() as u8));
        let ghost header = seq![
            old(self).spec_server(),
            FC_WRITE_MULTIPLE_REGISTERS,
            hi_byte(old(self).spec_address()),
            lo_byte(old(self).spec_address()),
            hi_byte(values@.len() as u16),
            lo_byte(values@.len() as u16),
            register_byte_count(values@.len() as int) as u8,
        ];
        proof {
            assert(self.buffer@ =~= old(self).buffer@ + header);
        }
        let mut i: usize = 0;
        while i < values.len()
            invariant
                self.wf(),
                self.spec_server() == old(self).spec_server(),
                self.spec_address() == old(self).spec_address(),
                self.spec_capacity() == old(self).spec_capacity(),
                i <= values@.len(),
                header == seq![
                    old(self).spec_server(),
                    FC_WRITE_MULTIPLE_REGISTERS,
                    hi_byte(old(self).spec_address()),
                    lo_byte(old(self).spec_address()),
                    hi_byte(values@.len() as u16),
                    lo_byte(values@.len() as u16),
                    register_byte_count(values@.len() as int) as u8,
                ],
                old(self).buffer@.len() + 7 + 2 * values@.len() <= old(self).spec_capacity(),
                self.buffer@ == old(self).buffer@ + header + register_data_bytes(
                    values@,
                ).subrange(0, 2 * i as int),
            decreases values@.len() - i,
        {
            proof {
                assert(self.buffer@.len() == old(self).buffer@.len() + 7 + 2 * i);
            }
            let value = values[i];
            let _ = self.buffer.push_single((value >> 8) as u8);
            let _ = self.buffer.push_single(value as u8);
            proof {
                let data = register_data_bytes(values@);
                assert(data[2 * i as int] == hi_byte(values@[i as int]));
                assert(data[2 * i as int + 1] == lo_byte(values@[i as int]));
                assert(self.buffer@ =~= old(self).buffer@ + header + data.subrange(
                    0,
                    2 * (i + 1) as int,
                ));
            }
            i = i + 1;
        }
        proof {
            let data = register_data_bytes(values@);
            assert(data.subrange(0, data.len() as int) =~= data);
            assert(self.buffer@ =~= old(self).buffer@ + write_multiple_registers_pdu(
                old(self).spec_server(),
                old(self).spec_address(),
                values@,
            ));
        }
    }

    /// Encodes the write request — Write Single Register for one value,
    /// Write Multiple Registers for several — streams it out, and decodes
    /// the reply. A normal reply is always the eight-byte echo frame.
    pub fn send<W: ByteWriter, R: ByteReader>(
        self,
        values: &[u16],
        writer: &mut W,
        reader: &mut R,
    ) -> (r: Result<(usize, Vec<u8>), Error<W::Error, R::Error>>)
        requires
            self.wf(),
            1 <= values@.len() <= 125,
            9 + 2 * values@.len() <= self.spec_capacity(),
        ensures
            r matches Ok(t) ==> t.0 == t.1@.len() && t.1@.len() == 8 && t.1@[1] != ((if
                values@.len() == 1 {
                FC_WRITE_SINGLE_REGISTER
            } else {
                FC_WRITE_MULTIPLE_REGISTERS
            }) | 0x80u8),
    {
        let mut this = self;
        this.buffer.clear();
        let id: u8 = if values.len() == 1 {
            FC_WRITE_SINGLE_REGISTER
        } else {
            FC_WRITE_MULTIPLE_REGISTERS
        };
        if values.len() == 1 {
            this.create_package_single(values[0]);
        } else {
            this.create_package_multiple(values);
        }
        let crc = add_crc(&this.buffer);
        let _ = this.buffer.push_single(crc as u8);
        let _ = this.buffer.push_single((crc >> 8) as u8);
        let frame = this.buffer.get_written();
        match transmit_frame(&frame, writer) {
            Ok(_) => {
            },
            Err(e) => {
                return Err(Error::UartWriteErr(e));
            },
        }
        read_response::<W::Error, R>(id, values.len() as u16, reader, &mut this.buffer)
    }
}

} // verus!
