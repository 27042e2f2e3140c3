//! The coil operations: building Read Coils, Write Single Coil and Write
//! Multiple Coils requests, sending them, and decoding the reply. Coil
//! values travel bit-packed, LSB-first within each byte.

use vstd::prelude::*;
use crate::{add_crc, Address, Error, ServerAddress};
use crate::decode::{read_response, spec_response_frame_len};
use crate::frame::{
    coil_byte_count, coil_bytes, hi_byte, lo_byte, packed_byte_count, packed_byte_prefix,
    packed_coil_bytes, read_request_pdu, with_crc, write_multiple_coils_pdu,
    write_single_coil_pdu, FC_READ_COILS, FC_WRITE_MULTIPLE_COILS, FC_WRITE_SINGLE_COIL,
};
use crate::ring_buffer::RingBuffer;
use crate::transport::{transmit_frame, ByteReader, ByteWriter};

verus! {

/// Builds and sends a Read Coils request: the start address comes from the
/// facade, the quantity from `with_quantity`.
pub struct ReadCoilModbusClient {
    server_address: ServerAddress,
    start_address: Address,
    quantity: u16,
    buffer: RingBuffer,
}

/// Builds and sends a Write Single Coil or Write Multiple Coils request,
/// chosen by how many values `send` is handed.
pub struct WriteCoilModbusClient {
    server_address: ServerAddress,
    start_address: Address,
    buffer: RingBuffer,
}

impl ReadCoilModbusClient {
    /// The builder is well formed: its staging buffer is.
    pub closed spec fn wf(&self) -> bool {
        self.buffer.wf()
    }

    /// The slave identifier the request is addressed to.
    pub closed spec fn spec_server(&self) -> u8 {
        self.server_address.0
    }

    /// The zero-based address of the first coil to read.
    pub closed spec fn spec_address(&self) -> u16 {
        self.start_address.0
    }

    /// The number of coils to read.
    pub closed spec fn spec_quantity(&self) -> u16 {
        self.quantity
    }

    /// The capacity of the staging buffer.
    pub closed spec fn spec_capacity(&self) -> nat {
        self.buffer.spec_capacity()
    }

    /// A builder for the given slave and start address, with quantity zero
    /// until `with_quantity` sets it.
    pub fn new(
        server_address: ServerAddress,
        start_address: Address,
        buffer: RingBuffer,
    ) -> (r: ReadCoilModbusClient)
        requires
            buffer.wf(),
        ensures
            r.wf(),
            r.spec_server() == server_address.0,
            r.spec_address() == start_address.0,
            r.spec_quantity() == 0,
            r.spec_capacity() == buffer.spec_capacity(),
    {
        ReadCoilModbusClient { server_address, start_address, quantity: 0, buffer }
    }

    /// The same builder with the quantity of coils to read replaced.
    pub fn with_quantity(self, quantity: u16) -> (r: ReadCoilModbusClient)
        ensures
            r.wf() == self.wf(),
            r.spec_server() == self.spec_server(),
            r.spec_address() == self.spec_address(),
            r.spec_quantity() == quantity,
            r.spec_capacity() == self.spec_capacity(),
    {
        ReadCoilModbusClient {
            server_address: self.server_address,
            start_address: self.start_address,
            quantity,
            buffer: self.buffer,
        }
    }

    /// Stages the complete checksummed Read Coils frame in the buffer.
    fn encode_request(&mut self)
        requires
            old(self).wf(),
            8 <= old(self).spec_capacity(),
        ensures
            final(self).wf(),
            final(self).spec_server() == old(self).spec_server(),
            final(self).spec_address() == old(self).spec_address(),
            final(self).spec_quantity() == old(self).spec_quantity(),
            final(self).spec_capacity() == old(self).spec_capacity(),
            final(self).buffer@ == with_crc(
                read_request_pdu(
                    old(self).spec_server(),
                    FC_READ_COILS,
                    old(self).spec_address(),
                    old(self).spec_quantity(),
                ),
            ),
    {
        self.buffer.clear();
        let _ = self.buffer.push_single(self.server_address.0);
        let _ = self.buffer.push_single(FC_READ_COILS);
        let _ = self.buffer.push_single((self.start_address.0 >> 8) as u8);
        let _ = self.buffer.push_single(self.start_address.0 as u8);
        let _ = self.buffer.push_single((self.quantity >> 8) as u8);
        let _ = self.buffer.push_single(self.quantity as u8);
        proof {
            assert(self.buffer@ =~= read_request_pdu(
                self.server_address.0,
                FC_READ_COILS,
                self.start_address.0,
                self.quantity,
            ));
        }
        let crc = add_crc(&self.buffer);
        let _ = self.buffer.push_single(crc as u8);
        let _ = self.buffer.push_single((crc >> 8) as u8);
        proof {
            assert(self.buffer@ =~= with_crc(
                read_request_pdu(
                    self.server_address.0,
                    FC_READ_COILS,
                    self.start_address.0,
                    self.quantity,
                ),
            ));
        }
    }

    /// Encodes the request, streams it out, and decodes the reply. A normal
    /// reply yields exactly the expected frame for the requested quantity:
    /// header, byte count, `ceil(quantity / 8)` data bytes and checksum.
    pub fn send<W: ByteWriter, R: ByteReader>(self, writer: &mut W, reader: &mut R) -> (r: Result<
        (usize, Vec<u8>),
        Error<W::Error, R::Error>,
    >)
        requires
            self.wf(),
            8 <= self.spec_capacity(),
            spec_response_frame_len(FC_READ_COILS, self.spec_quantity()) <= self.spec_capacity(),
        ensures
            r matches Ok(t) ==> t.0 == t.1@.len() && t.1@.len() == spec_response_frame_len(
                FC_READ_COILS,
                self.spec_quantity(),
            ) && t.1@[1] != (FC_READ_COILS | 0x80u8),
    {
        let quantity = self.quantity;
        let mut this = self;
        this.encode_request();
        let frame = this.buffer.get_written();
        match transmit_frame(&frame, writer) {
            Ok(_) => {
            },
            Err(e) => {
                return Err(Error::UartWriteErr(e));
            },
        }
        read_response::<W::Error, R>(FC_READ_COILS, quantity, reader, &mut this.buffer)
    }
}

impl WriteCoilModbusClient {
    /// The builder is well formed: its staging buffer is.
    pub closed spec fn wf(&self) -> bool {
        self.buffer.wf()
    }

    /// The slave identifier the request is addressed to.
    pub closed spec fn spec_server(&self) -> u8 {
        self.server_address.0
    }

    /// The zero-based address of the first coil to write.
    pub closed spec fn spec_address(&self) -> u16 {
        self.start_address.0
    }

    /// The capacity of the staging buffer.
    pub closed spec fn spec_capacity(&self) -> nat {
        self.buffer.spec_capacity()
    }

    /// A builder for the given slave and start address.
    pub fn new(
        server_address: ServerAddress,
        start_address: Address,
        buffer: RingBuffer,
    ) -> (r: WriteCoilModbusClient)
        requires
            buffer.wf(),
        ensures
            r.wf(),
            r.spec_server() == server_address.0,
            r.spec_address() == start_address.0,
            r.spec_capacity() == buffer.spec_capacity(),
    {
        WriteCoilModbusClient { server_address, start_address, buffer }
    }

    /// Appends the Write Single Coil request to the buffer: the value goes
    /// on the wire as `0xFF00` for ON and `0x0000` for OFF.
    fn create_package_single(&mut self, value: bool)
        requires
            old(self).wf(),
            old(self).buffer@.len() + 6 <= old(self).spec_capacity(),
        ensures
            final(self).wf(),
            final(self).spec_server() == old(self).spec_server(),
            final(self).spec_address() == old(self).spec_address(),
            final(self).spec_capacity() == old(self).spec_capacity(),
            final(self).buffer@ == old(self).buffer@ + write_single_coil_pdu(
                old(self).spec_server(),
                old(self).spec_address(),
                value,
            ),
    {
        let _ = self.buffer.push_single(self.server_address.0);
        let _ = self.buffer.push_single(FC_WRITE_SINGLE_COIL);
        let _ = self.buffer.push_single((self.start_address.0 >> 8) as u8);
        let _ = self.buffer.push_single(self.start_address.0 as u8);
        let value_byte: u8 = if value {
            0xFF
        } else {
            0x00
        };
        let _ = self.buffer.push_single(value_byte);
        let _ = self.buffer.push_single(0x00u8);
        proof {
            assert(self.buffer@ =~= old(self).buffer@ + write_single_coil_pdu(
                old(self).spec_server(),
                old(self).spec_address(),
                value,
            ));
        }
    }

    /// Appends the Write Multiple Coils request to the buffer: address,
    /// quantity, byte count, and the values bit-packed LSB-first.
    fn create_package_multiple(&mut self, values: &[bool])
        requires
            old(self).wf(),
            1 <= values@.len() <= 2000,
            old(self).buffer@.len() + 7 + coil_byte_count(values@.len() as int) <= old(
                self,
            ).spec_capacity(),
        ensures
            final(self).wf(),
            final(self).spec_server() == old(self).spec_server(),
            final(self).spec_address() == old(self).spec_address(),
            final(self).spec_capacity() == old(self).spec_capacity(),
            final(self).buffer@ == old(self).buffer@ + write_multiple_coils_pdu(
                old(self).spec_server(),
                old(self).spec_address(),
                values@,
            ),
    {
        let quantity = values.len() as u16;
        let _ = self.buffer.push_single(self.server_address.0);
        let _ = self.buffer.push_single(FC_WRITE_MULTIPLE_COILS);
        let _ = self.buffer.push_single((self.start_address.0 >> 8) as u8);
        let _ = self.buffer.push_single(self.start_address.0 as u8);
        let _ = self.buffer.push_single((quantity >> 8) as u8);
        let _ = self.buffer.push_single(quantity as u8);
        let count = coil_bytes(quantity);
        let _ = self.buffer.push_single(count as u8);
        let ghost header = seq![
            old(self).spec_server(),
            FC_WRITE_MULTIPLE_COILS,
            hi_byte(old(self).spec_address()),
            lo_byte(old(self).spec_address()),
            hi_byte(values@.len() as u16),
            lo_byte(values@.len() as u16),
            coil_byte_count(values@.len() as int) as u8,
        ];
        proof {
            assert(self.buffer@ =~= old(self).buffer@ + header);
        }
        let packed = pack_coils(values);
        let mut i: usize = 0;
        while i < packed.len()
            invariant
                self.wf(),
                self.spec_server() == old(self).spec_server(),
                self.spec_address() == old(self).spec_address(),
                self.spec_capacity() == old(self).spec_capacity(),
                i <= packed@.len(),
                header == seq![
                    old(self).spec_server(),
                    FC_WRITE_MULTIPLE_COILS,
                    hi_byte(old(self).spec_address()),
                    lo_byte(old(self).spec_address()),
                    hi_byte(values@.len() as u16),
                    lo_byte(values@.len() as u16),
                    coil_byte_count(values@.len() as int) as u8,
                ],
                packed@ == packed_coil_bytes(values@),
                packed@.len() == coil_byte_count(values@.len() as int),
                old(self).buffer@.len() + 7 + packed@.len() <= old(self).spec_capacity(),
                self.buffer@ == old(self).buffer@ + header + packed@.subrange(0, i as int),
            decreases packed@.len() - i,
        {
            proof {
                assert(self.buffer@.len() == old(self).buffer@.len() + 7 + i);
            }
            let _ = self.buffer.push_single(packed[i]);
            proof {
                assert(self.buffer@ =~= old(self).buffer@ + header + packed@.subrange(
                    0,
                    i as int + 1,
                ));
            }
            i = i + 1;
        }
        proof {
            assert(packed@.subrange(0, packed@.len() as int) =~= packed@);
            assert(self.buffer@ =~= old(self).buffer@ + write_multiple_coils_pdu(
                old(self).spec_server(),
                old(self).spec_address(),
                values@,
            ));
        }
    }

    /// Encodes the write request — Write Single Coil for one value, Write
    /// Multiple Coils for several — streams it out, and decodes the reply.
    /// A normal reply is always the eight-byte echo frame.
    pub fn send<W: ByteWriter, R: ByteReader>(
        self,
        values: &[bool],
        writer: &mut W,
        reader: &mut R,
    ) -> (r: Result<(usize, Vec<u8>), Error<W::Error, R::Error>>)
        requires
            self.wf(),
            1 <= values@.len() <= 2000,
            9 + coil_byte_count(values@.len() as int) <= self.spec_capacity(),
        ensures
            r matches Ok(t) ==> t.0 == t.1@.len() && t.1@.len() == 8 && t.1@[1] != ((if
                values@.len() == 1 {
                FC_WRITE_SINGLE_COIL
            } else {
                FC_WRITE_MULTIPLE_COILS
            }) | 0x80u8),
    {
        let mut this = self;
        this.buffer.clear();
        let id: u8 = if values.len() == 1 {
            FC_WRITE_SINGLE_COIL
        } else {
            FC_WRITE_MULTIPLE_COILS
        };
        if values.len() == 1 {
            this.create_package_single(values[0]);
        } else {
            this.create_package_multiple(values);
        }
        let crc = add_crc(&this.buffer);
        let _ = this.buffer.push_single(crc as u8);
        let _ = this.buffer.push_single((crc >> 8) as u8);
        let frame = this.buffer.get_written();
        match transmit_frame(&frame, writer) {
            Ok(_) => {
            },
            Err(e) => {
                return Err(Error::UartWriteErr(e));
            },
        }
        read_response::<W::Error, R>(id, values.len() as u16, reader, &mut this.buffer)
    }
}

/// Packs coil values LSB-first into `ceil(len / 8)` bytes, zero-padding the
/// final byte; an empty input still yields one zero byte.
pub fn pack_coils(values: &[bool]) -> (r: Vec<u8>)
    requires
        values@.len() <= 65535,
    ensures
        r@ == packed_coil_bytes(values@),
{
    let len = values.len();
    let nbytes: usize = if len == 0 {
        1
    } else if len % 8 == 0 {
        len / 8
    } else {
        len / 8 + 1
    };
    let mut out: Vec<u8> = Vec::new();
    let mut b: usize = 0;
    while b < nbytes
        invariant
            values@.len() <= 65535,
            nbytes == packed_byte_count(values@.len() as int),
            nbytes <= 8192,
            b <= nbytes,
            out@.len() == b,
            forall|k: int| 0 <= k < b ==> out@[k] == packed_byte_prefix(values@, 8 * k, 8),
        decreases nbytes - b,
    {
        let mut constructed_byte: u8 = 0;
        let mut j: u8 = 0;
        while j < 8
            invariant
                values@.len() <= 65535,
                b < 8192,
                j <= 8,
                constructed_byte == packed_byte_prefix(values@, 8 * b as int, j as nat),
            decreases 8 - j,
        {
            let index = 8 * b + j as usize;
            if index < values.len() && values[index] {
                constructed_byte = constructed_byte | (1u8 << j);
            }
            proof {
                assert(constructed_byte == packed_byte_prefix(values@, 8 * b as int, (j + 1) as nat));
            }
            j = j + 1;
        }
        out.push(constructed_byte);
        b = b + 1;
    }
    proof {
        assert(out@ =~= packed_coil_bytes(values@));
    }
    out
}

} // verus!
