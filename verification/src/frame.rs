//! The Modbus RTU wire format: frame layouts for the request encoders,
//! byte-count formulas, and the LSB-first bit-packing of coil values.

use vstd::prelude::*;
use vstd::arithmetic::div_mod::{lemma_fundamental_div_mod, lemma_fundamental_div_mod_converse};

verus! {

/// Function code: read coils.
pub const FC_READ_COILS: u8 = 0x01;

/// Function code: read holding registers.
pub const FC_READ_REGISTERS: u8 = 0x04;

/// Function code: write a single coil.
pub const FC_WRITE_SINGLE_COIL: u8 = 0x05;

/// Function code: write a single holding register.
pub const FC_WRITE_SINGLE_REGISTER: u8 = 0x06;

/// Function code: write multiple coils.
pub const FC_WRITE_MULTIPLE_COILS: u8 = 0x0F;

/// Function code: write multiple holding registers.
pub const FC_WRITE_MULTIPLE_REGISTERS: u8 = 0x10;

/// The high byte of a 16-bit value as transmitted big-endian.
pub open spec fn hi_byte(value: u16) -> u8 {
    (value >> 8) as u8
}

/// The low byte of a 16-bit value as transmitted big-endian.
pub open spec fn lo_byte(value: u16) -> u8 {
    value as u8
}

/// How many bytes it takes to carry `quantity` coil bits: `quantity / 8`,
/// rounded up whenever the quantity is not a whole number of octets.
pub open spec fn coil_byte_count(quantity: int) -> int {
    if quantity % 8 == 0 {
        quantity / 8
    } else {
        quantity / 8 + 1
    }
}

/// How many bytes it takes to carry `quantity` 16-bit registers.
pub open spec fn register_byte_count(quantity: int) -> int {
    2 * quantity
}

/// The coil byte count equals the ceiling of `quantity / 8`, and the
/// register byte count is exactly twice the quantity, over the full
/// protocol ranges of both request kinds.
pub proof fn lemma_byte_counts(quantity: int)
    requires
        1 <= quantity <= 2000,
    ensures
        quantity <= 125 ==> register_byte_count(quantity) == 2 * quantity,
        coil_byte_count(quantity) == (quantity + 7) / 8,
{
    let k = quantity / 8;
    let r = quantity % 8;
    lemma_fundamental_div_mod(quantity, 8);
    if r == 0 {
        lemma_fundamental_div_mod_converse(quantity + 7, 8, k, 7);
    } else {
        lemma_fundamental_div_mod_converse(quantity + 7, 8, k + 1, r - 1);
    }
}

/// The number of bytes that carry `quantity` coil bits, as the encoders and
/// the response decoder compute it.
pub fn coil_bytes(quantity: u16) -> (r: usize)
    ensures
        r == coil_byte_count(quantity as int),
{
    if quantity % 8 == 0 {
        (quantity / 8) as usize
    } else {
        (quantity / 8) as usize + 1
    }
}

/// The unchecksummed request for the two read operations:
/// `[server, function, addrHi, addrLo, qtyHi, qtyLo]`.
pub open spec fn read_request_pdu(server: u8, function: u8, address: u16, quantity: u16) -> Seq<
    u8,
> {
    seq![server, function, hi_byte(address), lo_byte(address), hi_byte(quantity), lo_byte(quantity)]
}

/// The unchecksummed write-single-coil request: the value on the wire is
/// `0xFF00` for ON and `0x0000` for OFF.
pub open spec fn write_single_coil_pdu(server: u8, address: u16, value: bool) -> Seq<u8> {
    seq![
        server,
        FC_WRITE_SINGLE_COIL,
        hi_byte(address),
        lo_byte(address),
        (if value {
            0xFFu8
        } else {
            0x00u8
        }),
        0x00u8,
    ]
}

/// The unchecksummed write-single-register request, value big-endian.
pub open spec fn write_single_register_pdu(server: u8, address: u16, value: u16) -> Seq<u8> {
    seq![
        server,
        FC_WRITE_SINGLE_REGISTER,
        hi_byte(address),
        lo_byte(address),
        hi_byte(value),
        lo_byte(value),
    ]
}

/// The byte that holds bits `[base, base + k)` of the coil values, packed
/// LSB-first: bit `j` of the result is set exactly when coil `base + j` is
/// present and true, for `j < k`.
pub open spec fn packed_byte_prefix(values: Seq<bool>, base: int, k: nat) -> u8
    decreases k,
{
    if k == 0 {
        0u8
    } else {
        let prev = packed_byte_prefix(values, base, (k - 1) as nat);
        let idx = base + k - 1;
        if 0 <= idx < values.len() && values[idx] {
            prev | (1u8 << (((((k - 1) as int) % 8)) as u8))
        } else {
            prev
        }
    }
}

/// How many packed bytes the coil values occupy: `ceil(len / 8)`, but at
/// least one byte even for an empty input.
pub open spec fn packed_byte_count(quantity: int) -> int {
    if quantity == 0 {
        1
    } else {
        coil_byte_count(quantity)
    }
}

/// The coil values bit-packed LSB-first, the final byte zero-padded.
pub open spec fn packed_coil_bytes(values: Seq<bool>) -> Seq<u8> {
    Seq::new(
        packed_byte_count(values.len() as int) as nat,
        |b: int| packed_byte_prefix(values, 8 * b, 8),
    )
}

/// The unchecksummed write-multiple-coils request:
/// `[server, function, addrHi, addrLo, qtyHi, qtyLo, byteCount, packedBits]`.
pub open spec fn write_multiple_coils_pdu(server: u8, address: u16, values: Seq<bool>) -> Seq<
    u8,
> {
    seq![
        server,
        FC_WRITE_MULTIPLE_COILS,
        hi_byte(address),
        lo_byte(address),
        hi_byte(values.len() as u16),
        lo_byte(values.len() as u16),
        coil_byte_count(values.len() as int) as u8,
    ] + packed_coil_bytes(values)
}

/// The register values as wire bytes, each big-endian in request order.
pub open spec fn register_data_bytes(values: Seq<u16>) -> Seq<u8> {
    Seq::new(
        2 * values.len(),
        |i: int|
            if i % 2 == 0 {
                hi_byte(values[i / 2])
            } else {
                lo_byte(values[i / 2])
            },
    )
}

/// The unchecksummed write-multiple-registers request:
/// `[server, function, addrHi, addrLo, qtyHi, qtyLo, byteCount, data]`.
pub open spec fn write_multiple_registers_pdu(server: u8, address: u16, values: Seq<u16>) -> Seq<
    u8,
> {
    seq![
        server,
        FC_WRITE_MULTIPLE_REGISTERS,
        hi_byte(address),
        lo_byte(address),
        hi_byte(values.len() as u16),
        lo_byte(values.len() as u16),
        register_byte_count(values.len() as int) as u8,
    ] + register_data_bytes(values)
}

/// A complete frame: the unchecksummed request followed by its
/// CRC-16/MODBUS checksum, low byte first.
pub open spec fn with_crc(pdu: Seq<u8>) -> Seq<u8> {
    pdu.push(lo_byte(crate::crc16_modbus_of(pdu))).push(hi_byte(crate::crc16_modbus_of(pdu)))
}

} // verus!
