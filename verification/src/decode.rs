//! The response decoder: a state machine that consumes the slave's reply
//! byte by byte, detects the exception flag in the echoed function code,
//! derives the expected frame length from the request being answered, and
//! captures the reply into the shared buffer.

use vstd::prelude::*;
use crate::{byte_to_error, spec_error_kind, Error, ModbusError};
use crate::frame::{
    coil_byte_count, coil_bytes, FC_READ_COILS, FC_READ_REGISTERS, FC_WRITE_MULTIPLE_COILS,
    FC_WRITE_MULTIPLE_REGISTERS, FC_WRITE_SINGLE_COIL, FC_WRITE_SINGLE_REGISTER,
};
use crate::ring_buffer::RingBuffer;
use crate::transport::ByteReader;

verus! {

/// Whether `function` is one of the six request function codes this engine
/// can emit.
pub open spec fn valid_request_fc(function: u8) -> bool {
    ||| function == FC_READ_COILS
    ||| function == FC_READ_REGISTERS
    ||| function == FC_WRITE_SINGLE_COIL
    ||| function == FC_WRITE_SINGLE_REGISTER
    ||| function == FC_WRITE_MULTIPLE_COILS
    ||| function == FC_WRITE_MULTIPLE_REGISTERS
}

/// How many bytes of a normal reply follow the two header bytes (server
/// address and function code): for the write operations four echoed payload
/// bytes, for the read operations a byte-count prefix and the data bytes
/// computed from the request quantity, plus two checksum bytes either way.
pub open spec fn spec_tail_len(function: u8, quantity: u16) -> int {
    if function == FC_WRITE_SINGLE_COIL || function == FC_WRITE_SINGLE_REGISTER || function
        == FC_WRITE_MULTIPLE_COILS || function == FC_WRITE_MULTIPLE_REGISTERS {
        6
    } else if function == FC_READ_REGISTERS {
        3 + 2 * quantity
    } else if function == FC_READ_COILS {
        3 + coil_byte_count(quantity as int)
    } else {
        0
    }
}

/// The total length of a normal reply frame: two header bytes plus the tail.
pub open spec fn spec_response_frame_len(function: u8, quantity: u16) -> int {
    2 + spec_tail_len(function, quantity)
}

/// How many bytes of a normal reply follow the two header bytes.
pub fn tail_len(function: u8, quantity: u16) -> (r: usize)
    ensures
        r == spec_tail_len(function, quantity),
{
    if function == FC_WRITE_SINGLE_COIL || function == FC_WRITE_SINGLE_REGISTER || function
        == FC_WRITE_MULTIPLE_COILS || function == FC_WRITE_MULTIPLE_REGISTERS {
        6
    } else if function == FC_READ_REGISTERS {
        3 + 2 * (quantity as usize)
    } else if function == FC_READ_COILS {
        3 + coil_bytes(quantity)
    } else {
        0
    }
}

/// Where the decoder stands in the reply frame.
#[derive(Copy, Clone, PartialEq, Eq, Structural, Debug)]
pub enum DecodeState {
    /// Waiting for the echoed server address.
    AwaitServerAddressEcho,
    /// Waiting for the echoed function code, which carries the exception
    /// flag in its high bit.
    AwaitFunctionCode,
    /// The exception flag was set: waiting for the one exception-code byte.
    AwaitExceptionCode,
    /// A normal reply: this many bytes are still owed, checksum included.
    AwaitPayload { remaining: usize },
}

/// What one consumed byte does to the decoder.
#[derive(Copy, Clone, PartialEq, Eq, Structural, Debug)]
pub enum DecodeStep {
    /// The frame continues; keep reading.
    Continue(DecodeState),
    /// The slave reported a protocol exception of this kind.
    Failed(ModbusError),
    /// The frame is complete.
    Complete,
}

/// The decoder's transition on one byte, given the request's function code
/// and quantity. An echoed function code with the exception flag set routes
/// to the exception state, whose next byte settles the error kind; any
/// other echo commits to a payload of the expected length.
pub open spec fn spec_decode_step(
    request_fc: u8,
    quantity: u16,
    state: DecodeState,
    byte: u8,
) -> DecodeStep {
    match state {
        DecodeState::AwaitServerAddressEcho => DecodeStep::Continue(
            DecodeState::AwaitFunctionCode,
        ),
        DecodeState::AwaitFunctionCode => {
            if byte == request_fc | 0x80u8 {
                DecodeStep::Continue(DecodeState::AwaitExceptionCode)
            } else if spec_tail_len(request_fc, quantity) == 0 {
                DecodeStep::Complete
            } else {
                DecodeStep::Continue(
                    DecodeState::AwaitPayload {
                        remaining: spec_tail_len(request_fc, quantity) as usize,
                    },
                )
            }
        },
        DecodeState::AwaitExceptionCode => DecodeStep::Failed(spec_error_kind(byte)),
        DecodeState::AwaitPayload { remaining } => {
            if remaining <= 1 {
                DecodeStep::Complete
            } else {
                DecodeStep::Continue(DecodeState::AwaitPayload { remaining: (remaining - 1) as usize },
                )
            }
        },
    }
}

/// One decoder transition, as `spec_decode_step` states it.
pub fn decode_step(request_fc: u8, quantity: u16, state: DecodeState, byte: u8) -> (r: DecodeStep)
    ensures
        r == spec_decode_step(request_fc, quantity, state, byte),
{
    match state {
        DecodeState::AwaitServerAddressEcho => DecodeStep::Continue(
            DecodeState::AwaitFunctionCode,
        ),
        DecodeState::AwaitFunctionCode => {
            if byte == request_fc | 0x80u8 {
                DecodeStep::Continue(DecodeState::AwaitExceptionCode)
            } else {
                let tail = tail_len(request_fc, quantity);
                if tail == 0 {
                    DecodeStep::Complete
                } else {
                    DecodeStep::Continue(DecodeState::AwaitPayload { remaining: tail })
                }
            }
        },
        DecodeState::AwaitExceptionCode => DecodeStep::Failed(byte_to_error(byte)),
        DecodeState::AwaitPayload { remaining } => {
            if remaining <= 1 {
                DecodeStep::Complete
            } else {
                DecodeStep::Continue(DecodeState::AwaitPayload { remaining: remaining - 1 })
            }
        },
    }
}

/// An upper bound on how many more bytes the decoder consumes from the
/// given state; each consumed byte strictly lowers it.
pub open spec fn spec_state_measure(state: DecodeState, tail: int) -> int {
    match state {
        DecodeState::AwaitServerAddressEcho => 2 + tail,
        DecodeState::AwaitFunctionCode => 1 + tail,
        DecodeState::AwaitExceptionCode => 1,
        DecodeState::AwaitPayload { remaining } => remaining as int,
    }
}

/// A reply whose echoed function code carries the exception flag terminates
/// as a protocol exception after exactly one further byte, the exception
/// code, whatever payload length a normal reply to the request would have
/// had.
pub proof fn lemma_exception_reply_short_circuits(
    request_fc: u8,
    quantity: u16,
    address_byte: u8,
    flagged: u8,
    code: u8,
)
    requires
        flagged == request_fc | 0x80u8,
    ensures
        spec_decode_step(request_fc, quantity, DecodeState::AwaitServerAddressEcho, address_byte)
            == DecodeStep::Continue(DecodeState::AwaitFunctionCode),
        spec_decode_step(request_fc, quantity, DecodeState::AwaitFunctionCode, flagged)
            == DecodeStep::Continue(DecodeState::AwaitExceptionCode),
        spec_decode_step(request_fc, quantity, DecodeState::AwaitExceptionCode, code)
            == DecodeStep::Failed(spec_error_kind(code)),
{
}

/// Reads one reply from the transport into the cleared buffer, driving the
/// decoder one byte at a time. A normal reply of the expected length comes
/// back as its captured bytes; an exception reply comes back as the mapped
/// protocol error; the first transport failure aborts the call.
pub fn read_response<W, R: ByteReader>(
    id: u8,
    quantity: u16,
    reader: &mut R,
    buffer: &mut RingBuffer,
) -> (r: Result<(usize, Vec<u8>), Error<W, R::Error>>)
    requires
        old(buffer).wf(),
        valid_request_fc(id),
        spec_response_frame_len(id, quantity) <= old(buffer).spec_capacity(),
    ensures
        final(buffer).wf(),
        final(buffer).spec_capacity() == old(buffer).spec_capacity(),
        r matches Ok(t) ==> t.0 == t.1@.len() && t.1@.len() == spec_response_frame_len(
            id,
            quantity,
        ) && t.1@ == final(buffer)@ && t.1@[1] != (id | 0x80u8),
        r matches Err(e) ==> !(e is UartWriteErr),
{
    let ghost tail = spec_tail_len(id, quantity);
    proof {
        assert(1 <= tail);
    }
    buffer.clear();
    let mut state = DecodeState::AwaitServerAddressEcho;
    loop
        invariant_except_break
            tail == spec_tail_len(id, quantity),
            1 <= tail,
            2 + tail <= buffer.spec_capacity(),
            buffer.wf(),
            buffer.spec_capacity() == old(buffer).spec_capacity(),
            state is AwaitServerAddressEcho ==> buffer@.len() == 0,
            state is AwaitFunctionCode ==> buffer@.len() == 1,
            state is AwaitExceptionCode ==> buffer@.len() == 2,
            state matches DecodeState::AwaitPayload { remaining } ==> 1 <= remaining <= tail
                && buffer@.len() == 2 + tail - remaining && buffer@[1] != (id | 0x80u8),
        ensures
            buffer.wf(),
            buffer.spec_capacity() == old(buffer).spec_capacity(),
            buffer@.len() == 2 + tail,
            buffer@[1] != (id | 0x80u8),
        decreases spec_state_measure(state, tail),
    {
        let byte = match reader.read_byte() {
            Ok(value) => value,
            Err(e) => {
                return Err(Error::UartReadErr(e));
            },
        };
        let _ = buffer.push_single(byte);
        match decode_step(id, quantity, state, byte) {
            DecodeStep::Continue(next) => {
                state = next;
            },
            DecodeStep::Failed(kind) => {
                return Err(Error::Modbus(kind));
            },
            DecodeStep::Complete => {
                break;
            },
        }
    }
    let written = buffer.get_written();
    let length = written.len();
    Ok((length, written))
}

} // verus!

