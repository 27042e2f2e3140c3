//! The byte transport that the caller supplies: a blocking single-byte
//! writer and a blocking single-byte reader, each with its own error type.
//! The engine never inspects a transport's internal state, so nothing is
//! promised of the bytes a reader yields.

use vstd::prelude::*;

verus! {

/// The write half of a half-duplex serial line: blocks until one byte has
/// been accepted or the transport fails.
pub trait ByteWriter {
    type Error;

    fn write_byte(&mut self, value: u8) -> Result<(), Self::Error>;
}

/// The read half of a half-duplex serial line: blocks until one byte is
/// available or the transport fails.
pub trait ByteReader {
    type Error;

    fn read_byte(&mut self) -> Result<u8, Self::Error>;
}

/// Streams a staged frame over the write half one byte at a time, in order,
/// stopping at the transport's first refusal.
pub fn transmit_frame<W: ByteWriter>(frame: &Vec<u8>, writer: &mut W) -> (r: Result<
    (),
    W::Error,
>) {
    let mut i: usize = 0;
    while i < frame.len()
        decreases frame@.len() - i,
    {
        match writer.write_byte(frame[i]) {
            Ok(_) => {
            },
            Err(e) => {
                return Err(e);
            },
        }
        i = i + 1;
    }
    Ok(())
}

} // verus!
