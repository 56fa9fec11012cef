//! Reading a sensor over a stream transport: a serial line delivering one
//! byte per read, with no framing of its own.

use vstd::prelude::*;

use crate::read::MAGIC_BYTE_0;
use crate::read::MAGIC_BYTE_1;
use crate::read::PAYLOAD_LEN;
use crate::read::decoded;
use crate::read::parse_data;
use crate::read::valid_frame;
use crate::sync::SyncStatus;
use crate::sync::Synchronizer;
use crate::Reading;
use crate::SensorError;

verus! {

/// Capability contract over a stream transport: one blocking byte per call,
/// no look-ahead and no pushback. The transport implements this; the core
/// only consumes it.
pub trait ByteSource<E> {
    /// Reads the next byte from the stream, blocking until one arrives
    fn read_one_byte(&mut self) -> Result<u8, E>;
}

/// Reads one measurement from a stream transport.
///
/// Synchronizes on the magic marker with bounded retries, fills the rest of
/// the 32-byte frame, and decodes it. A successful result always comes from
/// a frame that opened with the magic marker and carried a valid checksum;
/// any transport failure aborts at once and is wrapped opaquely.
pub fn read_sensor<E, B: ByteSource<E>>(source: &mut B) -> (r: Result<
    Reading,
    SensorError<E>,
>)
    ensures
        r matches Ok(reading) ==> exists|frame: Seq<u8>|
            valid_frame(frame) && reading == decoded(frame),
{
    let mut sync = Synchronizer::new();
    loop
        invariant_except_break
            sync.wf(),
        ensures
            true,
        decreases sync.fuel(),
    {
        let byte = match source.read_one_byte() {
            Ok(b) => b,
            Err(e) => {
                return Err(SensorError::TransportError(e));
            },
        };
        match sync.push(byte) {
            SyncStatus::NeedByte => {},
            SyncStatus::Synced => {
                break;
            },
            SyncStatus::Failed => {
                return Err(SensorError::BadMagic);
            },
        }
    }
    let mut buf: [u8; PAYLOAD_LEN] = [0u8; PAYLOAD_LEN];
    buf[0] = MAGIC_BYTE_0;
    buf[1] = MAGIC_BYTE_1;
    let mut i: usize = 2;
    while i < PAYLOAD_LEN
        invariant
            2 <= i <= PAYLOAD_LEN,
            buf@[0] == MAGIC_BYTE_0,
            buf@[1] == MAGIC_BYTE_1,
        decreases PAYLOAD_LEN - i,
    {
        let byte = match source.read_one_byte() {
            Ok(b) => b,
            Err(e) => {
                return Err(SensorError::TransportError(e));
            },
        };
        buf[i] = byte;
        i = i + 1;
    }
    let result = parse_data(&buf);
    proof {
        if result is Ok {
            assert(valid_frame(buf@) && result->Ok_0 == decoded(buf@));
        }
    }
    result
}

} // verus!
