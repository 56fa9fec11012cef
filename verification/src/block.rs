//! Reading a sensor over a block transport: an addressable bus that returns
//! one whole 32-byte frame per read.

use vstd::prelude::*;

use crate::read::MAGIC_BYTE_0;
use crate::read::MAGIC_BYTE_1;
use crate::read::PAYLOAD_LEN;
use crate::read::checksum_ok;
use crate::read::decoded;
use crate::read::has_magic;
use crate::read::parse_data;
use crate::read::valid_frame;
use crate::Reading;
use crate::SensorError;

verus! {

/// Capability contract over a block transport: one blocking call returns a
/// full 32-byte buffer. The transport itself determines frame boundaries
/// (and holds the bus address, if any); the core performs no byte-level
/// scanning here.
pub trait BlockSource<E> {
    /// Reads one full frame-sized block, blocking until it is available
    fn read_block(&mut self) -> Result<[u8; PAYLOAD_LEN], E>;
}

/// Validates and decodes a block delivered atomically by the transport.
///
/// Synchronization degrades to a single direct comparison: if the block does
/// not open with the magic marker it is rejected at once with `BadMagic` —
/// no retry, because a misaligned block transport stays misaligned. A block
/// with the marker is then decoded exactly as a stream frame would be.
pub fn parse_block<E>(buf: &[u8; PAYLOAD_LEN]) -> (r: Result<Reading, SensorError<E>>)
    ensures
        r is Ok <==> has_magic(buf@) && checksum_ok(buf@),
        r matches Ok(reading) ==> reading == decoded(buf@),
        !has_magic(buf@) ==> (r matches Err(e) && e is BadMagic),
        has_magic(buf@) && !checksum_ok(buf@) ==> (r matches Err(e) && e is ChecksumMismatch),
{
    if buf[0] != MAGIC_BYTE_0 || buf[1] != MAGIC_BYTE_1 {
        Err(SensorError::BadMagic)
    } else {
        parse_data(buf)
    }
}

/// Reads one measurement from a block transport.
///
/// Issues one block read and decodes it; a successful result always comes
/// from a block that opened with the magic marker and carried a valid
/// checksum. A transport failure is wrapped opaquely.
pub fn read_sensor<E, B: BlockSource<E>>(source: &mut B) -> (r: Result<
    Reading,
    SensorError<E>,
>)
    ensures
        r matches Ok(reading) ==> exists|frame: Seq<u8>|
            valid_frame(frame) && reading == decoded(frame),
{
    match source.read_block() {
        Err(e) => Err(SensorError::TransportError(e)),
        Ok(buf) => {
            let result = parse_block(&buf);
            proof {
                if result is Ok {
                    assert(valid_frame(buf@) && result->Ok_0 == decoded(buf@));
                }
            }
            result
        },
    }
}

} // verus!
