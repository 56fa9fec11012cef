//! The stream-transport frame synchronizer.
//!
//! A serial byte stream has no framing of its own, so the start of a frame
//! must be found by scanning: up to [`OUTER_ATTEMPTS`] outer attempts, each
//! scanning at most [`SCAN_READS`] bytes for the first magic byte and then
//! testing the byte after it against the second magic byte. The scan is
//! expressed as a state machine fed one byte at a time, so the caller owns
//! the blocking reads and the policy itself is fully verified.

use vstd::prelude::*;

use crate::read::MAGIC_BYTE_0;
use crate::read::MAGIC_BYTE_1;

verus! {

/// Number of outer synchronization attempts one read performs
pub const OUTER_ATTEMPTS: u32 = 10;

/// Number of byte reads one inner scan for the first magic byte may use:
/// four times the 32-byte frame length
pub const SCAN_READS: u32 = 128;

/// What the synchronizer asks of its driver after each byte
#[derive(Clone, Copy, Debug, PartialEq, Eq, Structural)]
pub enum SyncStatus {
    /// Not yet aligned: feed the next byte from the stream
    NeedByte,
    /// Both magic bytes were just consumed; the frame body follows
    Synced,
    /// Every attempt is exhausted; the read fails with `BadMagic`
    Failed,
}

/// The outcome of feeding a whole byte sequence to the synchronizer,
/// counting the bytes it consumed
pub enum SyncOutcome {
    /// The bytes ran out with the machine still scanning, left in this state
    MoreNeeded(Synchronizer),
    /// Synchronization succeeded on the last of this many bytes
    SyncedAfter(int),
    /// Synchronization gave up on the last of this many bytes
    FailedAfter(int),
}

/// The synchronizer's state between two bytes
#[derive(Clone, Copy, Debug, PartialEq, Eq, Structural)]
pub struct Synchronizer {
    /// Outer attempts still available, counting the one in progress
    pub outer_left: u32,
    /// Byte reads the current inner scan may still use
    pub inner_left: u32,
    /// True between finding the first magic byte and testing the next byte
    pub seeking_second: bool,
}

impl Synchronizer {
    /// States the machine can be in while it still wants bytes
    pub open spec fn wf(self) -> bool {
        &&& 1 <= self.outer_left <= OUTER_ATTEMPTS
        &&& !self.seeking_second ==> 1 <= self.inner_left <= SCAN_READS
    }

    /// The state every synchronization starts from
    pub open spec fn spec_initial() -> Synchronizer {
        Synchronizer { outer_left: OUTER_ATTEMPTS, inner_left: SCAN_READS, seeking_second: false }
    }

    /// How one byte advances the machine
    pub open spec fn spec_push(self, byte: u8) -> (Synchronizer, SyncStatus) {
        if self.seeking_second {
            if byte == MAGIC_BYTE_1 {
                (self, SyncStatus::Synced)
            } else if self.outer_left <= 1 {
                (self, SyncStatus::Failed)
            } else {
                (
                    Synchronizer {
                        outer_left: (self.outer_left - 1) as u32,
                        inner_left: SCAN_READS,
                        seeking_second: false,
                    },
                    SyncStatus::NeedByte,
                )
            }
        } else {
            if byte == MAGIC_BYTE_0 {
                (Synchronizer { seeking_second: true, ..self }, SyncStatus::NeedByte)
            } else if self.inner_left <= 1 {
                (self, SyncStatus::Failed)
            } else {
                (
                    Synchronizer { inner_left: (self.inner_left - 1) as u32, ..self },
                    SyncStatus::NeedByte,
                )
            }
        }
    }

    /// An upper bound on how many more bytes the machine can ask for
    pub open spec fn fuel(self) -> int {
        (self.outer_left - 1) * (SCAN_READS + 1) + (
            if self.seeking_second {
                1int
            } else {
                self.inner_left + 1
            }
        )
    }

    /// What feeding a whole prefix of the stream to the machine yields
    pub open spec fn run(self, bytes: Seq<u8>) -> SyncOutcome
        decreases bytes.len(),
    {
        if bytes.len() == 0 {
            SyncOutcome::MoreNeeded(self)
        } else {
            let (next, status) = self.spec_push(bytes[0]);
            if status is Synced {
                SyncOutcome::SyncedAfter(1)
            } else if status is Failed {
                SyncOutcome::FailedAfter(1)
            } else {
                match next.run(bytes.drop_first()) {
                    SyncOutcome::MoreNeeded(last) => SyncOutcome::MoreNeeded(last),
                    SyncOutcome::SyncedAfter(n) => SyncOutcome::SyncedAfter(n + 1),
                    SyncOutcome::FailedAfter(n) => SyncOutcome::FailedAfter(n + 1),
                }
            }
        }
    }

    /// Creates a synchronizer ready to scan for a new frame
    pub fn new() -> (s: Synchronizer)
        ensures
            s == Synchronizer::spec_initial(),
    {
        Synchronizer { outer_left: OUTER_ATTEMPTS, inner_left: SCAN_READS, seeking_second: false }
    }

    /// Feeds one byte from the stream into the synchronizer.
    ///
    /// The result tells the driver whether to keep reading, to start reading
    /// the frame body, or to give up. Each fed byte strictly burns fuel, so a
    /// driver looping on `NeedByte` terminates.
    pub fn push(&mut self, byte: u8) -> (status: SyncStatus)
        requires
            old(self).wf(),
        ensures
            (*final(self), status) == old(self).spec_push(byte),
            status is NeedByte ==> final(self).wf(),
            status is NeedByte ==> final(self).fuel() < old(self).fuel(),
    {
        if self.seeking_second {
            if byte == MAGIC_BYTE_1 {
                SyncStatus::Synced
            } else if self.outer_left <= 1 {
                SyncStatus::Failed
            } else {
                self.outer_left = self.outer_left - 1;
                self.inner_left = SCAN_READS;
                self.seeking_second = false;
                SyncStatus::NeedByte
            }
        } else {
            if byte == MAGIC_BYTE_0 {
                self.seeking_second = true;
                SyncStatus::NeedByte
            } else if self.inner_left <= 1 {
                SyncStatus::Failed
            } else {
                self.inner_left = self.inner_left - 1;
                SyncStatus::NeedByte
            }
        }
    }
}

/// From any scanning state with more than `k` inner reads left, `k` bytes of
/// junk — none of them the first magic byte — followed by the two marker
/// bytes synchronize exactly on the marker, consuming `k + 2` bytes.
proof fn lemma_scan_reaches_marker(s: Synchronizer, bytes: Seq<u8>, k: int)
    requires
        s.wf(),
        !s.seeking_second,
        0 <= k < s.inner_left,
        k + 2 <= bytes.len(),
        forall|i: int| 0 <= i < k ==> bytes[i] != MAGIC_BYTE_0,
        bytes[k] == MAGIC_BYTE_0,
        bytes[k + 1] == MAGIC_BYTE_1,
    ensures
        s.run(bytes) == SyncOutcome::SyncedAfter(k + 2),
    decreases k,
{
    let (next, _) = s.spec_push(bytes[0]);
    let rest = bytes.drop_first();
    if k == 0 {
        assert(next.run(rest) == SyncOutcome::SyncedAfter(1)) by {
            assert(rest[0] == bytes[1]);
        }
    } else {
        assert(bytes[0] != MAGIC_BYTE_0);
        assert(rest[k - 1] == bytes[k]);
        assert(rest[k] == bytes[k + 1]);
        assert forall|i: int| 0 <= i < k - 1 implies rest[i] != MAGIC_BYTE_0 by {
            assert(rest[i] == bytes[i + 1]);
        }
        lemma_scan_reaches_marker(next, rest, k - 1);
    }
}

/// From any scanning state, a stream whose next `inner_left` bytes never
/// show the first magic byte exhausts the scan: the machine gives up after
/// exactly those reads.
proof fn lemma_scan_exhausts(s: Synchronizer, bytes: Seq<u8>)
    requires
        s.wf(),
        !s.seeking_second,
        s.inner_left <= bytes.len(),
        forall|i: int| 0 <= i < s.inner_left ==> bytes[i] != MAGIC_BYTE_0,
    ensures
        s.run(bytes) == SyncOutcome::FailedAfter(s.inner_left as int),
    decreases s.inner_left,
{
    assert(bytes[0] != MAGIC_BYTE_0);
    if s.inner_left > 1 {
        let (next, _) = s.spec_push(bytes[0]);
        let rest = bytes.drop_first();
        assert forall|i: int| 0 <= i < next.inner_left implies rest[i] != MAGIC_BYTE_0 by {
            assert(rest[i] == bytes[i + 1]);
        }
        lemma_scan_exhausts(next, rest);
    }
}

/// Synchronization never runs beyond its fuel: fed at least `fuel` bytes,
/// the machine has resolved — synced or failed — before they run out.
proof fn lemma_sync_bounded(s: Synchronizer, bytes: Seq<u8>)
    requires
        s.wf(),
        s.fuel() <= bytes.len(),
    ensures
        !(s.run(bytes) is MoreNeeded),
    decreases bytes.len(),
{
    let (next, status) = s.spec_push(bytes[0]);
    if status is NeedByte {
        assert(next.wf() && next.fuel() < s.fuel());
        lemma_sync_bounded(next, bytes.drop_first());
    }
}

/// Stream synchronization: junk that never shows the first magic byte,
/// followed by a frame, is skipped whenever it fits the inner scan. With
/// `k < 128` junk bytes before the marker, synchronization succeeds within
/// the first outer attempt, consuming exactly the junk and the marker.
pub proof fn lemma_sync_finds_frame_after_junk(bytes: Seq<u8>, k: int)
    requires
        0 <= k < SCAN_READS,
        k + 2 <= bytes.len(),
        forall|i: int| 0 <= i < k ==> bytes[i] != MAGIC_BYTE_0,
        bytes[k] == MAGIC_BYTE_0,
        bytes[k + 1] == MAGIC_BYTE_1,
    ensures
        Synchronizer::spec_initial().run(bytes) == SyncOutcome::SyncedAfter(k + 2),
{
    lemma_scan_reaches_marker(Synchronizer::spec_initial(), bytes, k);
}

/// Stream synchronization: a stream whose first 128 bytes never show the
/// first magic byte fails with `BadMagic` as soon as the first inner scan is
/// exhausted, whatever follows — so junk of 128 bytes or more before the
/// frame is never skipped.
pub proof fn lemma_sync_gives_up_on_junk(bytes: Seq<u8>)
    requires
        SCAN_READS <= bytes.len(),
        forall|i: int| 0 <= i < SCAN_READS ==> bytes[i] != MAGIC_BYTE_0,
    ensures
        Synchronizer::spec_initial().run(bytes) == SyncOutcome::FailedAfter(SCAN_READS as int),
{
    lemma_scan_exhausts(Synchronizer::spec_initial(), bytes);
}

/// Stream synchronization is bounded: ten outer attempts of at most one
/// inner scan and one marker test each can consume at most 1290 bytes, so on
/// any stream the synchronizer has synced or failed by then — a permanently
/// desynchronized link fails fast instead of hanging forever.
pub proof fn lemma_sync_always_resolves(bytes: Seq<u8>)
    requires
        bytes.len() >= 1290,
    ensures
        !(Synchronizer::spec_initial().run(bytes) is MoreNeeded),
{
    assert(Synchronizer::spec_initial().fuel() == 1290);
    lemma_sync_bounded(Synchronizer::spec_initial(), bytes);
}

/// Synchronization is honest: whenever the machine reports success, the two
/// bytes it consumed last really were the magic marker pair. (Success on the
/// very first byte can only happen from a state that had already consumed
/// the first marker byte.)
pub proof fn lemma_sync_lands_on_marker(s: Synchronizer, bytes: Seq<u8>, n: int)
    requires
        s.wf(),
        s.run(bytes) == SyncOutcome::SyncedAfter(n),
    ensures
        1 <= n <= bytes.len(),
        n >= 2 ==> bytes[n - 2] == MAGIC_BYTE_0 && bytes[n - 1] == MAGIC_BYTE_1,
        n == 1 ==> s.seeking_second && bytes[0] == MAGIC_BYTE_1,
    decreases bytes.len(),
{
    let (next, status) = s.spec_push(bytes[0]);
    if status is NeedByte {
        let rest = bytes.drop_first();
        lemma_sync_lands_on_marker(next, rest, n - 1);
        if n == 2 {
            assert(rest[0] == bytes[1]);
        } else {
            assert(rest[n - 3] == bytes[n - 2]);
            assert(rest[n - 2] == bytes[n - 1]);
        }
    }
}

} // verus!
