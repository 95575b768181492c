//! Copying the bytes of one partition out of a disk image.
//!
//! The copy is planned here and carried out by the caller, who owns the
//! files: seek the source to `start_bytes`, then, as long as `next_read`
//! is not zero, read at most that many bytes, append what was read to the
//! destination and `record` how many bytes that was. A read that returns
//! nothing ends the copy early.

use vstd::prelude::*;

use crate::disk::{Partition, PartitionTable};

verus! {

/// Size of the buffer that a copy reads into: 4 MiB.
pub const CHUNK_SIZE: usize = 4194304;

/// How far the copy of one partition has come.
#[derive(Debug, Clone, Copy, PartialEq, Eq)]
pub struct RawCopy {
    start_bytes: u64,
    remaining: u64,
}

/// What a `RawCopy` stands for.
pub struct CopyState {
    /// Where in the source the partition begins.
    pub start_bytes: nat,
    /// How many bytes of the partition are still to be copied.
    pub remaining: nat,
}

impl CopyState {
    /// How many bytes the next read asks for; zero when the copy is complete.
    pub open spec fn next_read(self) -> nat {
        if self.remaining < CHUNK_SIZE {
            self.remaining
        } else {
            CHUNK_SIZE as nat
        }
    }

    /// The state after a read that returned `bytes_read` bytes.
    pub open spec fn after(self, bytes_read: nat) -> CopyState {
        CopyState {
            start_bytes: self.start_bytes,
            remaining: (self.remaining - bytes_read) as nat,
        }
    }
}

impl View for RawCopy {
    type V = CopyState;

    closed spec fn view(&self) -> CopyState {
        CopyState { start_bytes: self.start_bytes as nat, remaining: self.remaining as nat }
    }
}

/// Plans the copy of `partition` out of an image whose blocks are
/// `block_size` bytes long: the copy starts at the partition's first byte
/// and has all of the partition's bytes still to go.
pub fn extract_partition(partition: &Partition, block_size: u64) -> (copy: RawCopy)
    requires
        partition.addressable(block_size),
    ensures
        copy@ == (CopyState {
            start_bytes: partition.start_bytes(block_size),
            remaining: partition.size_bytes(block_size),
        }),
{
    RawCopy { start_bytes: partition.start * block_size, remaining: partition.size * block_size }
}

impl RawCopy {
    /// Offset in the source at which the copy begins.
    pub fn start_bytes(&self) -> (offset: u64)
        ensures
            offset == self@.start_bytes,
    {
        self.start_bytes
    }

    /// Number of bytes still to be copied.
    pub fn remaining(&self) -> (bytes: u64)
        ensures
            bytes == self@.remaining,
    {
        self.remaining
    }

    /// How many bytes to ask the source for next: what remains, but no more
    /// than `CHUNK_SIZE`. Zero means that the copy is complete.
    pub fn next_read(&self) -> (want: usize)
        ensures
            want == self@.next_read(),
    {
        if self.remaining < CHUNK_SIZE as u64 {
            self.remaining as usize
        } else {
            CHUNK_SIZE
        }
    }

    /// Takes note of a read that returned `bytes_read` bytes, and tells
    /// whether the copy goes on: it ends when the source had nothing more
    /// to give or when nothing remains to be copied.
    pub fn record(&mut self, bytes_read: usize) -> (more: bool)
        requires
            bytes_read <= old(self)@.next_read(),
        ensures
            final(self)@ == old(self)@.after(bytes_read as nat),
            more == (bytes_read > 0 && final(self)@.remaining > 0),
    {
        self.remaining = self.remaining - bytes_read as u64;
        bytes_read > 0 && self.remaining > 0
    }
}

/// What a read of at most `want` bytes may return when the source is
/// `source_len` bytes long and stands at `position`: no more than was asked
/// for, no more than the source has left, and nothing only at the end of
/// the source.
pub open spec fn read_allows(source_len: nat, position: nat, want: nat, got: nat) -> bool {
    &&& got <= want
    &&& got > 0 ==> position + got <= source_len
    &&& got == 0 ==> want == 0 || position >= source_len
}

/// Whether `reads`, the byte counts that successive reads returned, make up
/// one complete copy from `state` with the source at `position`: every read
/// is one the copy asked for, and the last one either copies the last byte
/// or finds the source at its end.
pub open spec fn complete_run(
    source_len: nat,
    position: nat,
    state: CopyState,
    reads: Seq<nat>,
) -> bool
    decreases reads.len(),
{
    if reads.len() == 0 {
        state.next_read() == 0
    } else {
        &&& state.next_read() > 0
        &&& read_allows(source_len, position, state.next_read(), reads[0])
        &&& if reads[0] == 0 {
            reads.len() == 1
        } else {
            complete_run(source_len, position + reads[0], state.after(reads[0]), reads.drop_first())
        }
    }
}

/// The bytes that a read delivers which returns `got` bytes with the source
/// at `position`.
pub open spec fn chunk(source: Seq<u8>, position: nat, got: nat) -> Seq<u8> {
    if got == 0 {
        Seq::empty()
    } else {
        source.subrange(position as int, (position + got) as int)
    }
}

/// The bytes that the destination holds after the reads of `reads`, each
/// appended in turn, when the source stood at `position` before the first.
pub open spec fn written(source: Seq<u8>, position: nat, reads: Seq<nat>) -> Seq<u8>
    decreases reads.len(),
{
    if reads.len() == 0 {
        Seq::empty()
    } else {
        chunk(source, position, reads[0]) + written(
            source,
            position + reads[0],
            reads.drop_first(),
        )
    }
}

/// The part of `source` that a copy of `len` bytes from `start` can reach:
/// all of the range where the source holds it, else what the source has
/// from `start` to its end.
pub open spec fn reachable(source: Seq<u8>, start: nat, len: nat) -> Seq<u8> {
    if start + len <= source.len() {
        source.subrange(start as int, (start + len) as int)
    } else if start <= source.len() {
        source.subrange(start as int, source.len() as int)
    } else {
        Seq::empty()
    }
}

/// A complete copy writes exactly the bytes of the source that lie in the
/// range still to be copied, as far as the source reaches.
pub proof fn lemma_copy_writes_range(
    source: Seq<u8>,
    position: nat,
    state: CopyState,
    reads: Seq<nat>,
)
    requires
        complete_run(source.len(), position, state, reads),
    ensures
        written(source, position, reads) == reachable(source, position, state.remaining),
    decreases reads.len(),
{
    if reads.len() == 0 {
        assert(reachable(source, position, state.remaining) =~= Seq::<u8>::empty());
    } else if reads[0] == 0 {
        assert(written(source, position, reads.drop_first()) =~= Seq::<u8>::empty());
        assert(written(source, position, reads) =~= Seq::<u8>::empty());
        assert(reachable(source, position, state.remaining) =~= Seq::<u8>::empty());
    } else {
        let next = position + reads[0];
        lemma_copy_writes_range(source, next, state.after(reads[0]), reads.drop_first());
        assert(written(source, position, reads) =~= reachable(
            source,
            position,
            state.remaining,
        ));
    }
}

/// Byte-exact extraction: where the source holds the whole partition, a
/// complete copy planned by `extract_partition` writes the partition's bytes
/// and nothing else.
pub proof fn lemma_extraction_is_exact(
    source: Seq<u8>,
    partition: Partition,
    block_size: u64,
    reads: Seq<nat>,
)
    requires
        (partition.start + partition.size) * block_size <= source.len(),
        complete_run(
            source.len(),
            partition.start_bytes(block_size),
            CopyState {
                start_bytes: partition.start_bytes(block_size),
                remaining: partition.size_bytes(block_size),
            },
            reads,
        ),
    ensures
        written(source, partition.start_bytes(block_size), reads) == source.subrange(
            partition.start * block_size,
            (partition.start + partition.size) * block_size,
        ),
{
    let state = CopyState {
        start_bytes: partition.start_bytes(block_size),
        remaining: partition.size_bytes(block_size),
    };
    lemma_copy_writes_range(source, partition.start_bytes(block_size), state, reads);
    assert((partition.start + partition.size) * block_size == partition.start * block_size
        + partition.size * block_size) by (nonlinear_arith);
    assert(partition.start * block_size >= 0 && partition.size * block_size >= 0)
        by (nonlinear_arith);
}

/// A source that ends early: where the partition begins within the source
/// but reaches beyond its end, a complete copy writes the source from the
/// partition's first byte to the source's end.
pub proof fn lemma_truncated_source_gives_tail(
    source: Seq<u8>,
    partition: Partition,
    block_size: u64,
    reads: Seq<nat>,
)
    requires
        partition.start * block_size <= source.len(),
        (partition.start + partition.size) * block_size > source.len(),
        complete_run(
            source.len(),
            partition.start_bytes(block_size),
            CopyState {
                start_bytes: partition.start_bytes(block_size),
                remaining: partition.size_bytes(block_size),
            },
            reads,
        ),
    ensures
        written(source, partition.start_bytes(block_size), reads) == source.subrange(
            partition.start * block_size,
            source.len() as int,
        ),
{
    let state = CopyState {
        start_bytes: partition.start_bytes(block_size),
        remaining: partition.size_bytes(block_size),
    };
    lemma_copy_writes_range(source, partition.start_bytes(block_size), state, reads);
    assert((partition.start + partition.size) * block_size == partition.start * block_size
        + partition.size * block_size) by (nonlinear_arith);
    assert(partition.start * block_size >= 0 && partition.size * block_size >= 0)
        by (nonlinear_arith);
}

/// Every partition of a table that describes an image no longer than 64
/// bits can count is addressable, so its copy can be planned.
pub proof fn lemma_table_partitions_addressable(table: PartitionTable, image_len: nat, i: int)
    requires
        table.fits_image(image_len),
        image_len <= u64::MAX,
        0 <= i < table.partitions@.len(),
    ensures
        table.partitions@[i].addressable(table.block_size),
{
    let p = table.partitions@[i];
    assert((p.start + p.size) * table.block_size == p.start * table.block_size + p.size
        * table.block_size) by (nonlinear_arith);
    assert(p.start * table.block_size >= 0 && p.size * table.block_size >= 0)
        by (nonlinear_arith);
}

} // verus!
