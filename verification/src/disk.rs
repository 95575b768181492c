//! Partitions and partition tables, as far as extraction reads them.

use vstd::prelude::*;

verus! {

/// A region of a disk image, in logical blocks.
#[derive(Debug, Clone, Copy, PartialEq, Eq)]
pub struct Partition {
    /// Number of the partition within its table, counted from 1.
    pub number: u8,
    /// First block of the partition, counted from the start of the image.
    pub start: u64,
    /// Length of the partition in blocks.
    pub size: u64,
}

impl Partition {
    /// Offset of the partition's first byte from the start of the image.
    pub open spec fn start_bytes(self, block_size: u64) -> nat {
        (self.start * block_size) as nat
    }

    /// Length of the partition in bytes.
    pub open spec fn size_bytes(self, block_size: u64) -> nat {
        (self.size * block_size) as nat
    }

    /// Whether both the byte offset and the byte length of the partition
    /// can be held in 64 bits.
    pub open spec fn addressable(self, block_size: u64) -> bool {
        self.start_bytes(block_size) <= u64::MAX && self.size_bytes(block_size) <= u64::MAX
    }

    /// Tells whether the partition is `addressable` with blocks of `block_size` bytes.
    pub fn is_addressable(&self, block_size: u64) -> (ok: bool)
        ensures
            ok == self.addressable(block_size),
    {
        self.start.checked_mul(block_size).is_some() && self.size.checked_mul(block_size).is_some()
    }
}

/// The first partition of `partitions` with the given number, if there is one.
pub open spec fn lookup(partitions: Seq<Partition>, number: u8) -> Option<Partition>
    decreases partitions.len(),
{
    if partitions.len() == 0 {
        None
    } else if partitions[0].number == number {
        Some(partitions[0])
    } else {
        lookup(partitions.drop_first(), number)
    }
}

/// The partitions of a disk image, in table order, and the size of a block.
#[derive(Debug, Clone, PartialEq, Eq)]
pub struct PartitionTable {
    pub partitions: Vec<Partition>,
    /// Bytes per logical block, typically 512.
    pub block_size: u64,
}

impl PartitionTable {
    /// No two partitions of the table have the same number.
    pub open spec fn has_unique_numbers(&self) -> bool {
        forall|i: int, j: int|
            0 <= i < j < self.partitions@.len() ==> (#[trigger] self.partitions@[i]).number != (
            #[trigger] self.partitions@[j]).number
    }

    /// Every partition of the table lies within an image of `image_len` bytes.
    pub open spec fn fits_image(&self, image_len: nat) -> bool {
        forall|i: int|
            0 <= i < self.partitions@.len() ==> ((#[trigger] self.partitions@[i]).start
                + self.partitions@[i].size) * self.block_size <= image_len
    }

    /// The table describes an image of `image_len` bytes: partition numbers
    /// are unique and every partition lies within the image.
    pub open spec fn wf(&self, image_len: nat) -> bool {
        self.has_unique_numbers() && self.fits_image(image_len)
    }

    /// Looks up the partition with the given number: the first one of the
    /// table that has it, if any has.
    pub fn find(&self, number: u8) -> (found: Option<Partition>)
        ensures
            found == lookup(self.partitions@, number),
            found is Some <==> exists|i: int|
                0 <= i < self.partitions@.len() && (#[trigger] self.partitions@[i]).number
                    == number,
            found matches Some(partition) ==> partition.number == number
                && self.partitions@.contains(partition),
    {
        proof {
            lemma_lookup(self.partitions@, number);
        }
        let mut i: usize = 0;
        assert(self.partitions@.skip(0) =~= self.partitions@);
        while i < self.partitions.len()
            invariant
                i <= self.partitions@.len(),
                lookup(self.partitions@, number) == lookup(self.partitions@.skip(i as int), number),
            decreases self.partitions@.len() - i,
        {
            let partition = self.partitions[i];
            if partition.number == number {
                return Some(partition);
            }
            assert(self.partitions@.skip(i as int).drop_first() == self.partitions@.skip(i + 1));
            i = i + 1;
        }
        None
    }
}

/// `lookup` finds a partition exactly when one has the number, and then
/// returns the first such partition of the table.
pub proof fn lemma_lookup(partitions: Seq<Partition>, number: u8)
    ensures
        match lookup(partitions, number) {
            Some(p) => exists|i: int|
                0 <= i < partitions.len() && #[trigger] partitions[i] == p && p.number == number
                    && forall|j: int| 0 <= j < i ==> (#[trigger] partitions[j]).number != number,
            None => forall|j: int|
                0 <= j < partitions.len() ==> (#[trigger] partitions[j]).number != number,
        },
    decreases partitions.len(),
{
    if partitions.len() > 0 && partitions[0].number != number {
        let rest = partitions.drop_first();
        lemma_lookup(rest, number);
        match lookup(rest, number) {
            Some(p) => {
                let i = choose|i: int|
                    0 <= i < rest.len() && #[trigger] rest[i] == p && p.number == number
                        && forall|j: int| 0 <= j < i ==> (#[trigger] rest[j]).number != number;
                assert(partitions[i + 1] == p);
                assert forall|j: int| 0 <= j < i + 1 implies (#[trigger] partitions[j]).number
                    != number by {
                    if j > 0 {
                        assert(partitions[j] == rest[j - 1]);
                    }
                }
            },
            None => {
                assert forall|j: int| 0 <= j < partitions.len() implies (
                #[trigger] partitions[j]).number != number by {
                    if j > 0 {
                        assert(partitions[j] == rest[j - 1]);
                    }
                }
            },
        }
    } else if partitions.len() > 0 {
        assert(partitions[0] == partitions[0]);
    }
}

/// In a table whose numbers are unique, looking up the number of a
/// partition of the table finds that very partition.
pub proof fn lemma_unique_number_is_found(table: PartitionTable, i: int)
    requires
        table.has_unique_numbers(),
        0 <= i < table.partitions@.len(),
    ensures
        lookup(table.partitions@, table.partitions@[i].number) == Some(table.partitions@[i]),
{
    let partitions = table.partitions@;
    lemma_lookup(partitions, partitions[i].number);
    match lookup(partitions, partitions[i].number) {
        Some(p) => {
            let k = choose|k: int|
                0 <= k < partitions.len() && #[trigger] partitions[k] == p && p.number
                    == partitions[i].number && forall|j: int|
                    0 <= j < k ==> (#[trigger] partitions[j]).number != partitions[i].number;
            if k < i {
                assert(partitions[k].number != partitions[i].number);
            } else if i < k {
                assert(partitions[i].number != partitions[i].number);
            }
        },
        None => {
            assert(partitions[i].number != partitions[i].number);
        },
    }
}

} // verus!
