//! Extraction of partitions and their filesystems from raw disk images.
//!
//! The crate decides and the caller acts. Every function here works on
//! plain values: it plans a copy, assembles the command line of an external
//! tool, reads what a tool printed, or says which step of an extraction
//! comes next. Opening files and running programs is left to the caller.
//!
//! * [`extraction`] drives the extraction of several partitions.
//! * [`raw_copy`] plans the copy of a partition's bytes into a file.
//! * [`fs_type`] tells filesystem types apart, as `blkid` names them.
//! * [`unpack`] gives the command that unpacks a filesystem.
//! * [`partitions`] holds the disk id and the formatting commands.

pub mod command;
pub mod disk;
pub mod error;
pub mod extraction;
pub mod fs_type;
pub mod partitions;
pub mod raw_copy;
pub mod text;
pub mod unpack;

pub use crate::command::Command;
pub use crate::disk::{Partition, PartitionTable};
pub use crate::error::DiskError;
pub use crate::extraction::{extract_image_partitions, Action, Event, Extraction};
pub use crate::fs_type::FsType;
pub use crate::partitions::{disk_id_command, get_disk_id, mkfs_ext4, mkfs_vfat};
pub use crate::raw_copy::{extract_partition, RawCopy, CHUNK_SIZE};
pub use crate::unpack::extract_filesystem;
