//! The capacity of a pod's volume, from the figures that the file system
//! gives of it.

use crate::paths::{child_path, join_path};
use crate::stats::BYTES_PER_MB;
use vstd::prelude::*;
use vstd::string::*;

verus! {

/// The name of the directory below a volume at which a storage driver
/// mounts it.
pub const MOUNT_DIR: &'static str = "mount";

/// The capacity of a volume, in megabytes.
#[derive(Clone, Copy, Debug, PartialEq, Eq, Structural)]
pub struct VolumeUsage {
    pub total_mb: u64,
    pub used_mb: u64,
    pub free_mb: u64,
}

/// The capacity of a volume of `total_blocks` blocks of `block_size` bytes,
/// of which `free_blocks` are free to its users. What is used is what is not
/// free. A volume of less than one megabyte is of no interest and gives
/// nothing.
pub open spec fn volume_usage(block_size: u64, total_blocks: u64, free_blocks: u64) -> Option<
    VolumeUsage,
> {
    let total = total_blocks * block_size;
    let free = free_blocks * block_size;
    let used = if total >= free {
        total - free
    } else {
        0
    };
    if total >= BYTES_PER_MB {
        Some(
            VolumeUsage {
                total_mb: (total / BYTES_PER_MB as int) as u64,
                used_mb: (used / BYTES_PER_MB as int) as u64,
                free_mb: (free / BYTES_PER_MB as int) as u64,
            },
        )
    } else {
        None
    }
}

/// The directory whose capacity stands for the volume at `volume_path`: its
/// mount directory where it has one, and else the volume itself.
pub open spec fn mount_point_of(volume_path: Seq<char>, has_mount_dir: bool) -> Seq<char> {
    if has_mount_dir {
        child_path(volume_path, MOUNT_DIR@)
    } else {
        volume_path
    }
}

/// The directory whose capacity stands for the volume at `volume_path`.
pub fn mount_point(volume_path: &str, has_mount_dir: bool) -> (path: String)
    ensures
        path@ == mount_point_of(volume_path@, has_mount_dir),
{
    if has_mount_dir {
        join_path(volume_path, MOUNT_DIR)
    } else {
        String::from_str(volume_path)
    }
}

/// The capacity of a volume from the figures of the file system. The sizes
/// in bytes must fit 64 bits.
pub fn collect_volume_stats(block_size: u64, total_blocks: u64, free_blocks: u64) -> (usage:
    Option<VolumeUsage>)
    requires
        total_blocks * block_size <= u64::MAX,
        free_blocks * block_size <= u64::MAX,
    ensures
        usage == volume_usage(block_size, total_blocks, free_blocks),
{
    let total_bytes: u64 = total_blocks * block_size;
    let free_bytes: u64 = free_blocks * block_size;
    let used_bytes: u64 = if total_bytes >= free_bytes {
        total_bytes - free_bytes
    } else {
        0
    };
    let total_mb: u64 = total_bytes / BYTES_PER_MB;
    if total_mb > 0 {
        Some(
            VolumeUsage {
                total_mb,
                used_mb: used_bytes / BYTES_PER_MB,
                free_mb: free_bytes / BYTES_PER_MB,
            },
        )
    } else {
        None
    }
}

} // verus!
