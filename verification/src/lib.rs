//! A probe for the resource usage of the pods and containers of one worker
//! node, read from the kernel's cgroup file system, and for the node's own
//! counters.
//!
//! The library never touches a file. Whoever uses it does the reading and
//! hands over what was read: the answer to one question of a [`walker::Pass`]
//! at a time for the walk over the cgroup hierarchy, the text of a
//! statistics file for the host-wide counters.
//!
//! - [`walker`]: the walk over the hierarchy of either layout, as a machine
//!   that its caller drives.
//! - [`classify`]: which directory is a pod, a quality-of-service slice or a
//!   container, by its name.
//! - [`paths`]: the fixed paths, and the path in the memory tree that
//!   corresponds to a path in the CPU tree.
//! - [`stats`]: the counters of one cgroup and the sample made of them.
//! - [`system`]: the host-wide counters of processor, memory, disks and
//!   network.
//! - [`volume`]: the capacity of a pod's volume.
//! - [`clock`]: the time of a metric.
//! - [`text`]: characters, words, lines and decimal numbers.

pub mod classify;
pub mod clock;
pub mod paths;
pub mod stats;
pub mod system;
pub mod text;
pub mod volume;
pub mod walker;
