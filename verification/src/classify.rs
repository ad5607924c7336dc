//! Classification of directory names.
//!
//! The hierarchy tells pods, quality-of-service slices and containers apart
//! by name alone, and the names overlap: a pod's own name may hold the name
//! of a quality-of-service class. The rules are therefore applied in a fixed
//! order, and that order is part of the contract.

use crate::text::{contains, has_prefix, has_substring, starts_with};
use vstd::prelude::*;
use vstd::string::*;

verus! {

/// What a child of a quality-of-service level is taken for.
#[derive(Clone, Copy, Debug, PartialEq, Eq, Structural)]
pub enum EntryKind {
    /// A pod: the walk stops descending here and looks for containers.
    PodMatch,
    /// A quality-of-service slice: the walk descends into it.
    QosMatch,
    /// Neither: the entry is passed over.
    Unrecognized,
}

/// A container's directory name is taken for one when it is longer than this
/// many bytes, whatever it begins with.
pub const CONTAINER_NAME_MIN_LEN: usize = 20;

/// The name is that of a pod directory: it begins with `pod`, or holds
/// `-pod`.
pub open spec fn is_pod_name(name: Seq<char>) -> bool {
    has_prefix(name, "pod"@) || has_substring(name, "-pod"@)
}

/// The name holds the name of one of the three quality-of-service classes.
pub open spec fn is_qos_name(name: Seq<char>) -> bool {
    has_substring(name, "burstable"@) || has_substring(name, "besteffort"@) || has_substring(
        name,
        "guaranteed"@,
    )
}

/// The kind of a child of a quality-of-service level. The pod rule is tried
/// first, the quality-of-service rule only where the pod rule fails.
pub open spec fn classify(name: Seq<char>) -> EntryKind {
    if is_pod_name(name) {
        EntryKind::PodMatch
    } else if is_qos_name(name) {
        EntryKind::QosMatch
    } else {
        EntryKind::Unrecognized
    }
}

/// The name is that of a container directory inside a pod: it is longer than
/// [`CONTAINER_NAME_MIN_LEN`] bytes, or begins with the prefix of a known
/// container runtime.
pub open spec fn is_container_name(name: Seq<char>) -> bool {
    vstd::utf8::encode_utf8(name).len() > CONTAINER_NAME_MIN_LEN || has_prefix(name, "docker-"@)
        || has_prefix(name, "crio-"@)
}

/// The name is that of a pod slice directly below the root of the unified
/// hierarchy.
pub open spec fn is_pod_slice_name(name: Seq<char>) -> bool {
    has_prefix(name, "kubepods-"@)
}

/// The kind of a child of a quality-of-service level, by its name.
pub fn classify_entry(name: &str) -> (kind: EntryKind)
    ensures
        kind == classify(name@),
{
    if starts_with(name, "pod") || contains(name, "-pod") {
        EntryKind::PodMatch
    } else if contains(name, "burstable") || contains(name, "besteffort") || contains(
        name,
        "guaranteed",
    ) {
        EntryKind::QosMatch
    } else {
        EntryKind::Unrecognized
    }
}

/// Whether a child of a pod directory is taken for a container.
pub fn is_container(name: &str) -> (b: bool)
    ensures
        b == is_container_name(name@),
{
    name.as_bytes().len() > CONTAINER_NAME_MIN_LEN || starts_with(name, "docker-") || starts_with(
        name,
        "crio-",
    )
}

/// Whether a child of the unified hierarchy's root is taken for a pod.
pub fn is_pod_slice(name: &str) -> (b: bool)
    ensures
        b == is_pod_slice_name(name@),
{
    starts_with(name, "kubepods-")
}

/// The pod rule wins: a name that satisfies it is a pod, whether or not it
/// also holds the name of a quality-of-service class.
pub proof fn lemma_pod_rule_has_priority(name: Seq<char>)
    requires
        is_pod_name(name),
    ensures
        classify(name) == EntryKind::PodMatch,
        is_qos_name(name) ==> classify(name) != EntryKind::QosMatch,
{
}

/// A name is taken for a quality-of-service slice only where it is no pod
/// name, and is passed over only where it is neither.
pub proof fn lemma_classify_cases(name: Seq<char>)
    ensures
        classify(name) == EntryKind::PodMatch <==> is_pod_name(name),
        classify(name) == EntryKind::QosMatch <==> !is_pod_name(name) && is_qos_name(name),
        classify(name) == EntryKind::Unrecognized <==> !is_pod_name(name) && !is_qos_name(name),
{
}

} // verus!
