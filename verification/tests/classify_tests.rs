use vita_agent::classify::{
    classify_entry, is_container, is_pod_slice, EntryKind, CONTAINER_NAME_MIN_LEN,
};

#[test]
fn pod_name_with_qos_word_is_a_pod() {
    assert_eq!(classify_entry("pod-burstable-1234"), EntryKind::PodMatch);
    assert_eq!(classify_entry("podburstable"), EntryKind::PodMatch);
    assert_eq!(classify_entry("kubepods-burstable-pod1234.slice"), EntryKind::PodMatch);
    assert_eq!(classify_entry("guaranteed-pod"), EntryKind::PodMatch);
    assert_eq!(classify_entry("besteffort-podx"), EntryKind::PodMatch);
}

#[test]
fn pod_names() {
    assert_eq!(classify_entry("pod"), EntryKind::PodMatch);
    assert_eq!(classify_entry("pod0a1b2c3d-ffff"), EntryKind::PodMatch);
    assert_eq!(classify_entry("x-pod"), EntryKind::PodMatch);
    assert_eq!(classify_entry("-pod"), EntryKind::PodMatch);
}

#[test]
fn qos_names() {
    assert_eq!(classify_entry("burstable"), EntryKind::QosMatch);
    assert_eq!(classify_entry("besteffort"), EntryKind::QosMatch);
    assert_eq!(classify_entry("guaranteed"), EntryKind::QosMatch);
    assert_eq!(classify_entry("kubepods-burstable.slice"), EntryKind::QosMatch);
    assert_eq!(classify_entry("kubepods-besteffort.slice"), EntryKind::QosMatch);
    assert_eq!(classify_entry("xguaranteedx"), EntryKind::QosMatch);
}

#[test]
fn other_names_are_unrecognized() {
    assert_eq!(classify_entry(""), EntryKind::Unrecognized);
    assert_eq!(classify_entry("system.slice"), EntryKind::Unrecognized);
    assert_eq!(classify_entry("po"), EntryKind::Unrecognized);
    assert_eq!(classify_entry("apod"), EntryKind::Unrecognized);
    assert_eq!(classify_entry("Burstable"), EntryKind::Unrecognized);
    assert_eq!(classify_entry("burst-able"), EntryKind::Unrecognized);
}

#[test]
fn container_names_by_length() {
    assert_eq!(CONTAINER_NAME_MIN_LEN, 20);
    assert!(!is_container("12345678901234567890"));
    assert!(is_container("123456789012345678901"));
    assert!(is_container("0123456789abcdef0123456789abcdef0123456789abcdef0123456789abcdef"));
    assert!(!is_container(""));
    assert!(!is_container("tasks"));
    assert!(!is_container("cgroup.procs"));
}

#[test]
fn container_name_length_counts_bytes() {
    let name = "ééééééééééé";
    assert_eq!(name.chars().count(), 11);
    assert_eq!(name.len(), 22);
    assert!(is_container(name));
    assert!(!is_container("éééééééééé"));
}

#[test]
fn container_names_by_runtime_prefix() {
    assert!(is_container("docker-1.scope"));
    assert!(is_container("docker-"));
    assert!(is_container("crio-1"));
    assert!(is_container("crio-"));
    assert!(!is_container("docker"));
    assert!(!is_container("crio"));
    assert!(!is_container("x-docker-1"));
    assert!(!is_container("containerd-1"));
}

#[test]
fn pod_slices_of_the_unified_hierarchy() {
    assert!(is_pod_slice("kubepods-burstable-podABC.slice"));
    assert!(is_pod_slice("kubepods-burstable.slice"));
    assert!(is_pod_slice("kubepods-"));
    assert!(!is_pod_slice("kubepods"));
    assert!(!is_pod_slice("kubepods.slice"));
    assert!(!is_pod_slice("system.slice"));
    assert!(!is_pod_slice("xkubepods-pod1"));
}
