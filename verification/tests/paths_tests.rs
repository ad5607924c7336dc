use vita_agent::paths::{
    derive_memory_path, join_path, CPU_SEGMENT, MEMORY_SEGMENT, ROOT_NAME, V1_ROOT,
    V1_ROOT_FALLBACK, V2_MARKER, V2_ROOT,
};

#[test]
fn fixed_paths() {
    assert_eq!(V2_MARKER, "/sys/fs/cgroup/cgroup.controllers");
    assert_eq!(V2_ROOT, "/sys/fs/cgroup/kubepods.slice");
    assert_eq!(V1_ROOT, "/sys/fs/cgroup/cpu/kubepods");
    assert_eq!(V1_ROOT_FALLBACK, "/sys/fs/cgroup/cpu/kubepods.slice");
    assert_eq!(ROOT_NAME, "kubepods");
    assert_eq!(CPU_SEGMENT, "/cpu/");
    assert_eq!(MEMORY_SEGMENT, "/memory/");
}

#[test]
fn memory_path_of_a_cpu_path() {
    assert_eq!(
        derive_memory_path("/sys/fs/cgroup/cpu/kubepods/X"),
        "/sys/fs/cgroup/memory/kubepods/X"
    );
    assert_eq!(
        derive_memory_path("/sys/fs/cgroup/cpu/kubepods/burstable/pod12/0123456789abcdef"),
        "/sys/fs/cgroup/memory/kubepods/burstable/pod12/0123456789abcdef"
    );
    assert_eq!(
        derive_memory_path("/sys/fs/cgroup/cpu/kubepods.slice/kubepods-pod1.slice/crio-1"),
        "/sys/fs/cgroup/memory/kubepods.slice/kubepods-pod1.slice/crio-1"
    );
}

#[test]
fn only_the_first_cpu_segment_is_replaced() {
    assert_eq!(
        derive_memory_path("/sys/fs/cgroup/cpu/kubepods/cpu/X"),
        "/sys/fs/cgroup/memory/kubepods/cpu/X"
    );
    assert_eq!(derive_memory_path("/cpu//cpu/"), "/memory//cpu/");
    assert_eq!(derive_memory_path("/cpu/cpu/"), "/memory/cpu/");
}

#[test]
fn path_without_cpu_segment_is_unchanged() {
    assert_eq!(derive_memory_path(""), "");
    assert_eq!(derive_memory_path("/sys/fs/cgroup/cpu"), "/sys/fs/cgroup/cpu");
    assert_eq!(derive_memory_path("/sys/fs/cgroup/cpuacct/x"), "/sys/fs/cgroup/cpuacct/x");
    assert_eq!(derive_memory_path("cpu/x"), "cpu/x");
}

#[test]
fn memory_path_agrees_with_replacen() {
    let paths = [
        "/cpu/",
        "a/cpu/b",
        "/sys/fs/cgroup/cpu,cpuacct/kubepods",
        "/é/cpu/ü/cpu/",
        "/cpu/cpu/cpu/",
        "/cp/u/",
    ];
    for p in paths {
        assert_eq!(derive_memory_path(p), p.replacen("/cpu/", "/memory/", 1), "{:?}", p);
    }
}

#[test]
fn join_path_puts_one_separator_between() {
    assert_eq!(join_path("/sys/fs/cgroup/kubepods.slice", "cpu.stat"), "/sys/fs/cgroup/kubepods.slice/cpu.stat");
    assert_eq!(join_path("a", "b"), "a/b");
    assert_eq!(join_path("", "b"), "/b");
    assert_eq!(join_path("a", ""), "a/");
}
