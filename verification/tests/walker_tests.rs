use std::collections::HashMap;
use vita_agent::paths::{V1_ROOT, V1_ROOT_FALLBACK, V2_MARKER, V2_ROOT};
use vita_agent::stats::{ResourceSample, StatFiles};
use vita_agent::walker::{
    collect_cgroup_v1_metrics, collect_cgroup_v2_metrics, collect_container_metrics,
    listing_failure, process_v1_dir, process_v1_pod, request_for, select_version, Diagnostic,
    DirEntry, HierarchyVersion, Request, Task,
};

const CONTAINER_A: &str = "0123456789abcdef0123456789abcdef0123456789abcdef0123456789abcdef";
const CONTAINER_B: &str = "fedcba9876543210fedcba9876543210fedcba9876543210fedcba9876543210";

/// A file system made up for one test.
struct FakeFs {
    present: Vec<String>,
    dirs: HashMap<String, Result<Vec<DirEntry>, String>>,
    files: HashMap<String, String>,
}

impl FakeFs {
    fn new() -> FakeFs {
        FakeFs { present: Vec::new(), dirs: HashMap::new(), files: HashMap::new() }
    }

    fn with_path(mut self, path: &str) -> FakeFs {
        self.present.push(path.to_string());
        self
    }

    fn dir(mut self, path: &str, entries: Vec<DirEntry>) -> FakeFs {
        self.present.push(path.to_string());
        self.dirs.insert(path.to_string(), Ok(entries));
        self
    }

    fn unreadable_dir(mut self, path: &str, reason: &str) -> FakeFs {
        self.present.push(path.to_string());
        self.dirs.insert(path.to_string(), Err(reason.to_string()));
        self
    }

    fn file(mut self, path: &str, content: &str) -> FakeFs {
        self.files.insert(path.to_string(), content.to_string());
        self
    }
}

/// What one pass did.
struct Outcome {
    samples: Vec<ResourceSample>,
    reports: Vec<Diagnostic>,
    requests: Vec<Request>,
}

fn d(name: &str) -> DirEntry {
    DirEntry { name: name.to_string(), is_dir: true }
}

fn f(name: &str) -> DirEntry {
    DirEntry { name: name.to_string(), is_dir: false }
}

/// Drives one pass over `fs` until it is over.
fn run(node: &str, fs: &FakeFs) -> Outcome {
    let mut pass = collect_container_metrics(node);
    let mut out = Outcome { samples: Vec::new(), reports: Vec::new(), requests: Vec::new() };
    let mut steps = 0;
    loop {
        let request = pass.request();
        out.requests.push(request.clone());
        match request {
            Request::Done => break,
            Request::Exists { path } => pass.answer_exists(fs.present.contains(&path)),
            Request::ListDir { path } => {
                let listing = match fs.dirs.get(&path) {
                    Some(l) => l.clone(),
                    None => Err("No such file or directory".to_string()),
                };
                if let Some(report) = pass.answer_listing(listing) {
                    out.reports.push(report);
                }
            }
            Request::ReadFiles { cpu, mem_usage, mem_limit } => {
                let files = StatFiles {
                    cpu: fs.files.get(&cpu).cloned(),
                    mem_usage: fs.files.get(&mem_usage).cloned(),
                    mem_limit: fs.files.get(&mem_limit).cloned(),
                };
                let sample = pass.answer_files(&files).expect("a read gives a sample");
                out.samples.push(sample);
            }
        }
        steps += 1;
        assert!(steps < 10_000, "the pass does not end");
    }
    assert!(pass.is_done());
    out
}

fn sample(pod: &str, container: Option<&str>, cpu_ms: u64, mem_mb: u64, mem_limit_mb: u64) -> ResourceSample {
    ResourceSample {
        node_id: "node-1".to_string(),
        pod_id: pod.to_string(),
        container_id: container.map(String::from),
        cpu_ms,
        mem_mb,
        mem_limit_mb,
    }
}

fn v1_container(fs: FakeFs, cpu_dir: &str, nsec: &str, usage: &str, limit: &str) -> FakeFs {
    let mem_dir = cpu_dir.replacen("/cpu/", "/memory/", 1);
    fs.file(&format!("{}/cpuacct.usage", cpu_dir), nsec)
        .file(&format!("{}/memory.usage_in_bytes", mem_dir), usage)
        .file(&format!("{}/memory.limit_in_bytes", mem_dir), limit)
}

#[test]
fn detector_goes_by_the_marker_alone() {
    assert_eq!(select_version(true), HierarchyVersion::V2);
    assert_eq!(select_version(false), HierarchyVersion::V1);
}

#[test]
fn a_pass_begins_with_the_marker_probe() {
    let pass = collect_container_metrics("node-1");
    assert_eq!(pass.node_name(), "node-1");
    assert!(!pass.is_done());
    assert_eq!(pass.request(), Request::Exists { path: V2_MARKER.to_string() });
}

#[test]
fn marker_selects_v2_even_beside_v1_paths() {
    let pod = "kubepods-burstable-podABC.slice";
    let mut fs = FakeFs::new()
        .with_path(V2_MARKER)
        .dir(V2_ROOT, vec![d(pod)])
        .file(&format!("{}/{}/cpu.stat", V2_ROOT, pod), "usage_usec 5000\n")
        .dir(V1_ROOT, vec![d("pod1")])
        .dir(&format!("{}/pod1", V1_ROOT), vec![d(CONTAINER_A)])
        .dir(V1_ROOT_FALLBACK, vec![d("kubepods-pod2.slice")]);
    fs = v1_container(fs, &format!("{}/pod1/{}", V1_ROOT, CONTAINER_A), "9000000", "1", "1");
    let out = run("node-1", &fs);
    assert_eq!(out.samples, vec![sample(pod, None, 5, 0, 0)]);
    assert_eq!(
        out.requests,
        vec![
            Request::Exists { path: V2_MARKER.to_string() },
            Request::ListDir { path: V2_ROOT.to_string() },
            Request::ReadFiles {
                cpu: format!("{}/{}/cpu.stat", V2_ROOT, pod),
                mem_usage: format!("{}/{}/memory.current", V2_ROOT, pod),
                mem_limit: format!("{}/{}/memory.max", V2_ROOT, pod),
            },
            Request::Done,
        ]
    );
    assert!(out.reports.is_empty());
}

#[test]
fn v2_pod_directly_below_the_root_gives_one_sample() {
    let pod = "kubepods-burstable-podABC.slice";
    let fs = FakeFs::new()
        .with_path(V2_MARKER)
        .dir(V2_ROOT, vec![d(pod)])
        .file(&format!("{}/{}/cpu.stat", V2_ROOT, pod), "usage_usec 1234567\nuser_usec 1\n")
        .file(&format!("{}/{}/memory.current", V2_ROOT, pod), "73400320\n")
        .file(&format!("{}/{}/memory.max", V2_ROOT, pod), "max\n");
    let out = run("node-1", &fs);
    assert_eq!(out.samples.len(), 1);
    assert_eq!(out.samples[0].pod_id, "kubepods-burstable-podABC.slice");
    assert_eq!(out.samples[0], sample(pod, None, 1234, 70, 0));
}

#[test]
fn v2_nested_hierarchy_gives_one_sample_for_the_top_level_child() {
    let slice = "kubepods-burstable.slice";
    let pod = "kubepods-burstable-podABC.slice";
    let fs = FakeFs::new()
        .with_path(V2_MARKER)
        .dir(V2_ROOT, vec![d(slice)])
        .dir(&format!("{}/{}", V2_ROOT, slice), vec![d(pod)])
        .dir(&format!("{}/{}/{}", V2_ROOT, slice, pod), vec![d("cri-containerd-1.scope")])
        .file(&format!("{}/{}/cpu.stat", V2_ROOT, slice), "usage_usec 8000\n")
        .file(&format!("{}/{}/{}/cpu.stat", V2_ROOT, slice, pod), "usage_usec 3000\n");
    let out = run("node-1", &fs);
    assert_eq!(out.samples, vec![sample(slice, None, 8, 0, 0)]);
    assert_eq!(out.requests.len(), 4);
    assert!(!out.requests.contains(&Request::ListDir { path: format!("{}/{}", V2_ROOT, slice) }));
}

#[test]
fn v2_walk_keeps_prefixed_directories_in_listing_order() {
    let fs = FakeFs::new()
        .with_path(V2_MARKER)
        .dir(
            V2_ROOT,
            vec![
                d("kubepods-podz.slice"),
                f("cgroup.procs"),
                d("system.slice"),
                f("kubepods-file"),
                d("kubepods-poda.slice"),
                d("kubepods-besteffort.slice"),
            ],
        )
        .file(&format!("{}/kubepods-poda.slice/memory.current", V2_ROOT), "2097152");
    let out = run("node-1", &fs);
    assert_eq!(
        out.samples,
        vec![
            sample("kubepods-podz.slice", None, 0, 0, 0),
            sample("kubepods-poda.slice", None, 0, 2, 0),
            sample("kubepods-besteffort.slice", None, 0, 0, 0),
        ]
    );
}

#[test]
fn v2_root_listing_failure_gives_no_sample_and_one_report() {
    let fs = FakeFs::new().with_path(V2_MARKER).unreadable_dir(V2_ROOT, "Permission denied");
    let out = run("node-1", &fs);
    assert!(out.samples.is_empty());
    assert_eq!(
        out.reports,
        vec![Diagnostic { path: V2_ROOT.to_string(), reason: "Permission denied".to_string() }]
    );
    assert_eq!(out.requests.last(), Some(&Request::Done));
    assert_eq!(out.requests.len(), 3);
}

#[test]
fn v1_walk_through_qos_levels() {
    let burstable = format!("{}/burstable", V1_ROOT);
    let besteffort = format!("{}/besteffort", V1_ROOT);
    let mut fs = FakeFs::new()
        .dir(V1_ROOT, vec![d("burstable"), d("pod-guaranteed-1"), d("besteffort"), f("tasks"), d("other")])
        .dir(&burstable, vec![d("pod-b1"), d("pod-b2")])
        .dir(&format!("{}/pod-b1", burstable), vec![d(CONTAINER_B), d(CONTAINER_A), f("cgroup.procs")])
        .dir(&format!("{}/pod-b2", burstable), vec![d("docker-77.scope")])
        .dir(&format!("{}/pod-guaranteed-1", V1_ROOT), vec![d("crio-5"), d("short")])
        .dir(&besteffort, vec![d("pod-e1")])
        .dir(&format!("{}/pod-e1", besteffort), vec![d(CONTAINER_A)])
        .dir(&format!("{}/other", V1_ROOT), vec![d("pod-hidden")]);
    fs = v1_container(fs, &format!("{}/pod-b1/{}", burstable, CONTAINER_B), "1000000\n", "1048576\n", "2097152\n");
    fs = v1_container(fs, &format!("{}/pod-b1/{}", burstable, CONTAINER_A), "2000000\n", "2097152\n", "9223372036854775807\n");
    fs = v1_container(fs, &format!("{}/pod-b2/docker-77.scope", burstable), "3999999\n", "3145728\n", "18446744073709551615\n");
    fs = v1_container(fs, &format!("{}/pod-guaranteed-1/crio-5", V1_ROOT), "4000000\n", "4194304\n", "8388608\n");
    fs = v1_container(fs, &format!("{}/pod-e1/{}", besteffort, CONTAINER_A), "5000000\n", "5242880\n", "x\n");
    let out = run("node-1", &fs);
    assert_eq!(
        out.samples,
        vec![
            sample("pod-b1", Some(CONTAINER_B), 1, 1, 2),
            sample("pod-b1", Some(CONTAINER_A), 2, 2, 0),
            sample("pod-b2", Some("docker-77.scope"), 3, 3, 0),
            sample("pod-guaranteed-1", Some("crio-5"), 4, 4, 8),
            sample("pod-e1", Some(CONTAINER_A), 5, 5, 0),
        ]
    );
    assert!(out.reports.is_empty());
    assert!(!out.requests.contains(&Request::ListDir { path: format!("{}/other", V1_ROOT) }));
    assert!(!out.requests.contains(&Request::Exists { path: V1_ROOT_FALLBACK.to_string() }));
}

#[test]
fn v1_container_files_are_asked_for_in_both_trees() {
    let pod_dir = format!("{}/pod1", V1_ROOT);
    let fs = FakeFs::new().dir(V1_ROOT, vec![d("pod1")]).dir(&pod_dir, vec![d("docker-1")]);
    let out = run("node-1", &fs);
    assert_eq!(
        out.requests,
        vec![
            Request::Exists { path: V2_MARKER.to_string() },
            Request::Exists { path: V1_ROOT.to_string() },
            Request::ListDir { path: V1_ROOT.to_string() },
            Request::ListDir { path: pod_dir.clone() },
            Request::ReadFiles {
                cpu: "/sys/fs/cgroup/cpu/kubepods/pod1/docker-1/cpuacct.usage".to_string(),
                mem_usage: "/sys/fs/cgroup/memory/kubepods/pod1/docker-1/memory.usage_in_bytes".to_string(),
                mem_limit: "/sys/fs/cgroup/memory/kubepods/pod1/docker-1/memory.limit_in_bytes".to_string(),
            },
            Request::Done,
        ]
    );
    assert_eq!(out.samples, vec![sample("pod1", Some("docker-1"), 0, 0, 0)]);
}

#[test]
fn v1_fallback_root_is_tried_second() {
    let slice = format!("{}/kubepods-burstable.slice", V1_ROOT_FALLBACK);
    let pod = "kubepods-burstable-pod12.slice";
    let mut fs = FakeFs::new()
        .dir(V1_ROOT_FALLBACK, vec![d("kubepods-burstable.slice")])
        .dir(&slice, vec![d(pod)])
        .dir(&format!("{}/{}", slice, pod), vec![d("docker-9.scope")]);
    fs = v1_container(fs, &format!("{}/{}/docker-9.scope", slice, pod), "6000000", "6291456", "7340032");
    let out = run("node-1", &fs);
    assert_eq!(out.samples, vec![sample(pod, Some("docker-9.scope"), 6, 6, 7)]);
    assert_eq!(out.requests[1], Request::Exists { path: V1_ROOT.to_string() });
    assert_eq!(out.requests[2], Request::Exists { path: V1_ROOT_FALLBACK.to_string() });
    assert_eq!(out.requests[3], Request::ListDir { path: V1_ROOT_FALLBACK.to_string() });
}

#[test]
fn v1_first_root_wins_where_both_exist() {
    let fs = FakeFs::new().dir(V1_ROOT, vec![]).dir(V1_ROOT_FALLBACK, vec![d("pod1")]);
    let out = run("node-1", &fs);
    assert_eq!(
        out.requests,
        vec![
            Request::Exists { path: V2_MARKER.to_string() },
            Request::Exists { path: V1_ROOT.to_string() },
            Request::ListDir { path: V1_ROOT.to_string() },
            Request::Done,
        ]
    );
}

#[test]
fn no_hierarchy_at_all_gives_an_empty_pass() {
    let out = run("node-1", &FakeFs::new());
    assert!(out.samples.is_empty());
    assert!(out.reports.is_empty());
    assert_eq!(
        out.requests,
        vec![
            Request::Exists { path: V2_MARKER.to_string() },
            Request::Exists { path: V1_ROOT.to_string() },
            Request::Exists { path: V1_ROOT_FALLBACK.to_string() },
            Request::Done,
        ]
    );
}

#[test]
fn pod_without_containers_gives_no_sample_and_no_report() {
    let fs = FakeFs::new()
        .dir(V1_ROOT, vec![d("pod-empty"), d("pod-odd"), d("pod-full")])
        .dir(&format!("{}/pod-empty", V1_ROOT), vec![])
        .dir(&format!("{}/pod-odd", V1_ROOT), vec![f("cgroup.procs"), d("short"), f(CONTAINER_A), f("docker-1")])
        .dir(&format!("{}/pod-full", V1_ROOT), vec![d("crio-1")]);
    let out = run("node-1", &fs);
    assert_eq!(out.samples, vec![sample("pod-full", Some("crio-1"), 0, 0, 0)]);
    assert!(out.reports.is_empty());
}

#[test]
fn v1_root_listing_failure_gives_no_sample_and_one_report() {
    let fs = FakeFs::new().unreadable_dir(V1_ROOT, "Permission denied (os error 13)");
    let out = run("node-1", &fs);
    assert!(out.samples.is_empty());
    assert_eq!(
        out.reports,
        vec![Diagnostic { path: V1_ROOT.to_string(), reason: "Permission denied (os error 13)".to_string() }]
    );
    assert_eq!(out.requests.last(), Some(&Request::Done));
}

#[test]
fn a_directory_that_vanished_is_skipped_and_the_walk_goes_on() {
    let fs = FakeFs::new()
        .dir(V1_ROOT, vec![d("burstable"), d("pod-gone"), d("pod-here")])
        .dir(&format!("{}/pod-here", V1_ROOT), vec![d("docker-1")]);
    let out = run("node-1", &fs);
    assert_eq!(out.samples, vec![sample("pod-here", Some("docker-1"), 0, 0, 0)]);
    assert_eq!(
        out.reports,
        vec![
            Diagnostic {
                path: format!("{}/burstable", V1_ROOT),
                reason: "No such file or directory".to_string(),
            },
            Diagnostic {
                path: format!("{}/pod-gone", V1_ROOT),
                reason: "No such file or directory".to_string(),
            },
        ]
    );
}

#[test]
fn listing_failure_is_reported_only_below_a_root_name() {
    assert_eq!(
        listing_failure("/sys/fs/cgroup/cpu/kubepods/x".to_string(), "gone".to_string()),
        Some(Diagnostic { path: "/sys/fs/cgroup/cpu/kubepods/x".to_string(), reason: "gone".to_string() })
    );
    assert_eq!(listing_failure("/sys/fs/cgroup/cpu/system.slice".to_string(), "gone".to_string()), None);
    assert_eq!(listing_failure("".to_string(), "gone".to_string()), None);
}

#[test]
fn an_answer_that_was_not_asked_for_changes_nothing() {
    let mut pass = collect_container_metrics("node-1");
    let first = pass.request();
    assert_eq!(pass.answer_listing(Ok(vec![d("pod1")])), None);
    assert_eq!(pass.answer_listing(Err("x".to_string())), None);
    assert_eq!(pass.answer_files(&StatFiles { cpu: None, mem_usage: None, mem_limit: None }), None);
    assert_eq!(pass.request(), first);
    pass.answer_exists(true);
    let second = pass.request();
    assert_eq!(second, Request::ListDir { path: V2_ROOT.to_string() });
    pass.answer_exists(true);
    assert_eq!(pass.answer_files(&StatFiles { cpu: None, mem_usage: None, mem_limit: None }), None);
    assert_eq!(pass.request(), second);
    assert_eq!(pass.answer_listing(Ok(vec![])), None);
    assert!(pass.is_done());
    pass.answer_exists(true);
    assert_eq!(pass.answer_listing(Ok(vec![d("kubepods-pod1")])), None);
    assert_eq!(pass.answer_files(&StatFiles { cpu: None, mem_usage: None, mem_limit: None }), None);
    assert_eq!(pass.request(), Request::Done);
}

#[test]
fn tasks_of_a_v2_root_listing() {
    let tasks = collect_cgroup_v2_metrics(&vec![d("kubepods-pod1.slice"), f("kubepods-x"), d("init.scope")]);
    assert_eq!(
        tasks,
        vec![Task::ReadPod {
            path: "/sys/fs/cgroup/kubepods.slice/kubepods-pod1.slice".to_string(),
            pod_id: "kubepods-pod1.slice".to_string(),
        }]
    );
    assert_eq!(collect_cgroup_v2_metrics(&vec![]), vec![]);
}

#[test]
fn tasks_of_a_v1_root_probe() {
    assert_eq!(collect_cgroup_v1_metrics(false, true), vec![Task::ListSlice { path: V1_ROOT.to_string() }]);
    assert_eq!(collect_cgroup_v1_metrics(false, false), vec![Task::FindV1Root { fallback: true }]);
    assert_eq!(collect_cgroup_v1_metrics(true, true), vec![Task::ListSlice { path: V1_ROOT_FALLBACK.to_string() }]);
    assert_eq!(collect_cgroup_v1_metrics(true, false), vec![]);
}

#[test]
fn tasks_of_a_qos_level_listing() {
    let tasks = process_v1_dir(
        "/r",
        &vec![d("guaranteed"), d("pod-burstable-1234"), f("pod-file"), d("misc"), d("x-burstable")],
    );
    assert_eq!(
        tasks,
        vec![
            Task::ListSlice { path: "/r/guaranteed".to_string() },
            Task::ListPod { path: "/r/pod-burstable-1234".to_string(), pod_id: "pod-burstable-1234".to_string() },
            Task::ListSlice { path: "/r/x-burstable".to_string() },
        ]
    );
}

#[test]
fn tasks_of_a_pod_listing() {
    let tasks = process_v1_pod("/r/pod1", "pod1", &vec![d("crio-2"), d("tiny"), f(CONTAINER_A), d(CONTAINER_A)]);
    assert_eq!(
        tasks,
        vec![
            Task::ReadContainer {
                cpu_path: "/r/pod1/crio-2".to_string(),
                pod_id: "pod1".to_string(),
                container_id: "crio-2".to_string(),
            },
            Task::ReadContainer {
                cpu_path: format!("/r/pod1/{}", CONTAINER_A),
                pod_id: "pod1".to_string(),
                container_id: CONTAINER_A.to_string(),
            },
        ]
    );
    assert_eq!(process_v1_pod("/r/pod1", "pod1", &vec![d("tiny"), f("docker-1")]), vec![]);
}

#[test]
fn request_of_each_task() {
    assert_eq!(request_for(&Task::DetectVersion), Request::Exists { path: V2_MARKER.to_string() });
    assert_eq!(request_for(&Task::FindV1Root { fallback: false }), Request::Exists { path: V1_ROOT.to_string() });
    assert_eq!(request_for(&Task::FindV1Root { fallback: true }), Request::Exists { path: V1_ROOT_FALLBACK.to_string() });
    assert_eq!(request_for(&Task::ListV2Root), Request::ListDir { path: V2_ROOT.to_string() });
    assert_eq!(request_for(&Task::ListSlice { path: "/a".to_string() }), Request::ListDir { path: "/a".to_string() });
    assert_eq!(
        request_for(&Task::ListPod { path: "/a/pod1".to_string(), pod_id: "pod1".to_string() }),
        Request::ListDir { path: "/a/pod1".to_string() }
    );
    assert_eq!(
        request_for(&Task::ReadPod { path: "/a/p".to_string(), pod_id: "p".to_string() }),
        Request::ReadFiles {
            cpu: "/a/p/cpu.stat".to_string(),
            mem_usage: "/a/p/memory.current".to_string(),
            mem_limit: "/a/p/memory.max".to_string(),
        }
    );
    assert_eq!(
        request_for(&Task::ReadContainer {
            cpu_path: "/x/cpu/p/c".to_string(),
            pod_id: "p".to_string(),
            container_id: "c".to_string(),
        }),
        Request::ReadFiles {
            cpu: "/x/cpu/p/c/cpuacct.usage".to_string(),
            mem_usage: "/x/memory/p/c/memory.usage_in_bytes".to_string(),
            mem_limit: "/x/memory/p/c/memory.limit_in_bytes".to_string(),
        }
    );
}

#[test]
fn samples_follow_the_listing_and_not_the_alphabet() {
    let fs = FakeFs::new()
        .dir(V1_ROOT, vec![d("pod-z"), d("pod-a")])
        .dir(&format!("{}/pod-z", V1_ROOT), vec![d("docker-2"), d("docker-1")])
        .dir(&format!("{}/pod-a", V1_ROOT), vec![d("docker-3")]);
    let out = run("node-1", &fs);
    let ids: Vec<(String, Option<String>)> =
        out.samples.iter().map(|s| (s.pod_id.clone(), s.container_id.clone())).collect();
    assert_eq!(
        ids,
        vec![
            ("pod-z".to_string(), Some("docker-2".to_string())),
            ("pod-z".to_string(), Some("docker-1".to_string())),
            ("pod-a".to_string(), Some("docker-3".to_string())),
        ]
    );
}
