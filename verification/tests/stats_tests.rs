use vita_agent::stats::{
    collect_container_cgroup_v1, collect_pod_cgroup_v2, parse_bytes_mb, parse_ceiling_mb,
    parse_cpu_stat, parse_cpu_usage, parse_limit_mb, ResourceSample, StatFiles, BYTES_PER_MB,
    NSEC_PER_MS, UNLIMITED_FROM, USEC_PER_MS,
};

fn files(cpu: Option<&str>, mem_usage: Option<&str>, mem_limit: Option<&str>) -> StatFiles {
    StatFiles {
        cpu: cpu.map(String::from),
        mem_usage: mem_usage.map(String::from),
        mem_limit: mem_limit.map(String::from),
    }
}

#[test]
fn unit_constants() {
    assert_eq!(USEC_PER_MS, 1_000);
    assert_eq!(NSEC_PER_MS, 1_000_000);
    assert_eq!(BYTES_PER_MB, 1024 * 1024);
    assert_eq!(UNLIMITED_FROM, u64::MAX / 2);
}

#[test]
fn v2_cpu_is_microseconds_rounded_down() {
    assert_eq!(parse_cpu_stat("usage_usec 0"), 0);
    assert_eq!(parse_cpu_stat("usage_usec 999"), 0);
    assert_eq!(parse_cpu_stat("usage_usec 1000"), 1);
    assert_eq!(parse_cpu_stat("usage_usec 1999"), 1);
    assert_eq!(parse_cpu_stat("usage_usec 123456789"), 123_456);
    assert_eq!(parse_cpu_stat("usage_usec 18446744073709551615"), 18_446_744_073_709_551);
}

#[test]
fn v2_cpu_stat_file_as_the_kernel_writes_it() {
    let content = "usage_usec 4521873\nuser_usec 3000000\nsystem_usec 1521873\nnr_periods 0\nnr_throttled 0\nthrottled_usec 0\n";
    assert_eq!(parse_cpu_stat(content), 4521);
    assert_eq!(parse_cpu_stat("user_usec 5000\nusage_usec 7000\n"), 7);
    assert_eq!(parse_cpu_stat("usage_usec\t7000\r\nuser_usec 1\r\n"), 7);
    assert_eq!(parse_cpu_stat("usage_usec   7000   "), 7);
}

#[test]
fn v2_cpu_stat_lines_that_say_nothing() {
    assert_eq!(parse_cpu_stat(""), 0);
    assert_eq!(parse_cpu_stat("\n\n"), 0);
    assert_eq!(parse_cpu_stat("user_usec 5000\n"), 0);
    assert_eq!(parse_cpu_stat("usage_usec"), 0);
    assert_eq!(parse_cpu_stat("usage_usec 1 2"), 0);
    assert_eq!(parse_cpu_stat("usage_usec abc"), 0);
    assert_eq!(parse_cpu_stat("usage_usec -5"), 0);
    assert_eq!(parse_cpu_stat("usage_usec 18446744073709551616"), 0);
    assert_eq!(parse_cpu_stat(" usage_usec 5000"), 0);
    assert_eq!(parse_cpu_stat("Usage_usec 5000"), 0);
}

#[test]
fn v2_cpu_stat_last_usage_line_wins() {
    assert_eq!(parse_cpu_stat("usage_usec 1000\nusage_usec 9000\n"), 9);
    assert_eq!(parse_cpu_stat("usage_usec 1000\nusage_usec bad\n"), 1);
    assert_eq!(parse_cpu_stat("usage_usec 1000\nusage_usec 1 2\nother 3\n"), 1);
    assert_eq!(parse_cpu_stat("usage_usec_total 5000\n"), 5);
}

#[test]
fn v1_cpu_is_nanoseconds_rounded_down() {
    assert_eq!(parse_cpu_usage("0\n"), 0);
    assert_eq!(parse_cpu_usage("999999\n"), 0);
    assert_eq!(parse_cpu_usage("1000000\n"), 1);
    assert_eq!(parse_cpu_usage("1999999\n"), 1);
    assert_eq!(parse_cpu_usage("123456789012\n"), 123_456);
    assert_eq!(parse_cpu_usage("  18446744073709551615  "), 18_446_744_073_709);
    assert_eq!(parse_cpu_usage(""), 0);
    assert_eq!(parse_cpu_usage("12 34"), 0);
    assert_eq!(parse_cpu_usage("abc"), 0);
}

#[test]
fn memory_is_bytes_in_whole_megabytes() {
    assert_eq!(parse_bytes_mb("0\n"), 0);
    assert_eq!(parse_bytes_mb("1048575\n"), 0);
    assert_eq!(parse_bytes_mb("1048576\n"), 1);
    assert_eq!(parse_bytes_mb("2097151\n"), 1);
    assert_eq!(parse_bytes_mb("536870912\n"), 512);
    assert_eq!(parse_bytes_mb("18446744073709551615"), 17_592_186_044_415);
    assert_eq!(parse_bytes_mb("nope"), 0);
    assert_eq!(parse_bytes_mb(""), 0);
}

#[test]
fn v1_limit_from_half_the_maximum_on_is_unlimited() {
    assert_eq!(parse_limit_mb("9223372036854775807\n"), 0);
    assert_eq!(parse_limit_mb("9223372036854771712\n"), 8_796_093_022_207);
    assert_eq!(parse_limit_mb("9223372036854775806\n"), 8_796_093_022_207);
    assert_eq!(parse_limit_mb("9223372036854775808\n"), 0);
    assert_eq!(parse_limit_mb("18446744073709551615\n"), 0);
    assert_eq!(parse_limit_mb("18446744073709551616\n"), 0);
    assert_eq!(parse_limit_mb("268435456\n"), 256);
    assert_eq!(parse_limit_mb("garbage"), 0);
}

#[test]
fn v2_ceiling_word_is_unlimited() {
    assert_eq!(parse_ceiling_mb("max\n"), 0);
    assert_eq!(parse_ceiling_mb("max"), 0);
    assert_eq!(parse_ceiling_mb("  max  "), 0);
    assert_eq!(parse_ceiling_mb("unlimited\n"), 0);
    assert_eq!(parse_ceiling_mb("268435456\n"), 256);
    assert_eq!(parse_ceiling_mb("1048575\n"), 0);
    assert_eq!(parse_ceiling_mb("maximum"), 0);
    assert_eq!(parse_ceiling_mb(""), 0);
}

#[test]
fn v2_sample_from_three_files() {
    let sample = collect_pod_cgroup_v2(
        "node-1",
        "kubepods-burstable-podABC.slice",
        &files(Some("usage_usec 2500000\nuser_usec 1\n"), Some("3145728\n"), Some("max\n")),
    );
    assert_eq!(
        sample,
        ResourceSample {
            node_id: "node-1".to_string(),
            pod_id: "kubepods-burstable-podABC.slice".to_string(),
            container_id: None,
            cpu_ms: 2500,
            mem_mb: 3,
            mem_limit_mb: 0,
        }
    );
    let limited = collect_pod_cgroup_v2("n", "p", &files(None, None, Some("4194304")));
    assert_eq!(limited.mem_limit_mb, 4);
}

#[test]
fn v1_sample_from_three_files() {
    let sample = collect_container_cgroup_v1(
        "node-1",
        "pod1234",
        "docker-abc.scope",
        &files(Some("7000000000\n"), Some("10485760\n"), Some("20971520\n")),
    );
    assert_eq!(
        sample,
        ResourceSample {
            node_id: "node-1".to_string(),
            pod_id: "pod1234".to_string(),
            container_id: Some("docker-abc.scope".to_string()),
            cpu_ms: 7000,
            mem_mb: 10,
            mem_limit_mb: 20,
        }
    );
}

#[test]
fn a_missing_file_zeroes_only_its_own_field() {
    let all = files(Some("7000000000"), Some("10485760"), Some("20971520"));
    let full = collect_container_cgroup_v1("n", "p", "c", &all);
    let no_cpu = collect_container_cgroup_v1("n", "p", "c", &StatFiles { cpu: None, ..all.clone() });
    let no_mem = collect_container_cgroup_v1("n", "p", "c", &StatFiles { mem_usage: None, ..all.clone() });
    let no_limit = collect_container_cgroup_v1("n", "p", "c", &StatFiles { mem_limit: None, ..all.clone() });
    assert_eq!(no_cpu, ResourceSample { cpu_ms: 0, ..full.clone() });
    assert_eq!(no_mem, ResourceSample { mem_mb: 0, ..full.clone() });
    assert_eq!(no_limit, ResourceSample { mem_limit_mb: 0, ..full.clone() });
    let none = collect_pod_cgroup_v2("n", "p", &files(None, None, None));
    assert_eq!((none.cpu_ms, none.mem_mb, none.mem_limit_mb), (0, 0, 0));
    assert_eq!(none.pod_id, "p");
}

#[test]
fn a_file_that_does_not_parse_zeroes_only_its_own_field() {
    let sample = collect_container_cgroup_v1("n", "p", "c", &files(Some("x"), Some("10485760"), Some("y")));
    assert_eq!((sample.cpu_ms, sample.mem_mb, sample.mem_limit_mb), (0, 10, 0));
    let pod = collect_pod_cgroup_v2("n", "p", &files(Some("usage_usec 5000"), Some("?"), Some("1048576")));
    assert_eq!((pod.cpu_ms, pod.mem_mb, pod.mem_limit_mb), (5, 0, 1));
}

#[test]
fn v1_and_v2_read_the_cpu_file_differently() {
    let f = files(Some("5000000"), None, None);
    assert_eq!(collect_container_cgroup_v1("n", "p", "c", &f).cpu_ms, 5);
    assert_eq!(collect_pod_cgroup_v2("n", "p", &f).cpu_ms, 0);
    let huge = files(None, None, Some("9223372036854775807"));
    assert_eq!(collect_container_cgroup_v1("n", "p", "c", &huge).mem_limit_mb, 0);
    assert_eq!(collect_pod_cgroup_v2("n", "p", &huge).mem_limit_mb, 8_796_093_022_207);
}
