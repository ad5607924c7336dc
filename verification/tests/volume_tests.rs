use vita_agent::volume::{collect_volume_stats, mount_point, VolumeUsage, MOUNT_DIR};

#[test]
fn capacity_in_megabytes() {
    assert_eq!(
        collect_volume_stats(4096, 262_144, 131_072),
        Some(VolumeUsage { total_mb: 1024, used_mb: 512, free_mb: 512 })
    );
    assert_eq!(
        collect_volume_stats(512, 4096, 1),
        Some(VolumeUsage { total_mb: 2, used_mb: 1, free_mb: 0 })
    );
    assert_eq!(
        collect_volume_stats(1, 1_048_576, 0),
        Some(VolumeUsage { total_mb: 1, used_mb: 1, free_mb: 0 })
    );
}

#[test]
fn a_volume_below_one_megabyte_gives_nothing() {
    assert_eq!(collect_volume_stats(1, 1_048_575, 0), None);
    assert_eq!(collect_volume_stats(4096, 255, 255), None);
    assert_eq!(collect_volume_stats(0, 1_000_000, 1_000_000), None);
    assert_eq!(collect_volume_stats(4096, 0, 0), None);
}

#[test]
fn more_free_than_total_counts_as_nothing_used() {
    assert_eq!(
        collect_volume_stats(1_048_576, 2, 5),
        Some(VolumeUsage { total_mb: 2, used_mb: 0, free_mb: 5 })
    );
}

#[test]
fn the_largest_sizes_that_fit() {
    assert_eq!(
        collect_volume_stats(1, u64::MAX, u64::MAX),
        Some(VolumeUsage { total_mb: 17_592_186_044_415, used_mb: 0, free_mb: 17_592_186_044_415 })
    );
    assert_eq!(
        collect_volume_stats(1 << 32, (1 << 32) - 1, 0),
        Some(VolumeUsage { total_mb: 17_592_186_040_320, used_mb: 17_592_186_040_320, free_mb: 0 })
    );
}

#[test]
fn mount_point_of_a_volume() {
    assert_eq!(MOUNT_DIR, "mount");
    assert_eq!(mount_point("/var/lib/kubelet/pods/u/volumes/d/v", true), "/var/lib/kubelet/pods/u/volumes/d/v/mount");
    assert_eq!(mount_point("/var/lib/kubelet/pods/u/volumes/d/v", false), "/var/lib/kubelet/pods/u/volumes/d/v");
}
