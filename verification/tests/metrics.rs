use time_tracker::metrics::{get_metrics, network_total, primary_disk_space, DiskSample, SystemSample};

fn disk(is_root: bool, total: u64, available: u64) -> DiskSample {
    DiskSample { is_root, total, available }
}

#[test]
fn network_totals() {
    assert_eq!(network_total(&vec![]), Some(0));
    assert_eq!(network_total(&vec![10, 20, 12]), Some(42));
    assert_eq!(network_total(&vec![u64::MAX, 0]), Some(u64::MAX));
    assert_eq!(network_total(&vec![u64::MAX, 1]), None);
}

#[test]
fn root_volume_is_primary() {
    let disks = vec![disk(false, 900, 100), disk(true, 500, 200), disk(false, 700, 1)];
    assert_eq!(primary_disk_space(&disks), (500, 200));
}

#[test]
fn largest_volume_when_no_root() {
    let disks = vec![disk(false, 300, 100), disk(false, 900, 400), disk(false, 900, 1), disk(false, 10, 5)];
    assert_eq!(primary_disk_space(&disks), (900, 400));
    assert_eq!(primary_disk_space(&vec![]), (0, 0));
    // A root volume without capacity falls back to the largest.
    let disks = vec![disk(true, 0, 7), disk(false, 50, 20)];
    assert_eq!(primary_disk_space(&disks), (50, 20));
    let disks = vec![disk(true, 0, 7)];
    assert_eq!(primary_disk_space(&disks), (0, 7));
}

#[test]
fn metrics_of_a_sample() {
    let sample = SystemSample {
        mem_used: 8,
        mem_total: 16,
        received: vec![100, 50],
        transmitted: vec![7],
        disks: vec![disk(true, 1000, 250)],
    };
    let m = get_metrics(&sample).unwrap();
    assert_eq!((m.mem_used, m.mem_total), (8, 16));
    assert_eq!((m.disk_used, m.disk_total), (750, 1000));
    assert_eq!((m.net_down_bytes, m.net_up_bytes), (150, 7));
}

#[test]
fn used_space_never_negative() {
    let sample = SystemSample {
        mem_used: 0,
        mem_total: 0,
        received: vec![],
        transmitted: vec![u64::MAX, 1],
        disks: vec![disk(true, 100, 300)],
    };
    assert!(get_metrics(&sample).is_none());
    let sample = SystemSample { transmitted: vec![], ..sample };
    let m = get_metrics(&sample).unwrap();
    assert_eq!((m.disk_used, m.disk_total), (0, 100));
}
