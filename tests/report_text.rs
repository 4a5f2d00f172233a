use rust_get_system_info::report::{disk_line_string, network_lines_string, percent_string, report};
use rust_get_system_info::snapshot::{DiskInfo, NetworkInfo, SystemInfo};

fn disk(name: &str, fs: &str, total: u64, available: u64) -> DiskInfo {
    DiskInfo {
        name: name.to_string(),
        file_system: fs.to_string(),
        total_space: total,
        available_space: available,
    }
}

fn snapshot(disks: Vec<DiskInfo>, networks: Vec<NetworkInfo>) -> SystemInfo {
    SystemInfo::from_readings(
        Some("Linux".to_string()),
        Some("22.04".to_string()),
        Some(8),
        17179869184,
        8589934592,
        0,
        0,
        disks,
        networks,
    )
}

#[test]
fn memory_lines_in_gigabytes() {
    let text = report(&snapshot(Vec::new(), Vec::new()));
    assert!(text.contains("  Total Memory: 16.00 GB\n"));
    assert!(text.contains("  Used Memory: 8.00 GB\n"));
    assert!(text.contains("  Total Swap: 0 B\n"));
    assert!(text.contains("  CPU Cores: 8\n"));
}

#[test]
fn no_disks_and_no_interfaces() {
    let text = report(&snapshot(Vec::new(), Vec::new()));
    let expected = "System Information:\n  OS Name: Linux\n  OS Version: 22.04\n  CPU Cores: 8\n  \
Total Memory: 16.00 GB\n  Used Memory: 8.00 GB\n  Total Swap: 0 B\n  Used Swap: 0 B\n\n\
Disk Usage:\n  No disks detected\n\nNetwork Interfaces:\n  No network interfaces detected\n";
    assert_eq!(text, expected);
}

#[test]
fn disk_line_figures() {
    let d = disk("/", "ext4", 1000, 250);
    assert_eq!(d.used_space(), 750);
    assert_eq!(d.usage_tenths(), 750);
    assert_eq!(
        disk_line_string(&d),
        "  /: 750 B / 1000 B (75.0% used, 250 B available) [ext4]\n"
    );
}

#[test]
fn empty_disk_shows_zero_percent() {
    for available in [0u64, 1, 4096, u64::MAX] {
        let d = disk("/mnt", "tmpfs", 0, available);
        assert_eq!(d.usage_tenths(), 0);
        assert_eq!(percent_string(d.usage_tenths()), "0.0");
    }
}

#[test]
fn usage_percent_rounding() {
    assert_eq!(disk("a", "b", 8, 7).usage_tenths(), 125);
    assert_eq!(disk("a", "b", 16, 15).usage_tenths(), 62);
    assert_eq!(disk("a", "b", 3, 1).usage_tenths(), 667);
    assert_eq!(disk("a", "b", 10, 20).used_space(), 0);
    assert_eq!(percent_string(125), "12.5");
    assert_eq!(percent_string(1000), "100.0");
}

#[test]
fn disks_and_interfaces_listed_in_order() {
    let disks = vec![disk("/", "ext4", 2048, 1024), disk("/boot", "vfat", 0, 0)];
    let networks = vec![NetworkInfo {
        name: "eth0".to_string(),
        bytes_received: 1536,
        bytes_transmitted: 0,
        packets_received: 10,
        packets_transmitted: 0,
    }];
    let text = report(&snapshot(disks, networks));
    let tail = "\nDisk Usage:\n  /: 1.00 KB / 2.00 KB (50.0% used, 1.00 KB available) [ext4]\n  \
/boot: 0 B / 0 B (0.0% used, 0 B available) [vfat]\n\nNetwork Interfaces:\n  eth0:\n    \
Received: 1.50 KB (10 packets)\n    Transmitted: 0 B (0 packets)\n";
    assert!(text.ends_with(tail));
}

#[test]
fn network_lines_figures() {
    let n = NetworkInfo {
        name: "lo".to_string(),
        bytes_received: 1073741824,
        bytes_transmitted: 2048,
        packets_received: 3,
        packets_transmitted: 4,
    };
    assert_eq!(
        network_lines_string(&n),
        "  lo:\n    Received: 1.00 GB (3 packets)\n    Transmitted: 2.00 KB (4 packets)\n"
    );
}
