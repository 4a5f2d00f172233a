use rust_get_system_info::error::{describe, AppError};
use rust_get_system_info::snapshot::SystemInfo;

#[test]
fn missing_readings_get_defaults() {
    let info = SystemInfo::from_readings(None, None, None, 1, 2, 3, 4, Vec::new(), Vec::new());
    assert_eq!(info.os_name, "N/A");
    assert_eq!(info.os_version, "N/A");
    assert_eq!(info.cpu_cores, 0);
    assert_eq!(
        (info.total_memory, info.used_memory, info.total_swap, info.used_swap),
        (1, 2, 3, 4)
    );
    assert!(info.disks.is_empty() && info.networks.is_empty());
}

#[test]
fn readings_are_kept() {
    let info = SystemInfo::from_readings(
        Some("Darwin".to_string()),
        Some("14.1".to_string()),
        Some(12),
        17179869184,
        8589934592,
        0,
        0,
        Vec::new(),
        Vec::new(),
    );
    assert_eq!(info.os_name, "Darwin");
    assert_eq!(info.os_version, "14.1");
    assert_eq!(info.cpu_cores, 12);
    assert_eq!(info.total_memory, 17179869184);
    assert_eq!(info.used_memory, 8589934592);
}

#[test]
fn file_creation_error_message() {
    let cause = std::io::Error::new(std::io::ErrorKind::PermissionDenied, "read-only directory");
    let msg = AppError::FileCreation(cause).message();
    assert_eq!(msg, "Failed to create file: read-only directory");
    assert!(format!("Error: {}", msg).starts_with("Error: Failed to create file:"));
}

#[test]
fn file_write_error_message() {
    let cause = std::io::Error::new(std::io::ErrorKind::Other, "disk full");
    assert_eq!(AppError::FileWrite(cause).message(), "Failed to write to file: disk full");
}

#[test]
fn serialization_error_message() {
    let cause = serde_json::from_str::<u64>("x").unwrap_err();
    let text = cause.to_string();
    let msg = AppError::JsonSerialization(cause).message();
    assert_eq!(msg, format!("Failed to serialize data to JSON: {}", text));
}

#[test]
fn describe_joins_prefix_and_cause() {
    assert_eq!(describe("a: ", "b"), "a: b");
    assert_eq!(describe("", ""), "");
}
