use std::path::Path;
use sys_report::gpu::{gpu_report, GpuError, GpuField, GpuSnapshot};
use sys_report::host::{uptime_report_line, DiskKind, DiskSnapshot, HostSnapshot};
use sys_report::paths::path_to_string;
use sys_report::text::decimal_string;
use sys_report::units::{average_usage, bytes_to_gib_hundredths, milliwatts_to_watts, GIB};
use sys_report::uptime::convert_seconds;

fn test_gpu() -> GpuSnapshot {
    GpuSnapshot {
        name: "TestGPU".to_string(),
        num_cores: 10,
        memory_bus_width: 256,
        core_clock: 1500,
        memory_clock: 7000,
        gpu_temperature: 65,
        power_usage_mw: 150000,
        power_limit_mw: 200000,
        memory_used: 4 * GIB,
        memory_total: 8 * GIB,
    }
}

fn test_host(disks: Vec<DiskSnapshot>) -> HostSnapshot {
    HostSnapshot {
        total_memory: 16 * GIB,
        used_memory: 6 * GIB + GIB / 2,
        total_swap: 2 * GIB,
        used_swap: 0,
        system_name: Some("Linux".to_string()),
        kernel_version: Some("6.1.0".to_string()),
        os_version: None,
        host_name: Some("box".to_string()),
        uptime: 90061,
        disks,
        average_cpu_usage: 1234,
    }
}

#[test]
fn convert_seconds_zero() {
    assert_eq!(convert_seconds(0), (0, 0, 0, 0));
}

#[test]
fn convert_seconds_one_of_each() {
    assert_eq!(convert_seconds(90061), (1, 1, 1, 1));
}

#[test]
fn convert_seconds_recombines() {
    for s in [1u64, 59, 60, 3599, 3600, 86399, 86400, 1_000_000, u64::MAX] {
        let (d, h, m, r) = convert_seconds(s);
        assert!(h < 24 && m < 60 && r < 60);
        assert_eq!(d as u128 * 86400 + h as u128 * 3600 + m as u128 * 60 + r as u128, s as u128);
    }
}

#[test]
fn gib_hundredths_exact_values() {
    assert_eq!(bytes_to_gib_hundredths(0), 0);
    assert_eq!(bytes_to_gib_hundredths(4 * GIB), 400);
    assert_eq!(bytes_to_gib_hundredths(GIB / 2), 50);
    assert_eq!(bytes_to_gib_hundredths(GIB / 8), 12);
    assert_eq!(bytes_to_gib_hundredths(3 * GIB / 8), 38);
    assert_eq!(bytes_to_gib_hundredths(u64::MAX), 1_717_986_918_400);
}

#[test]
fn decimal_text_of_integers() {
    assert_eq!(decimal_string(0), "0");
    assert_eq!(decimal_string(1234567), "1234567");
    assert_eq!(decimal_string(u64::MAX), "18446744073709551615");
}

#[test]
fn milliwatts_round_down() {
    assert_eq!(milliwatts_to_watts(200000), 200);
    assert_eq!(milliwatts_to_watts(999), 0);
}

#[test]
fn average_of_no_cores_is_zero() {
    assert_eq!(average_usage(&Vec::new()), 0);
}

#[test]
fn average_of_cores() {
    assert_eq!(average_usage(&vec![1000, 2000, 3001]), 2000);
    assert_eq!(average_usage(&vec![u64::MAX, u64::MAX]), u64::MAX);
}

#[test]
fn gpu_block_scenario() {
    let lines = test_gpu().report_lines();
    assert!(lines.contains(&"GPU Name: TestGPU".to_string()));
    assert!(lines.contains(&"Power Usage: 150 W".to_string()));
    assert!(lines.contains(&"Power Limit: 200 W".to_string()));
    assert!(lines.contains(&"Memory Used: 4.00 GB".to_string()));
    assert!(lines.contains(&"Memory Total: 8.00 GB".to_string()));
    assert_eq!(lines[1], "Number of Cores: 10");
    assert_eq!(lines[2], "Memory Bus Width: 256-bit bus width");
    assert_eq!(lines[3], "GPU Core Clocks: 1500 MHz");
    assert_eq!(lines[4], "GPU Memory Clock: 7000 MHz");
    assert_eq!(lines[5], "GPU Temperature: 65 C");
    assert_eq!(lines.len(), 10);
}

#[test]
fn gpu_power_usage_fraction() {
    let mut g = test_gpu();
    g.power_usage_mw = 150250;
    assert_eq!(g.report_lines()[6], "Power Usage: 150.25 W");
    g.power_usage_mw = 7;
    assert_eq!(g.report_lines()[6], "Power Usage: 0.007 W");
    g.power_usage_mw = 1500;
    assert_eq!(g.report_lines()[6], "Power Usage: 1.5 W");
}

#[test]
fn gpu_errors_give_one_line() {
    let init = gpu_report(&Err(GpuError::InitFailed));
    assert_eq!(init, vec!["Error: GPU management library could not be initialized".to_string()]);
    let field = gpu_report(&Err(GpuError::QueryFailed(GpuField::Temperature)));
    assert_eq!(field, vec!["Error: GPU query failed: temperature".to_string()]);
    assert_eq!(gpu_report(&Ok(test_gpu())).len(), 10);
}

#[test]
fn uptime_line_text() {
    assert_eq!(
        uptime_report_line(90061),
        "Uptime 90061 seconds is equivalent to 1 days, 1 hours, 1 minutes, and 1 seconds"
    );
}

#[test]
fn host_block_lines() {
    let disk = DiskSnapshot {
        name: "nvme0n1p2".to_string(),
        kind: DiskKind::SolidState,
        file_system: "ext4".to_string(),
        mount_point: "/".to_string(),
        total_space: 100 * GIB,
        available_space: GIB / 4,
    };
    let lines = test_host(vec![disk]).report_lines();
    assert_eq!(
        lines,
        vec![
            "=> system:",
            "Total Memory: 16.00 GB",
            "Used Memory: 6.50 GB",
            "Total Swap: 2.00 GB",
            "Used Swap: 0.00 GB",
            "System Name: Linux",
            "Kernel Version: 6.1.0",
            "OS Version: unknown",
            "Host Name: box",
            "Uptime 90061 seconds is equivalent to 1 days, 1 hours, 1 minutes, and 1 seconds",
            "Average CPU Usage: 12.34%",
            "=> disks:",
            "nvme0n1p2\tSSD\text4\t/\t100.00 GB\t0.25 GB",
        ]
    );
}

#[test]
fn disk_kinds_have_labels() {
    let mut disk = DiskSnapshot {
        name: "sda".to_string(),
        kind: DiskKind::Rotational,
        file_system: "xfs".to_string(),
        mount_point: "/data".to_string(),
        total_space: 0,
        available_space: 0,
    };
    assert_eq!(disk.report_line(), "sda\tHDD\txfs\t/data\t0.00 GB\t0.00 GB");
    disk.kind = DiskKind::Unknown;
    assert_eq!(disk.report_line(), "sda\tUnknown\txfs\t/data\t0.00 GB\t0.00 GB");
}

#[test]
fn path_text_is_kept() {
    assert_eq!(path_to_string(Path::new("/mnt/data")), "/mnt/data");
    assert_eq!(path_to_string(Path::new("")), "");
}
