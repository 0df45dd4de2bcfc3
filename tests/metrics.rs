use system_info::{average_cpu_usage, update_system_info, MetricsSnapshot, SystemReadings, MIB};

fn readings(core_usages: Vec<u32>, total: u64, used: u64, free: u64) -> SystemReadings {
    SystemReadings { core_usages, total_memory: total, used_memory: used, free_memory: free }
}

#[test]
fn end_to_end_cpu_and_ram_lines() {
    let r = readings(vec![1000, 2000, 3000], 16384 * MIB, 8192 * MIB, 8192 * MIB);
    let fields = update_system_info(&r, "GPU: test");
    assert_eq!(fields.cpu_usage, "CPU Usage: 20.00%");
    assert_eq!(fields.ram_info, "Total RAM: 16384 MB, Used: 8192 MB, Free: 8192 MB");
    assert_eq!(fields.gpu_info, "GPU: test");
}

#[test]
fn average_of_no_cores_is_zero() {
    assert_eq!(average_cpu_usage(&vec![]), 0);
    let fields = update_system_info(&readings(vec![], 0, 0, 0), "");
    assert_eq!(fields.cpu_usage, "CPU Usage: 0.00%");
    assert_eq!(fields.ram_info, "Total RAM: 0 MB, Used: 0 MB, Free: 0 MB");
}

#[test]
fn average_is_sum_over_count() {
    assert_eq!(average_cpu_usage(&vec![1000, 2000, 3000]), 2000);
    assert_eq!(average_cpu_usage(&vec![4250]), 4250);
    assert_eq!(average_cpu_usage(&vec![0, 10000]), 5000);
    assert_eq!(average_cpu_usage(&vec![1, 2, 3, 4]), 3);
}

#[test]
fn average_rounds_to_nearest_hundredth() {
    // 10000 / 3 = 3333.33...
    assert_eq!(average_cpu_usage(&vec![0, 0, 10000]), 3333);
    // 20000 / 3 = 6666.66...
    assert_eq!(average_cpu_usage(&vec![0, 10000, 10000]), 6667);
    // 3 / 2 = 1.5 rounds up
    assert_eq!(average_cpu_usage(&vec![1, 2]), 2);
}

#[test]
fn average_of_largest_values_does_not_overflow() {
    assert_eq!(average_cpu_usage(&vec![u32::MAX, u32::MAX, u32::MAX]), u32::MAX);
    assert_eq!(average_cpu_usage(&vec![u32::MAX, u32::MAX - 1]), u32::MAX);
}

#[test]
fn cpu_line_has_two_decimals() {
    let s = MetricsSnapshot { cpu_usage: 705, ram_total_mb: 0, ram_used_mb: 0, ram_free_mb: 0 };
    assert_eq!(s.cpu_usage_text(), "CPU Usage: 7.05%");
    let s = MetricsSnapshot { cpu_usage: 10000, ram_total_mb: 0, ram_used_mb: 0, ram_free_mb: 0 };
    assert_eq!(s.cpu_usage_text(), "CPU Usage: 100.00%");
    let s = MetricsSnapshot { cpu_usage: 9, ram_total_mb: 0, ram_used_mb: 0, ram_free_mb: 0 };
    assert_eq!(s.cpu_usage_text(), "CPU Usage: 0.09%");
    let s = MetricsSnapshot { cpu_usage: 12345, ram_total_mb: 0, ram_used_mb: 0, ram_free_mb: 0 };
    assert_eq!(s.cpu_usage_text(), "CPU Usage: 123.45%");
}

#[test]
fn memory_is_shown_in_whole_mebibytes() {
    let r = readings(vec![], 2 * MIB - 1, MIB, MIB - 1);
    let s = MetricsSnapshot::from_readings(&r);
    assert_eq!((s.ram_total_mb, s.ram_used_mb, s.ram_free_mb), (1, 1, 0));
    assert_eq!(s.ram_info_text(), "Total RAM: 1 MB, Used: 1 MB, Free: 0 MB");
}

#[test]
fn used_and_free_need_not_add_up_to_total() {
    let r = readings(vec![5000], 16 * MIB, 10 * MIB, 3 * MIB);
    let fields = update_system_info(&r, "x");
    assert_eq!(fields.ram_info, "Total RAM: 16 MB, Used: 10 MB, Free: 3 MB");
    assert_eq!(fields.cpu_usage, "CPU Usage: 50.00%");
}

#[test]
fn largest_memory_amounts() {
    let r = readings(vec![], u64::MAX, u64::MAX, 0);
    let fields = update_system_info(&r, "");
    assert_eq!(
        fields.ram_info,
        "Total RAM: 17592186044415 MB, Used: 17592186044415 MB, Free: 0 MB"
    );
}
