use stats_provider::event::build_event;
use stats_provider::event::format_payload;
use stats_provider::event::u32_dec_string;
use stats_provider::normalize::UtilizationReport;
use stats_provider::sink::failure_log_line;
use stats_provider::sink::format_trigger_command;
use stats_provider::sink::running_log_line;
use stats_provider::sink::success_log_line;

#[test]
fn decimal_rendering_is_exact() {
    assert_eq!(u32_dec_string(0), "0");
    assert_eq!(u32_dec_string(7), "7");
    assert_eq!(u32_dec_string(10), "10");
    assert_eq!(u32_dec_string(100), "100");
    assert_eq!(u32_dec_string(u32::MAX), "4294967295");
}

#[test]
fn payload_is_stable() {
    let report = UtilizationReport { cpu_percent: 42, memory_percent: 77, disk_percent: 13 };
    assert_eq!(
        format_payload(&report),
        "CPU_USAGE=\"42%\" MEMORY_USAGE=\"77%\" DISK_USAGE=\"13%\""
    );
}

#[test]
fn event_carries_constant_name_and_payload() {
    let report = UtilizationReport { cpu_percent: 0, memory_percent: 100, disk_percent: 5 };
    let ev = build_event(&report);
    assert_eq!(ev.name, "system_stats");
    assert_eq!(ev.payload, "CPU_USAGE=\"0%\" MEMORY_USAGE=\"100%\" DISK_USAGE=\"5%\"");
}

#[test]
fn trigger_command_with_payload() {
    let cmd = format_trigger_command("system_stats", Some("CPU_USAGE=\"20%\""));
    assert_eq!(cmd, "--trigger system_stats CPU_USAGE=\"20%\"");
}

#[test]
fn trigger_command_without_payload() {
    let cmd = format_trigger_command("system_stats", None);
    assert_eq!(cmd, "--trigger system_stats");
}

#[test]
fn log_lines_are_exact() {
    assert_eq!(
        success_log_line("--trigger system_stats"),
        "Successfully sent to SketchyBar: --trigger system_stats"
    );
    assert_eq!(
        failure_log_line("connection refused"),
        "Failed to send to SketchyBar: connection refused"
    );
    assert_eq!(
        running_log_line("CPU_USAGE=\"1%\""),
        "Program is running. Current message: CPU_USAGE=\"1%\""
    );
}
