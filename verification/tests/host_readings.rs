use systemd_doctor::cmd_health_check::{CmdHealCheck, CommandOutput, MemInfo};
use systemd_doctor::error::HealthError;

fn output(success: bool, stdout: &str, stderr: &str) -> CommandOutput {
    ended(if success { Some(0) } else { Some(2) }, stdout, stderr)
}

fn ended(code: Option<i32>, stdout: &str, stderr: &str) -> CommandOutput {
    CommandOutput { code, stdout: stdout.to_string(), stderr: stderr.to_string() }
}

#[test]
fn meminfo_value_is_second_word_in_megabytes() {
    assert_eq!(CmdHealCheck::parse_meminfo_value("MemTotal:       16384 kB"), 16);
    assert_eq!(CmdHealCheck::parse_meminfo_value("MemTotal: 2047 kB"), 1);
    assert_eq!(CmdHealCheck::parse_meminfo_value("MemTotal: 1023 kB"), 0);
    assert_eq!(CmdHealCheck::parse_meminfo_value("MemTotal:"), 0);
    assert_eq!(CmdHealCheck::parse_meminfo_value("MemTotal: lots kB"), 0);
    assert_eq!(CmdHealCheck::parse_meminfo_value(""), 0);
    assert_eq!(CmdHealCheck::parse_meminfo_value("MemTotal: +4096"), 4);
    assert_eq!(CmdHealCheck::parse_meminfo_value("MemTotal: -4096"), 0);
    assert_eq!(
        CmdHealCheck::parse_meminfo_value("x 18446744073709551615"),
        18446744073709551615 / 1024
    );
    assert_eq!(CmdHealCheck::parse_meminfo_value("x 18446744073709551616"), 0);
}

#[test]
fn meminfo_takes_the_five_keys() {
    let text = "MemTotal:       16384 kB\nMemFree:         8192 kB\nMemAvailable:   12288 kB\nBuffers:          2048 kB\nCached:           4096 kB\nSwapCached:        1024 kB\n";
    let info = CmdHealCheck::new().parse_meminfo(text);
    assert_eq!(
        info,
        MemInfo {
            total_memory: 16,
            free_memory: 8,
            available_memory: 12,
            buffers_memory: 2,
            cached_memory: 4,
        }
    );
}

#[test]
fn meminfo_of_empty_record_is_zero() {
    let info = CmdHealCheck::new().parse_meminfo("");
    assert_eq!(
        info,
        MemInfo {
            total_memory: 0,
            free_memory: 0,
            available_memory: 0,
            buffers_memory: 0,
            cached_memory: 0,
        }
    );
}

#[test]
fn meminfo_last_line_of_a_key_counts() {
    let info = CmdHealCheck::new().parse_meminfo("MemTotal: 1024 kB\r\nMemTotal: 3072 kB");
    assert_eq!(info.total_memory, 3);
    let info = CmdHealCheck::new().parse_meminfo("MemTotal: 3072 kB\nMemTotal:\n");
    assert_eq!(info.total_memory, 0);
}

#[test]
fn meminfo_key_has_to_begin_the_line() {
    let info = CmdHealCheck::new().parse_meminfo(" MemTotal: 4096 kB\nSwapCached: 2048 kB\n");
    assert_eq!(info.total_memory, 0);
    assert_eq!(info.cached_memory, 0);
}

#[test]
fn service_pids_are_the_words_of_the_list() {
    let checker = CmdHealCheck::new();
    assert_eq!(checker.get_service_pids(&output(true, "12\n345\n6789\n", "")), Ok(vec![12, 345, 6789]));
    assert_eq!(checker.get_service_pids(&output(true, "", "")), Ok(vec![]));
    assert_eq!(checker.get_service_pids(&output(true, "  \n", "")), Ok(vec![]));
}

#[test]
fn service_pid_that_is_no_number_counts_as_zero() {
    let checker = CmdHealCheck::new();
    assert_eq!(
        checker.get_service_pids(&output(true, "12 x 4294967295 4294967296 -1", "")),
        Ok(vec![12, 0, 4294967295, 0, 0])
    );
}

#[test]
fn service_pids_of_a_failed_command() {
    let checker = CmdHealCheck::new();
    assert_eq!(
        checker.get_service_pids(&output(false, "12\n", "pgrep: bad usage")),
        Err(HealthError::CommandFailure)
    );
    assert_eq!(checker.get_service_pids(&ended(Some(2), "", "")), Err(HealthError::CommandFailure));
    assert_eq!(checker.get_service_pids(&ended(Some(3), "", "")), Err(HealthError::CommandFailure));
    assert_eq!(checker.get_service_pids(&ended(Some(-1), "", "")), Err(HealthError::CommandFailure));
    assert_eq!(checker.get_service_pids(&ended(None, "12\n", "")), Err(HealthError::CommandFailure));
    assert_eq!(
        checker.get_service_pids(&ended(Some(1), "", "pgrep: cannot read the process table")),
        Err(HealthError::CommandFailure)
    );
}

#[test]
fn service_pids_where_no_process_matches() {
    let checker = CmdHealCheck::new();
    assert_eq!(checker.get_service_pids(&ended(Some(1), "", "")), Ok(vec![]));
    assert_eq!(checker.get_service_pids(&ended(Some(1), "12\n", "")), Ok(vec![]));
}

#[test]
fn command_reports_success_with_the_exit_code_zero() {
    assert!(ended(Some(0), "", "").success());
    assert!(!ended(Some(1), "", "").success());
    assert!(!ended(None, "", "").success());
    assert!(ended(Some(1), "", "").ended_with(1));
    assert!(!ended(Some(0), "", "").ended_with(1));
    assert!(!ended(None, "", "").ended_with(0));
}

#[test]
fn disk_space_is_total_used_and_free() {
    let checker = CmdHealCheck::new();
    assert_eq!(
        checker.cmd_get_total_used_and_free_disk_space(&output(true, "1000 400\n", "")),
        Ok((1000, 600, 400))
    );
    assert_eq!(
        checker.cmd_get_total_used_and_free_disk_space(&output(true, " 102687672  51343836\n", "")),
        Ok((102687672, 51343836, 51343836))
    );
    assert_eq!(
        checker.cmd_get_total_used_and_free_disk_space(&output(true, "500 500", "")),
        Ok((500, 0, 500))
    );
    assert_eq!(
        checker.cmd_get_total_used_and_free_disk_space(&output(true, "500 0", "")),
        Ok((500, 500, 0))
    );
}

#[test]
fn disk_space_of_malformed_output() {
    let checker = CmdHealCheck::new();
    for text in ["", "1000", "1000 250 /", "Size Avail\n1000 250", "big 250", "1000 small", "250 1000"] {
        assert_eq!(
            checker.cmd_get_total_used_and_free_disk_space(&output(true, text, "")),
            Err(HealthError::ParseError),
            "output {:?}",
            text
        );
    }
}

#[test]
fn disk_space_of_a_failed_command() {
    let checker = CmdHealCheck::new();
    assert_eq!(
        checker.cmd_get_total_used_and_free_disk_space(&output(false, "1000 250", "df: no")),
        Err(HealthError::CommandFailure)
    );
}

#[test]
fn temperature_is_in_thousandths_of_a_degree() {
    let checker = CmdHealCheck::new();
    assert_eq!(checker.get_cpu_temperature("45123\n"), Ok(45123));
    assert_eq!(checker.get_cpu_temperature("  -5000  "), Ok(-5000));
    assert_eq!(checker.get_cpu_temperature("0"), Ok(0));
}

#[test]
fn temperature_of_a_malformed_record() {
    let checker = CmdHealCheck::new();
    for text in ["", "\n", "warm", "45 123", "45.5", "9223372036854775808"] {
        assert_eq!(checker.get_cpu_temperature(text), Err(HealthError::ParseError), "{:?}", text);
    }
}

#[test]
fn error_descriptions() {
    assert_eq!(HealthError::NotFound.describe("nginx"), "Service nginx not found");
    assert_eq!(HealthError::ParseError.describe("utime"), "Failed to parse utime");
    assert_eq!(HealthError::IoError.describe("/proc/uptime"), "Failed to read /proc/uptime");
    assert_eq!(
        HealthError::CommandFailure.describe("no such unit"),
        "Failed to execute command: no such unit"
    );
    assert_eq!(HealthError::OutOfRange.describe("nginx"), "Value out of range: nginx");
}
