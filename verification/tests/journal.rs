use systemd_doctor::cmd_health_check::CommandOutput;
use systemd_doctor::error::HealthError;
use systemd_doctor::journal_log::{LogStream, LogWriter, Watermark};

fn output(success: bool, stdout: &str, stderr: &str) -> CommandOutput {
    CommandOutput {
        code: if success { Some(0) } else { Some(1) },
        stdout: stdout.to_string(),
        stderr: stderr.to_string(),
    }
}

fn batch(text: &str) -> Result<String, HealthError> {
    Ok(text.to_string())
}

#[test]
fn watermark_starts_where_monitoring_starts() {
    let mark = Watermark::new(LogStream::Service("nginx".to_string()), 1_700_000_000);
    assert_eq!(mark.last_seen_at(), 1_700_000_000);
    assert_eq!(mark.stream(), &LogStream::Service("nginx".to_string()));
    assert_eq!(mark.since(), "@1700000000");
    assert_eq!(Watermark::new(LogStream::Kernel, 0).since(), "@0");
}

#[test]
fn watermark_moves_to_the_time_of_a_fetch_that_delivers() {
    let mut mark = Watermark::new(LogStream::Kernel, 100);
    assert_eq!(mark.settle(160, batch("May 17 kernel: up\n")), Some("May 17 kernel: up\n".to_string()));
    assert_eq!(mark.last_seen_at(), 160);
    assert_eq!(mark.stream(), &LogStream::Kernel);
}

#[test]
fn watermark_stays_after_a_failed_fetch() {
    let mut mark = Watermark::new(LogStream::Kernel, 100);
    for error in [
        HealthError::CommandFailure,
        HealthError::IoError,
        HealthError::ParseError,
        HealthError::NotFound,
        HealthError::OutOfRange,
    ] {
        assert_eq!(mark.settle(160, Err(error)), None);
        assert_eq!(mark.last_seen_at(), 100);
    }
}

#[test]
fn watermark_stays_after_an_empty_batch() {
    let mut mark = Watermark::new(LogStream::Kernel, 100);
    assert_eq!(mark.settle(160, batch("")), None);
    assert_eq!(mark.last_seen_at(), 100);
    assert_eq!(mark.since(), "@100");
}

#[test]
fn watermark_moves_after_any_batch_that_is_not_empty() {
    let mut mark = Watermark::new(LogStream::Kernel, 100);
    assert_eq!(mark.settle(170, batch("\n")), Some("\n".to_string()));
    assert_eq!(mark.last_seen_at(), 170);
    assert_eq!(mark.settle(180, batch(" ")), Some(" ".to_string()));
    assert_eq!(mark.last_seen_at(), 180);
}

#[test]
fn fetch_is_tried_again_from_the_same_place_after_an_error() {
    let mut mark = Watermark::new(LogStream::Kernel, 100);
    let first = mark.advance(130, |since| {
        assert_eq!(since, 100);
        Err(HealthError::CommandFailure)
    });
    assert_eq!(first, None);
    assert_eq!(mark.last_seen_at(), 100);
    let second = mark.advance(160, |since| {
        assert_eq!(since, 100);
        Ok("kernel: up\n".to_string())
    });
    assert_eq!(second, Some("kernel: up\n".to_string()));
    assert_eq!(mark.last_seen_at(), 160);
}

#[test]
fn watermark_never_moves_back_while_the_clock_does_not() {
    let mut mark = Watermark::new(LogStream::Service("db".to_string()), 50);
    let mut clock = 50;
    let outcomes = [batch("a"), Err(HealthError::CommandFailure), batch(""), batch("b"), batch("c")];
    for outcome in outcomes {
        let before = mark.last_seen_at();
        clock += 7;
        let _ = mark.settle(clock, outcome);
        assert!(mark.last_seen_at() >= before);
    }
    assert_eq!(mark.last_seen_at(), 85);
}

#[test]
fn watermark_follows_the_clock_when_it_is_set_back() {
    let mut mark = Watermark::new(LogStream::Kernel, 100);
    assert_eq!(mark.settle(40, batch("entry")), Some("entry".to_string()));
    assert_eq!(mark.last_seen_at(), 40);
}

#[test]
fn advance_fetches_since_the_watermark() {
    let mut mark = Watermark::new(LogStream::Kernel, 5);
    let delivered = mark.advance(9, |since| {
        assert_eq!(since, 5);
        Ok("entry\n".to_string())
    });
    assert_eq!(delivered, Some("entry\n".to_string()));
    assert_eq!(mark.last_seen_at(), 9);
    let delivered = mark.advance(12, |since| {
        assert_eq!(since, 9);
        Ok("more\n".to_string())
    });
    assert_eq!(delivered, Some("more\n".to_string()));
    assert_eq!(mark.last_seen_at(), 12);
}

#[test]
fn advance_leaves_the_watermark_after_a_failed_fetch() {
    let mut mark = Watermark::new(LogStream::Kernel, 5);
    assert_eq!(mark.advance(9, |_| Err(HealthError::CommandFailure)), None);
    assert_eq!(mark.last_seen_at(), 5);
    assert_eq!(mark.advance(10, |_| Ok(String::new())), None);
    assert_eq!(mark.last_seen_at(), 5);
    // The next fetch asks for the same stretch again.
    let _ = mark.advance(11, |since| {
        assert_eq!(since, 5);
        Err(HealthError::CommandFailure)
    });
}

#[test]
fn log_writer_keeps_its_path() {
    let writer = LogWriter::new("/var/log/health/journal.log");
    assert_eq!(writer.get_log_file_path(), "/var/log/health/journal.log");
}

#[test]
fn log_text_is_the_batch_and_a_line_feed() {
    let writer = LogWriter::new("journal.log");
    assert_eq!(writer.write_log("one\ntwo"), Some("one\ntwo\n".to_string()));
    assert_eq!(writer.write_log(" x"), Some(" x\n".to_string()));
    assert_eq!(writer.write_log("entry\n"), Some("entry\n\n".to_string()));
}

#[test]
fn log_text_of_a_blank_batch_is_nothing() {
    let writer = LogWriter::new("journal.log");
    assert_eq!(writer.write_log(""), None);
    assert_eq!(writer.write_log("  \n \t"), None);
}

#[test]
fn service_logs_are_asked_of_the_journal() {
    let logs = LogWriter::extract_service_logs("nginx", "@1700000000", |command| {
        assert_eq!(
            command,
            vec!["journalctl", "-u", "nginx", "--since", "@1700000000", "--no-pager"]
        );
        output(true, "May 17 nginx: started\n", "")
    });
    assert_eq!(logs, Ok("May 17 nginx: started\n".to_string()));
}

#[test]
fn kernel_logs_are_asked_of_the_journal() {
    let logs = LogWriter::extract_kernel_logs("@5", |command| {
        assert_eq!(command, vec!["journalctl", "-k", "--since", "@5", "--no-pager"]);
        output(true, "", "")
    });
    assert_eq!(logs, Ok(String::new()));
}

#[test]
fn logs_of_a_failed_command() {
    let logs = LogWriter::extract_service_logs("nginx", "x", |_| output(false, "partial", "bad time"));
    assert_eq!(logs, Err(HealthError::CommandFailure));
    let logs = LogWriter::extract_kernel_logs("x", |_| output(false, "", ""));
    assert_eq!(logs, Err(HealthError::CommandFailure));
    assert_eq!(LogWriter::logs_from(output(false, "text", "")), Err(HealthError::CommandFailure));
    assert_eq!(LogWriter::logs_from(output(true, "text", "warning")), Ok("text".to_string()));
}

#[test]
fn fetched_logs_move_the_watermark_and_go_to_the_log() {
    let writer = LogWriter::new("journal.log");
    let mut mark = Watermark::new(LogStream::Service("nginx".to_string()), 100);
    let since = mark.since();
    let fetched =
        LogWriter::extract_service_logs("nginx", since.as_str(), |_| output(true, "entry", ""));
    let delivered = mark.settle(130, fetched);
    assert_eq!(mark.last_seen_at(), 130);
    assert_eq!(writer.write_log(delivered.unwrap().as_str()), Some("entry\n".to_string()));
}
