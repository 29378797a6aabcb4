use prettylogger::Logger;
use prettylogger::config::{LogStruct, LogType, OnDropPolicy};
use prettylogger::format::LogFormatter;
use prettylogger::output::{BufferStream, FileStream, Toggleable};

// Check if log buffering is working fine
#[test]
fn log_buffering() {
    let log = LogStruct::debug("example debug message");
    let n: usize = 300;
    let mut bo: BufferStream;

    bo = BufferStream::default();
    bo.enable();
    for _ in 0..n {
        bo.out(&log);
    }

    assert!(n == bo.log_buffer.len());

    for bo_log in bo.log_buffer {
        assert!(bo_log == log);
    }
}

// A disabled buffer stream stores nothing; clearing empties it
#[test]
fn buffer_stream_disabled_and_clear() {
    let log = LogStruct::info("dropped");
    let mut bo = BufferStream::default();
    bo.out(&log);
    assert_eq!(bo.get_log_buffer().len(), 0);

    bo.enable();
    bo.out(&log);
    bo.out(&log);
    assert_eq!(bo.get_log_buffer().len(), 2);
    bo.clear();
    assert_eq!(bo.get_log_buffer().len(), 0);
    assert!(*bo.is_enabled());
}

// A file stream refuses everything while disabled
#[test]
fn file_stream_disabled_errors() {
    let log = LogStruct::debug("example debug message");
    let mut formatter = LogFormatter::default();
    let mut fo = FileStream::default();

    let out_err = fo.out(&log, &mut formatter).unwrap_err();
    assert_eq!(out_err.message, "Output disabled!");
    let flush_err = fo.flush().unwrap_err();
    assert_eq!(flush_err.message, "Output not enabled!");
    assert!(fo.internal_flush(true).is_err());
    assert_eq!(fo.log_buffer.len(), 0);
}

// Flushing an empty queue is an error of its own
#[test]
fn file_stream_empty_flush() {
    let mut fo = FileStream::default();
    fo.set_log_file_path("app.log", true).expect("Failed to set the log file path!");
    fo.enable(true).expect("Failed to enable file output!");
    let err = fo.flush().unwrap_err();
    assert_eq!(err.message, "Log buffer is empty!");
}

// With max_buffer_size = N, the N-th accepted line hands the whole queue back
// in arrival order, and the next line starts a fresh queue
#[test]
fn flush_threshold() {
    let n: usize = 3;
    let mut formatter = LogFormatter::default();
    formatter.toggle_log_header_color(false);
    let mut fo = FileStream::default();
    fo.set_max_buffer_size(Some(n));
    fo.set_log_file_path("app.log", true).expect("Failed to set the log file path!");
    fo.enable(true).expect("Failed to enable file output!");

    // The simulated log file: every payload handed back is appended here
    let mut file = String::new();

    for i in 0..n {
        let log = LogStruct::error(&format!("line {}", i));
        let payload = fo.out(&log, &mut formatter).expect("Failed to out to a file output!");
        if i + 1 < n {
            assert!(payload.is_none());
            assert_eq!(fo.log_buffer.len(), i + 1);
        } else {
            // The N-th call flushes exactly the N lines, in call order
            let p = payload.expect("The threshold flush did not fire!");
            assert_eq!(p, "[ERR] line 0\n[ERR] line 1\n[ERR] line 2\n");
            file.push_str(&p);
            assert_eq!(fo.log_buffer.len(), 0);
        }
    }
    assert_eq!(file, "[ERR] line 0\n[ERR] line 1\n[ERR] line 2\n");

    // The N+1-th call sits in memory; the file is unchanged
    let log = LogStruct::error("line 3");
    let payload = fo.out(&log, &mut formatter).expect("Failed to out to a file output!");
    assert!(payload.is_none());
    assert_eq!(fo.log_buffer.len(), 1);
    assert_eq!(file, "[ERR] line 0\n[ERR] line 1\n[ERR] line 2\n");
}

// A threshold of None disables automatic flushing: only a manual flush drains
#[test]
fn manual_flush_only() {
    let mut formatter = LogFormatter::default();
    formatter.toggle_log_header_color(false);
    let mut fo = FileStream::default();
    fo.set_max_buffer_size(None);
    fo.set_log_file_path("app.log", true).expect("Failed to set the log file path!");
    fo.enable(true).expect("Failed to enable file output!");

    for i in 0..200 {
        let log = LogStruct::warning(&format!("w{}", i));
        assert!(fo.out(&log, &mut formatter).unwrap().is_none());
    }
    assert_eq!(fo.log_buffer.len(), 200);

    let payload = fo.flush().expect("Failed to flush the file output!");
    assert!(payload.starts_with("[WAR] w0\n[WAR] w1\n"));
    assert!(payload.ends_with("[WAR] w199\n"));
    assert_eq!(fo.log_buffer.len(), 0);
}

// With the stream locked, out() always succeeds and grows the queue; flush()
// always fails with a "locked" error
#[test]
fn lock_semantics() {
    let log = LogStruct::debug("example debug message");
    let mut formatter = LogFormatter::default();
    let mut fo = FileStream::default();
    fo.set_max_buffer_size(Some(1));
    fo.set_log_file_path("app.log", true).expect("Failed to set the log file path!");
    fo.enable(true).expect("Failed to enable file output!");
    fo.lock_file();

    // The threshold is 1, but the lock swallows every automatic flush
    for i in 0..5 {
        let payload = fo.out(&log, &mut formatter).expect("out() must succeed while locked!");
        assert!(payload.is_none());
        assert_eq!(fo.log_buffer.len(), i + 1);
    }

    let err = fo.flush().unwrap_err();
    assert_eq!(err.message, "Lock is enabled.");
    assert_eq!(fo.log_buffer.len(), 5);

    // Unlocking lets a manual flush drain everything at once
    fo.unlock_file();
    let payload = fo.flush().expect("Failed to flush the file output!");
    assert_eq!(payload.matches("example debug message").count(), 5);
    assert_eq!(fo.log_buffer.len(), 0);
}

// The drop-time flush respects the drop policy: DiscardLogBuffer loses the
// lines while locked, IgnoreLogFileLock writes them anyway
#[test]
fn drop_flush_policy() {
    let log = LogStruct::debug("example debug message");
    let mut formatter = LogFormatter::default();

    // Policy: respect the lock -> the buffered lines are lost
    let mut fo = FileStream::default();
    fo.set_max_buffer_size(None);
    fo.set_log_file_path("app.log", true).expect("Failed to set the log file path!");
    fo.enable(true).expect("Failed to enable file output!");
    fo.set_on_drop_policy(OnDropPolicy::DiscardLogBuffer);
    fo.lock_file();
    fo.out(&log, &mut formatter).expect("Failed to out to a file output!");
    let e = fo.internal_flush(true).unwrap_err();
    assert_eq!(e.message, "Lock is enabled and on drop policy set to 'DiscardLogBuffer'!");
    assert!(fo.drop_flush().is_none());
    assert_eq!(fo.log_buffer.len(), 1);

    // Policy: ignore the lock -> the lines are written anyway
    fo.set_on_drop_policy(OnDropPolicy::IgnoreLogFileLock);
    let payload = fo.drop_flush().expect("The drop flush must write under IgnoreLogFileLock!");
    assert!(payload.contains("example debug message"));
    assert_eq!(fo.log_buffer.len(), 0);

    // Unlocked, the drop flush writes under either policy
    let mut unlocked = FileStream::default();
    unlocked.set_max_buffer_size(None);
    unlocked.set_log_file_path("app.log", true).expect("Failed to set the log file path!");
    unlocked.enable(true).expect("Failed to enable file output!");
    unlocked.out(&log, &mut formatter).expect("Failed to out to a file output!");
    assert!(unlocked.drop_flush().is_some());
}

// The stream validates writability when the path is set and when it is
// enabled, and disables itself after a reported append failure
#[test]
fn enable_and_failure_handling() {
    let mut fo = FileStream::default();
    let err = fo.set_log_file_path("/no/such/dir/app.log", false).unwrap_err();
    assert_eq!(err.message, "File is not writable!");
    assert!(fo.enable(false).is_err());
    assert!(!*fo.is_enabled());

    fo.set_log_file_path("app.log", true).expect("Failed to set the log file path!");
    fo.enable(true).expect("Failed to enable file output!");
    assert!(*fo.is_enabled());
    // Enabling an already enabled stream is a no-op success
    assert!(fo.enable(false).is_ok());

    fo.report_append_failure();
    assert!(!*fo.is_enabled());

    fo.disable();
    assert!(!*fo.is_enabled());
}

// End-to-end: a default logger renders an error as "[ERR] <msg>\n" with the
// default error color applied, delivers it to the enabled sinks, and, with
// file output enabled and unlocked, the same rendered line is due on the file
#[test]
fn end_to_end_default_error() {
    let mut logger = Logger::default();
    logger.output.buffer_output.enable();

    let rendered = logger.formatter.format_log(&LogStruct::error("disk full"));
    assert_eq!(rendered, "[\x1b[31mERR\x1b[0m] disk full\n");

    // The file sink is disabled by default: nothing is due on the file
    let payload = logger.error("disk full");
    assert!(payload.is_none());

    // The buffer sink received the raw event
    let buffer = logger.output.buffer_output.get_log_buffer();
    assert_eq!(buffer.len(), 1);
    assert_eq!(buffer[0].message, "disk full");
    assert_eq!(buffer[0].log_type, LogType::Error);

    // With file output enabled, unlocked, and a threshold of 1, the same
    // rendered line comes back as the payload to append to the file
    logger.output.file_output.set_log_file_path("app.log", true)
        .expect("Failed to set the log file path!");
    logger.output.file_output.enable(true).expect("Failed to enable file output!");
    logger.output.file_output.set_max_buffer_size(Some(1));
    let payload = logger.error("disk full");
    assert_eq!(payload.expect("File payload expected!"), "[\x1b[31mERR\x1b[0m] disk full\n");
}

// Suppressed severities do not reach any sink; errors always do
#[test]
fn logger_filtering_reaches_sinks() {
    let mut logger = Logger::default();
    logger.output.buffer_output.enable();

    // Standard verbosity filters debug logs out
    assert!(logger.debug("hidden").is_none());
    assert_eq!(logger.output.buffer_output.get_log_buffer().len(), 0);

    // The unfiltered variant bypasses the threshold
    logger.debug_no_filtering("forced");
    assert_eq!(logger.output.buffer_output.get_log_buffer().len(), 1);

    logger.info("shown");
    logger.warning("shown");
    logger.error("shown");
    logger.fatal("shown");
    assert_eq!(logger.output.buffer_output.get_log_buffer().len(), 5);

    logger.info_no_filtering("forced");
    logger.warning_no_filtering("forced");
    assert_eq!(logger.output.buffer_output.get_log_buffer().len(), 7);
}

// The logger-level shutdown flush drains the file queue
#[test]
fn logger_drop_flush() {
    let mut logger = Logger::default();
    logger.formatter.toggle_log_header_color(false);
    logger.output.file_output.set_log_file_path("app.log", true)
        .expect("Failed to set the log file path!");
    logger.output.file_output.enable(true).expect("Failed to enable file output!");
    logger.output.file_output.set_max_buffer_size(None);

    logger.error("one");
    logger.error("two");
    let payload = logger.drop_flush().expect("The shutdown flush must write!");
    assert_eq!(payload, "[ERR] one\n[ERR] two\n");
    assert!(logger.drop_flush().is_none());
}

// A threshold of zero flushes every accepted line at once
#[test]
fn zero_threshold_flushes_every_line() {
    let mut formatter = LogFormatter::default();
    formatter.toggle_log_header_color(false);
    let mut fo = FileStream::default();
    fo.set_max_buffer_size(Some(0));
    fo.set_log_file_path("app.log", true).expect("Failed to set the log file path!");
    fo.enable(true).expect("Failed to enable file output!");

    let log = LogStruct::info("every line");
    let payload = fo.out(&log, &mut formatter).expect("Failed to out to a file output!");
    assert_eq!(payload.expect("Expected an immediate flush!"), "[INF] every line\n");
    assert_eq!(fo.log_buffer.len(), 0);
}

// A disabled dispatch point delivers to no sink at all
#[test]
fn disabled_output_delivers_nothing() {
    let mut logger = Logger::default();
    logger.output.buffer_output.enable();
    logger.output.disable();

    assert!(logger.error("nobody hears this").is_none());
    assert_eq!(logger.output.buffer_output.get_log_buffer().len(), 0);

    logger.output.enable();
    logger.error("heard");
    assert_eq!(logger.output.buffer_output.get_log_buffer().len(), 1);
}
