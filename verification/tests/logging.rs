use logproject::channel::SendOutcome;
use logproject::level::LogLevel;
use logproject::logging::format_line;
use logproject::logging::make_log_line;
use logproject::logging::Logger;
use logproject::logging::LOG_CHANNEL_CAPACITY;

#[test]
fn level_tokens() {
    assert_eq!(LogLevel::Info.token(), "INFO");
    assert_eq!(LogLevel::Warn.token(), "WARN");
    assert_eq!(LogLevel::Error.token(), "ERROR");
}

#[test]
fn format_line_exact() {
    let line = format_line("2024-01-02 03:04:05.678", LogLevel::Info, "hello");
    assert_eq!(line, "[2024-01-02 03:04:05.678] [INFO] hello");
    let line = format_line("t", LogLevel::Warn, "");
    assert_eq!(line, "[t] [WARN] ");
    let line = format_line("t", LogLevel::Error, "x y z");
    assert_eq!(line, "[t] [ERROR] x y z");
}

#[test]
fn make_log_line_wraps_clock() {
    // The line is the wire format around a real timestamp: the message
    // is not handed back unchanged.
    let line = make_log_line(LogLevel::Info, "hello");
    assert_ne!(line, "hello");
    assert!(line.starts_with('['));
    assert!(line.ends_with("] [INFO] hello"));
    // `[` + timestamp of at least 23 characters + `] [INFO] hello`
    assert!(line.len() >= 1 + 23 + "] [INFO] hello".len());
}

#[test]
fn logger_capacity_is_the_fixed_constant() {
    assert_eq!(LOG_CHANNEL_CAPACITY, 1000);
}

#[test]
fn logger_sequential_calls_drain_in_order() {
    let mut lg = Logger::new();
    assert_eq!(lg.log_at("t0", LogLevel::Info, "first"), SendOutcome::Sent);
    assert_eq!(lg.log_at("t1", LogLevel::Warn, "second"), SendOutcome::Sent);
    assert_eq!(lg.log_at("t2", LogLevel::Error, "third"), SendOutcome::Sent);
    lg.close();
    let sink = lg.drain();
    assert_eq!(
        sink,
        vec![
            "[t0] [INFO] first".to_string(),
            "[t1] [WARN] second".to_string(),
            "[t2] [ERROR] third".to_string(),
        ]
    );
}

#[test]
fn logger_rejects_after_close() {
    let mut lg = Logger::new();
    lg.close();
    assert_eq!(lg.log_at("t", LogLevel::Info, "late"), SendOutcome::Closed);
    let sink = lg.drain();
    assert!(sink.is_empty());
}

#[test]
fn transaction_scenario_one_hundred_and_two_lines() {
    // Capacity-1000 log channel, no writer failures: 100 INFO calls, one
    // WARN, one ERROR, issued without concurrency.
    let mut lg = Logger::new();
    for i in 0..100 {
        let msg = format!("Processing transaction: UPI_TXN_{}", i);
        let outcome = lg.log_at("ts", LogLevel::Info, &msg);
        assert_eq!(outcome, SendOutcome::Sent);
    }
    assert_eq!(lg.log_at("ts", LogLevel::Warn, "Transaction lag detected."), SendOutcome::Sent);
    assert_eq!(
        lg.log_at("ts", LogLevel::Error, "Transaction failed due to timeout."),
        SendOutcome::Sent
    );
    lg.close();
    let sink = lg.drain();
    assert_eq!(sink.len(), 102);
    for i in 0..100 {
        assert_eq!(
            sink[i],
            format!("[ts] [INFO] Processing transaction: UPI_TXN_{}", i)
        );
    }
    assert_eq!(sink[100], "[ts] [WARN] Transaction lag detected.");
    assert_eq!(sink[101], "[ts] [ERROR] Transaction failed due to timeout.");
}

#[test]
fn logger_with_real_clock_keeps_order_and_count() {
    let mut lg = Logger::new();
    for i in 0..5 {
        let msg = format!("event {}", i);
        assert_eq!(lg.log(LogLevel::Info, &msg), SendOutcome::Sent);
    }
    lg.close();
    let sink = lg.drain();
    assert_eq!(sink.len(), 5);
    for (i, line) in sink.iter().enumerate() {
        assert!(line.starts_with('['));
        assert!(line.ends_with(&format!("] [INFO] event {}", i)));
    }
}
