use phipsboot::logger::format_and_write_log_msg;
use phipsboot::logger::Backend;
use phipsboot::logger::Level;
use phipsboot::logger::LoggerFacade;
use phipsboot::logger::Record;

/// The record the logger tests feed in: level `Debug`, origin
/// `demo.rs:42`, message `a=13, b=73`.
fn demo_record() -> Record {
    Record::new(
        Level::Debug,
        Some("demo.rs".to_string()),
        Some(42),
        format!("a={}, b={}", 13, 73),
    )
}

const DEMO_LINE: &str = "[DEBUG demo.rs@42]: a=13, b=73\n";

#[test]
fn logger_add_backend() {
    let mut logger = LoggerFacade::new();
    assert_eq!(logger.backends().len(), 0);
    logger.add_backend(Backend::new("stdout")).unwrap();
    assert_eq!(logger.backends().len(), 1);
}

#[test]
fn logger_add_same_backend_twice_fails() {
    let mut logger = LoggerFacade::new();
    logger.add_backend(Backend::new("stdout")).unwrap();
    logger.add_backend(Backend::new("stdout")).unwrap_err();
    assert_eq!(logger.backends().len(), 1);
}

#[test]
fn logger_add_multiple_backends() {
    let mut logger = LoggerFacade::new();
    logger.add_backend(Backend::new("stdout")).unwrap();
    logger.add_backend(Backend::new("buffering")).unwrap();
    assert_eq!(logger.backends().len(), 2);
}

#[test]
fn logger_rejected_backend_is_handed_back() {
    let mut logger = LoggerFacade::new();
    logger.add_backend(Backend::new("stdout")).unwrap();
    let err = logger.add_backend(Backend::new("stdout")).unwrap_err();
    assert_eq!(err.0.name(), "stdout");
}

#[test]
fn logger_log_msgs_are_buffered() {
    let mut logger = LoggerFacade::new();
    logger.add_backend(Backend::new("stdout")).unwrap();

    assert_eq!(logger.buffered_msg_count(), Some(0));
    logger.log_or_buffer_record(&demo_record());
    assert_eq!(logger.buffered_msg_count(), Some(1));
}

#[test]
fn logger_msgs_are_in_right_format() {
    let mut logger = LoggerFacade::new();
    logger.add_backend(Backend::new("stdout")).unwrap();

    assert_eq!(logger.buffered_msg_count(), Some(0));
    logger.log_or_buffer_record(&demo_record());
    assert_eq!(logger.buffered_msgs()[0], DEMO_LINE);
}

#[test]
fn logger_log_msgs_arent_buffered_after_initial_flush() {
    let mut logger = LoggerFacade::new();
    logger.add_backend(Backend::new("stdout")).unwrap();
    logger.do_handover_to_backends();

    assert_eq!(logger.buffered_msg_count(), None);
    logger.log_or_buffer_record(&demo_record());
    assert_eq!(logger.buffered_msg_count(), None);
}

#[test]
fn logger_buffered_log_msgs_are_forwarded_to_backend_after_initial_lush() {
    let mut logger = LoggerFacade::new();
    logger.add_backend(Backend::new("buffering")).unwrap();

    logger.log_or_buffer_record(&demo_record());
    logger.do_handover_to_backends();

    assert_eq!(logger.backends()[0].received().join(""), DEMO_LINE);
}

#[test]
fn logger_new_log_msgs_are_forwarded_to_backend_after_initial_flush() {
    let mut logger = LoggerFacade::new();
    logger.add_backend(Backend::new("buffering")).unwrap();
    logger.do_handover_to_backends();

    logger.log_or_buffer_record(&demo_record());

    assert_eq!(logger.backends()[0].received().join(""), DEMO_LINE);
}

#[test]
fn add_backend() {
    let mut logger = LoggerFacade::new();
    assert_eq!(logger.backends().len(), 0);
    logger.add_backend(Backend::new("stdout")).unwrap();
    assert_eq!(logger.backends().len(), 1);
}

#[test]
fn add_same_backend_twice_fails() {
    let mut logger = LoggerFacade::new();
    logger.add_backend(Backend::new("stdout")).unwrap();
    logger.add_backend(Backend::new("stdout")).unwrap_err();
    assert_eq!(logger.backends().len(), 1);
}

#[test]
fn add_multiple_backends() {
    let mut logger = LoggerFacade::new();
    logger.add_backend(Backend::new("stdout")).unwrap();
    logger.add_backend(Backend::new("buffering")).unwrap();
    assert_eq!(logger.backends().len(), 2);
}

#[test]
fn log_msgs_are_buffered() {
    let mut logger = LoggerFacade::new();
    logger.add_backend(Backend::new("stdout")).unwrap();

    assert_eq!(logger.buffered_msg_count(), Some(0));
    logger.log_or_buffer_record(&demo_record());
    assert_eq!(logger.buffered_msg_count(), Some(1));
}

#[test]
fn msgs_are_in_right_format() {
    let mut logger = LoggerFacade::new();
    logger.add_backend(Backend::new("stdout")).unwrap();

    assert_eq!(logger.buffered_msg_count(), Some(0));
    logger.log_or_buffer_record(&demo_record());
    assert_eq!(logger.buffered_msgs()[0], DEMO_LINE);
}

#[test]
fn log_msgs_arent_buffered_after_initial_flush() {
    let mut logger = LoggerFacade::new();
    logger.add_backend(Backend::new("stdout")).unwrap();
    logger.do_handover_to_backends();

    assert_eq!(logger.buffered_msg_count(), None);
    logger.log_or_buffer_record(&demo_record());
    assert_eq!(logger.buffered_msg_count(), None);
}

#[test]
fn buffered_log_msgs_are_forwarded_to_backend_after_initial_lush() {
    let mut logger = LoggerFacade::new();
    logger.add_backend(Backend::new("buffering")).unwrap();

    logger.log_or_buffer_record(&demo_record());
    logger.do_handover_to_backends();

    assert_eq!(logger.backends()[0].received().join(""), DEMO_LINE);
}

#[test]
fn new_log_msgs_are_forwarded_to_backend_after_initial_flush() {
    let mut logger = LoggerFacade::new();
    logger.add_backend(Backend::new("buffering")).unwrap();
    logger.do_handover_to_backends();

    logger.log_or_buffer_record(&demo_record());

    assert_eq!(logger.backends()[0].received().join(""), DEMO_LINE);
}

#[test]
fn logger_three_records_replay_in_order_then_live() {
    let mut logger = LoggerFacade::new();
    for msg in ["first", "second", "third"] {
        logger.log_or_buffer_record(&Record::new(
            Level::Info,
            Some("boot.rs".to_string()),
            Some(7),
            msg.to_string(),
        ));
    }
    logger.add_backend(Backend::new("stdout")).unwrap();
    logger.flush();

    let expected = vec![
        "[ INFO boot.rs@7]: first\n".to_string(),
        "[ INFO boot.rs@7]: second\n".to_string(),
        "[ INFO boot.rs@7]: third\n".to_string(),
    ];
    assert_eq!(logger.backends()[0].received(), &expected);

    logger.log_or_buffer_record(&Record::new(
        Level::Info,
        Some("boot.rs".to_string()),
        Some(8),
        "fourth".to_string(),
    ));
    let mut expected = expected;
    expected.push("[ INFO boot.rs@8]: fourth\n".to_string());
    assert_eq!(logger.backends()[0].received(), &expected);
}

#[test]
fn logger_flush_twice_is_a_noop() {
    let mut logger = LoggerFacade::new();
    logger.add_backend(Backend::new("stdout")).unwrap();
    logger.log_or_buffer_record(&demo_record());
    logger.flush();
    let after_first: Vec<String> = logger.backends()[0].received().clone();
    logger.flush();
    assert_eq!(logger.backends()[0].received(), &after_first);
    assert_eq!(logger.buffered_msg_count(), None);
}

#[test]
fn logger_unknown_origin_falls_back_to_placeholders() {
    let mut logger = LoggerFacade::new();
    logger.log_or_buffer_record(&Record::new(Level::Warn, None, None, "lost".to_string()));
    assert_eq!(logger.buffered_msgs()[0], "[ WARN <unknown>@0]: lost\n");
}

#[test]
fn logger_levels_render_right_aligned() {
    let mut logger = LoggerFacade::new();
    let levels = [
        (Level::Error, "[ERROR x@1]: m\n"),
        (Level::Warn, "[ WARN x@1]: m\n"),
        (Level::Info, "[ INFO x@1]: m\n"),
        (Level::Debug, "[DEBUG x@1]: m\n"),
        (Level::Trace, "[TRACE x@1]: m\n"),
    ];
    for (level, expected) in levels {
        logger.log_or_buffer_record(&Record::new(
            level,
            Some("x".to_string()),
            Some(1),
            "m".to_string(),
        ));
        let msgs = logger.buffered_msgs();
        assert_eq!(msgs[msgs.len() - 1], *expected);
    }
}

#[test]
fn logger_line_numbers_render_in_decimal() {
    let mut logger = LoggerFacade::new();
    for line in [4294967295, 10, 100, 7] {
        logger.log_or_buffer_record(&Record::new(
            Level::Info,
            Some("x".to_string()),
            Some(line),
            "m".to_string(),
        ));
    }
    let msgs = logger.buffered_msgs();
    assert_eq!(msgs[0], "[ INFO x@4294967295]: m\n");
    assert_eq!(msgs[1], "[ INFO x@10]: m\n");
    assert_eq!(msgs[2], "[ INFO x@100]: m\n");
    assert_eq!(msgs[3], "[ INFO x@7]: m\n");
}

#[test]
fn logger_formatter_appends_to_the_writer() {
    let mut writer = String::from("already ");
    format_and_write_log_msg(&mut writer, &demo_record());
    assert_eq!(writer, "already [DEBUG demo.rs@42]: a=13, b=73\n");
}

#[test]
fn logger_delivery_reaches_every_backend() {
    let mut logger = LoggerFacade::new();
    logger.add_backend(Backend::new("serial")).unwrap();
    logger.add_backend(Backend::new("debugcon")).unwrap();
    logger.flush();
    logger.log_or_buffer_record(&demo_record());
    assert_eq!(logger.backends()[0].received().join(""), DEMO_LINE);
    assert_eq!(logger.backends()[1].received().join(""), DEMO_LINE);
    assert_eq!(logger.backends()[0].name(), "serial");
    assert_eq!(logger.backends()[1].name(), "debugcon");
}
