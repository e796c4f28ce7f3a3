use rstiny::logging::{log_init, Delivery, Level, LogConfig, LogSink, Sink};

#[test]
fn levels_are_ordered_by_severity() {
    assert_eq!(Level::Trace.severity(), 0);
    assert_eq!(Level::Debug.severity(), 1);
    assert_eq!(Level::Info.severity(), 2);
    assert_eq!(Level::Warn.severity(), 3);
    assert_eq!(Level::Error.severity(), 4);
    assert!(Level::Error.at_least(Level::Info));
    assert!(Level::Info.at_least(Level::Info));
    assert!(!Level::Debug.at_least(Level::Info));
}

#[test]
fn level_names_parse_back() {
    for level in [Level::Trace, Level::Debug, Level::Info, Level::Warn, Level::Error] {
        assert_eq!(Level::parse(level.name()), Some(level));
    }
    assert_eq!(Level::parse("info"), Some(Level::Info));
    assert_eq!(Level::parse("INFO"), None);
    assert_eq!(Level::parse(""), None);
    assert_eq!(Level::parse("off"), None);
}

#[test]
fn sink_before_init_is_not_ready() {
    let sink = LogSink::uninstalled();
    assert!(!sink.is_ready());
    assert!(!sink.passes(Level::Error));
    assert!(matches!(sink.submit(Level::Error, String::from("lost")), Delivery::NotReady));
}

#[test]
fn sink_forwards_at_or_above_the_threshold() {
    let sink = log_init(LogConfig { minimum_level: Level::Info, sink: Sink::Console });
    assert!(sink.is_ready());
    match sink.submit(Level::Info, String::from("at the threshold")) {
        Delivery::Forwarded(line) => {
            assert_eq!(line.level, Level::Info);
            assert_eq!(line.text, "at the threshold");
        }
        other => panic!("not forwarded: {:?}", other),
    }
    assert!(matches!(sink.submit(Level::Warn, String::from("above")), Delivery::Forwarded(_)));
    assert!(matches!(sink.submit(Level::Debug, String::from("below")), Delivery::Discarded));
    assert!(matches!(sink.submit(Level::Trace, String::from("below")), Delivery::Discarded));
}
