use dqcsim::log::{deinit, init, log_at, Log, Loglevel, LoglevelFilter, Record, ThreadLogger};
use std::cell::RefCell;

struct Collector {
    name: String,
    records: RefCell<Vec<Record>>,
}

impl Log for Collector {
    // A predicate for the verifier: every record passed to `log` is kept.
    fn received(&self, _record: Record) -> bool {
        true
    }
    // A predicate for the verifier: the collector goes by its own name.
    fn named(&self, name: &str) -> bool {
        name == self.name
    }
    fn name(&self) -> &str {
        &self.name
    }
    fn log(&self, record: Record) {
        self.records.borrow_mut().push(record);
    }
}

fn collector(name: &str) -> Collector {
    Collector { name: name.to_string(), records: RefCell::new(Vec::new()) }
}

#[test]
fn level_order() {
    assert!(Loglevel::Debug < Loglevel::Trace);
    assert!(Loglevel::Info < Loglevel::Debug);
    assert!(Loglevel::Note < Loglevel::Info);
    assert!(Loglevel::Warn < Loglevel::Note);
    assert!(Loglevel::Error < Loglevel::Warn);
    assert!(Loglevel::Fatal < Loglevel::Error);
    assert!(LoglevelFilter::Off < LoglevelFilter::from(Loglevel::Fatal));
}

#[test]
fn level_values_follow_order() {
    let levels = [
        Loglevel::Fatal,
        Loglevel::Error,
        Loglevel::Warn,
        Loglevel::Note,
        Loglevel::Info,
        Loglevel::Debug,
        Loglevel::Trace,
    ];
    for (i, l) in levels.iter().enumerate() {
        assert_eq!(l.value() as usize, i + 1);
        assert_eq!(LoglevelFilter::from(*l).value(), l.value());
    }
    assert_eq!(LoglevelFilter::Off.value(), 0);
}

#[test]
fn try_from_filter() {
    assert_eq!(Loglevel::try_from(LoglevelFilter::Off), Err(()));
    assert_eq!(Loglevel::try_from(LoglevelFilter::Fatal), Ok(Loglevel::Fatal));
    assert_eq!(Loglevel::try_from(LoglevelFilter::Note), Ok(Loglevel::Note));
    assert_eq!(Loglevel::try_from(LoglevelFilter::Trace), Ok(Loglevel::Trace));
    for l in [Loglevel::Fatal, Loglevel::Error, Loglevel::Warn, Loglevel::Note, Loglevel::Info, Loglevel::Debug, Loglevel::Trace] {
        assert_eq!(Loglevel::try_from(LoglevelFilter::from(l)), Ok(l));
    }
}

#[test]
fn fresh_state_logs_nothing() {
    let state: ThreadLogger<Collector> = ThreadLogger::new();
    assert!(state.logger.is_none());
    assert_eq!(state.level, LoglevelFilter::Off);
    assert!(!state.enabled(Loglevel::Fatal));
    assert!(!log_at(&state, Loglevel::Fatal, "x".to_string(), "m".to_string(), "f.rs".to_string(), 1, 2, 3));
}

#[test]
fn init_filters_by_level() {
    let mut state = ThreadLogger::new();
    assert!(init(&mut state, collector("main"), LoglevelFilter::Note).is_ok());
    assert!(state.enabled(Loglevel::Fatal));
    assert!(state.enabled(Loglevel::Note));
    assert!(!state.enabled(Loglevel::Info));
    assert!(log_at(&state, Loglevel::Warn, "hello".to_string(), "mod::path".to_string(), "src/a.rs".to_string(), 12, 34, 56));
    assert!(!log_at(&state, Loglevel::Debug, "quiet".to_string(), "mod::path".to_string(), "src/a.rs".to_string(), 13, 34, 56));
    let records = state.logger.as_ref().unwrap().records.borrow();
    assert_eq!(records.len(), 1);
    let r = &records[0];
    assert_eq!(r.payload(), "hello");
    assert_eq!(r.level(), Loglevel::Warn);
    assert_eq!(r.module(), Some("mod::path"));
    assert_eq!(r.file(), Some("src/a.rs"));
    assert_eq!(r.line(), Some(12));
    assert_eq!(r.process(), 34);
    assert_eq!(r.thread(), 56);
    assert_eq!(r.logger(), "main");
    assert_eq!(r.to_string(), "hello");
}

#[test]
fn deinit_stops_logging() {
    let mut state = ThreadLogger::new();
    init(&mut state, collector("main"), LoglevelFilter::Trace).unwrap();
    assert!(state.enabled(Loglevel::Trace));
    assert!(deinit(&mut state).is_ok());
    assert!(state.logger.is_none());
    assert_eq!(state.level, LoglevelFilter::Off);
    assert!(!log_at(&state, Loglevel::Fatal, "x".to_string(), "m".to_string(), "f".to_string(), 1, 1, 1));
}

#[test]
fn record_log_needs_logger() {
    let mut state = ThreadLogger::new();
    assert!(!Record::log(&state, "a".to_string(), Loglevel::Info, "m".to_string(), "f".to_string(), 1, 2, 3));
    assert!(Record::for_logger(&state, "a".to_string(), Loglevel::Info, "m".to_string(), "f".to_string(), 1, 2, 3).is_none());
    init(&mut state, collector("proxy"), LoglevelFilter::Off).unwrap();
    // Record::log does not filter by level; the level check is log_at's.
    assert!(Record::log(&state, "a".to_string(), Loglevel::Info, "m".to_string(), "f".to_string(), 1, 2, 3));
    assert!(!log_at(&state, Loglevel::Fatal, "b".to_string(), "m".to_string(), "f".to_string(), 1, 2, 3));
    let rec = Record::for_logger(&state, "c".to_string(), Loglevel::Trace, "m".to_string(), "f".to_string(), 9, 8, 7).unwrap();
    assert_eq!(rec.logger(), "proxy");
    assert_eq!(rec.line(), Some(9));
    assert_eq!(state.logger.as_ref().unwrap().records.borrow().len(), 1);
}

#[test]
fn record_new_keeps_fields() {
    let t = std::time::SystemTime::UNIX_EPOCH;
    let r = Record::new("p".to_string(), Loglevel::Error, None, Some("f.rs".to_string()), None, t, 1, 2, "l".to_string());
    assert_eq!(r.payload(), "p");
    assert_eq!(r.level(), Loglevel::Error);
    assert_eq!(r.module(), None);
    assert_eq!(r.file(), Some("f.rs"));
    assert_eq!(r.line(), None);
    assert_eq!(r.timestamp(), t);
    assert_eq!(r.process(), 1);
    assert_eq!(r.thread(), 2);
    assert_eq!(r.logger(), "l");
    let c = r.clone();
    assert_eq!(c.timestamp(), t);
    assert_eq!(c.payload(), "p");
}
