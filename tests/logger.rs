use galacta_logger::level::{Level, LevelFilter};
use galacta_logger::logger::{scope_target, select_max_level, AlreadyRegisteredError, CallSite, GalactaLogger};
use galacta_logger::render::{decimal_string, format_record, render, LogRecord};

fn record(level: Level, target: &str, message: &str) -> LogRecord {
    LogRecord {
        level,
        target: target.to_string(),
        message: message.to_string(),
        module: Some("galacta_logger::tests".to_string()),
        file: Some("src/lib.rs".to_string()),
        line: Some(196),
    }
}

fn site(marker: &str) -> CallSite {
    CallSite {
        marker_type_name: marker.to_string(),
        module: Some("galacta_logger::tests".to_string()),
        file: Some("src/lib.rs".to_string()),
        line: Some(215),
    }
}

const LEVELS: [Level; 5] = [Level::Error, Level::Warn, Level::Info, Level::Debug, Level::Trace];
const FILTERS: [LevelFilter; 6] = [
    LevelFilter::Off,
    LevelFilter::Error,
    LevelFilter::Warn,
    LevelFilter::Info,
    LevelFilter::Debug,
    LevelFilter::Trace,
];

#[test]
fn test_log_first_use() {
    let mut logger = GalactaLogger::new();
    let _result = logger.init(None, LevelFilter::Trace);
    let first = logger.log(&record(Level::Info, "galacta_logger::tests", "This is first log test"));
    assert!(first.unwrap().contains("This is first log test"));
    let other = logger.log(&record(
        Level::Info,
        "galacta_logger::tests::another_module",
        "This is from another function",
    ));
    assert!(other.unwrap().contains("] [INFO] galacta_logger::tests::another_module\n"));
    assert!(logger.log(&record(Level::Info, "galacta_logger::tests", "This is info")).is_some());
    let warn = logger.log(&record(Level::Warn, "galacta_logger::tests", "This is warn"));
    assert!(warn.unwrap().contains("] [WARN] galacta_logger::tests\nThis is warn\n"));
}

#[test]
fn test_log_env_level_max() {
    let mut logger = GalactaLogger::new();
    let _result = logger.init(None, LevelFilter::Trace);
    let target = "test_log_env_level_max()";
    let cases = [
        (Level::Error, "This is error"),
        (Level::Warn, "This is warning"),
        (Level::Info, "This is information"),
        (Level::Debug, "This is debug information"),
        (Level::Trace, "This is trace information"),
    ];
    for (level, message) in cases {
        let out = logger.log(&record(level, target, message)).unwrap();
        assert!(out.contains(&format!("] {}\n{}\n", target, message)));
    }
}

fn errfunc(logger: &mut GalactaLogger) -> Option<String> {
    logger.gerror(None, &site("galacta_logger::tests::test_gdebug::errfunc::Dummy"), "This is gerror")
}

#[test]
fn test_gdebug() {
    let mut logger = GalactaLogger::new();
    let out = errfunc(&mut logger).unwrap();
    assert!(out.contains("] [ERROR] galacta_logger::tests::test_gdebug::errfunc\nThis is gerror\n"));
    let here = site("galacta_logger::tests::test_gdebug::Dummy");
    let out = logger.gdebug(None, &here, "This is gdebug").unwrap();
    assert!(out.contains("] [DEBUG] galacta_logger::tests::test_gdebug\nThis is gdebug\n"));
    let out = logger.gwarn(None, &here, "This is gwarn").unwrap();
    assert!(out.contains("] [WARN] galacta_logger::tests::test_gdebug\nThis is gwarn\n"));
    let out = logger.ginfo(None, &here, "This is ginfo").unwrap();
    assert!(out.contains("] [INFO] galacta_logger::tests::test_gdebug\nThis is ginfo\n"));
    let out = logger.gtrace(None, &here, "This is gtrace").unwrap();
    assert!(out.contains("] [TRACE] galacta_logger::tests::test_gdebug\nThis is gtrace\n"));
}

#[test]
fn default_threshold_governs_without_env() {
    for d in FILTERS {
        let mut logger = GalactaLogger::new();
        assert_eq!(logger.init(None, d), Ok(()));
        assert_eq!(logger.max_level(), d);
        for l in LEVELS {
            assert_eq!(logger.is_enabled(l), l.rank() <= d.rank());
        }
    }
    let mut logger = GalactaLogger::new();
    let _ = logger.init(None, LevelFilter::Info);
    assert!(logger.is_enabled(Level::Error));
    assert!(logger.is_enabled(Level::Info));
    assert!(!logger.is_enabled(Level::Debug));
}

#[test]
fn env_level_overrides_default() {
    for d in FILTERS {
        assert_eq!(select_max_level(Some("warn"), d), LevelFilter::Warn);
        assert_eq!(select_max_level(Some("OFF"), d), LevelFilter::Off);
        assert_eq!(select_max_level(Some("DeBuG"), d), LevelFilter::Debug);
    }
    let mut logger = GalactaLogger::new();
    let _ = logger.init(Some("error"), LevelFilter::Trace);
    assert_eq!(logger.max_level(), LevelFilter::Error);
    assert!(!logger.is_enabled(Level::Warn));
}

#[test]
fn invalid_env_level_is_most_verbose() {
    for d in FILTERS {
        assert_eq!(select_max_level(Some("verbose"), d), LevelFilter::Trace);
        assert_eq!(select_max_level(Some(""), d), LevelFilter::Trace);
        assert_eq!(select_max_level(Some(" info"), d), LevelFilter::Trace);
    }
    let mut logger = GalactaLogger::new();
    let _ = logger.init(Some("loud"), LevelFilter::Off);
    assert_eq!(logger.max_level(), LevelFilter::Trace);
}

#[test]
fn second_init_refused_but_sets_filter() {
    let mut logger = GalactaLogger::new();
    assert!(!logger.is_registered());
    assert_eq!(logger.init(None, LevelFilter::Trace), Ok(()));
    assert!(logger.is_registered());
    assert_eq!(logger.init(None, LevelFilter::Warn), Err(AlreadyRegisteredError));
    assert_eq!(logger.max_level(), LevelFilter::Warn);
    assert_eq!(logger.init(Some("info"), LevelFilter::Error), Err(AlreadyRegisteredError));
    assert_eq!(logger.max_level(), LevelFilter::Info);
    assert_eq!(logger.init(Some("bogus"), LevelFilter::Error), Err(AlreadyRegisteredError));
    assert_eq!(logger.max_level(), LevelFilter::Trace);
}

#[test]
fn init_sets_facade_threshold() {
    let mut logger = GalactaLogger::new();
    let _ = logger.init(None, LevelFilter::Warn);
    assert_eq!(log::max_level(), log::LevelFilter::Warn);
    let _ = logger.init(Some("debug"), LevelFilter::Warn);
    assert_eq!(log::max_level(), log::LevelFilter::Debug);
}

#[test]
fn render_fixed_event() {
    let rec = LogRecord {
        level: Level::Info,
        target: "demo".to_string(),
        message: "hello".to_string(),
        module: Some("app::mod".to_string()),
        file: Some("app.src".to_string()),
        line: Some(42),
    };
    let ts = "2024-01-02 03:04:05";
    assert_eq!(
        format_record(ts, &rec),
        "\n[2024-01-02 03:04:05] [INFO] demo\nhello\napp::mod (app.src:42)\n"
    );
}

#[test]
fn render_absent_location_uses_placeholders() {
    let rec = LogRecord {
        level: Level::Trace,
        target: "t".to_string(),
        message: "m".to_string(),
        module: None,
        file: None,
        line: None,
    };
    assert_eq!(format_record("TS", &rec), "\n[TS] [TRACE] t\nm\nUnknown module (Unknown file:0)\n");
}

#[test]
fn render_stamps_local_time() {
    let rec = record(Level::Error, "demo", "boom");
    let out = render(&rec);
    assert!(out.starts_with("\n["));
    let ts: String = out[2..].chars().take_while(|c| *c != ']').collect();
    let b = ts.as_bytes();
    assert_eq!(b.len(), 19);
    assert_eq!(b[4], b'-');
    assert_eq!(b[7], b'-');
    assert_eq!(b[10], b' ');
    assert_eq!(b[13], b':');
    assert_eq!(b[16], b':');
    assert!(out.ends_with("] [ERROR] demo\nboom\ngalacta_logger::tests (src/lib.rs:196)\n"));
}

#[test]
fn event_below_threshold_gives_no_output() {
    let mut logger = GalactaLogger::new();
    let _ = logger.init(None, LevelFilter::Warn);
    assert_eq!(logger.log(&record(Level::Debug, "demo", "quiet")), None);
    assert_eq!(logger.log(&record(Level::Trace, "demo", "quiet")), None);
    assert!(logger.log(&record(Level::Warn, "demo", "loud")).is_some());
    let _ = logger.init(None, LevelFilter::Off);
    assert_eq!(logger.log(&record(Level::Error, "demo", "quiet")), None);
}

#[test]
fn helpers_reset_threshold_to_most_verbose() {
    let mut logger = GalactaLogger::new();
    let _ = logger.init(None, LevelFilter::Error);
    let here = site("app::main::Dummy");
    assert!(logger.gtrace(None, &here, "visible").is_some());
    assert_eq!(logger.max_level(), LevelFilter::Trace);
    assert_eq!(logger.gdebug(Some("warn"), &here, "hidden"), None);
    assert_eq!(logger.max_level(), LevelFilter::Warn);
}

#[test]
fn two_scopes_give_two_targets() {
    let a = scope_target("app::first::Dummy");
    let b = scope_target("app::second::Dummy");
    assert_eq!(a, "app::first");
    assert_eq!(b, "app::second");
    assert_ne!(a, b);
    assert_eq!(scope_target("::Dummy"), "");
}

#[test]
fn decimal_values() {
    assert_eq!(decimal_string(0), "0");
    assert_eq!(decimal_string(7), "7");
    assert_eq!(decimal_string(42), "42");
    assert_eq!(decimal_string(100), "100");
    assert_eq!(decimal_string(u32::MAX), "4294967295");
}

#[test]
fn level_names_and_parsing() {
    let names = ["ERROR", "WARN", "INFO", "DEBUG", "TRACE"];
    for (l, n) in LEVELS.iter().zip(names) {
        assert_eq!(l.as_str(), n);
    }
    assert_eq!(LevelFilter::parse("trace"), Some(LevelFilter::Trace));
    assert_eq!(LevelFilter::parse("Info"), Some(LevelFilter::Info));
    assert_eq!(LevelFilter::parse("oFf"), Some(LevelFilter::Off));
    assert_eq!(LevelFilter::parse("warning"), None);
    assert_eq!(LevelFilter::parse(""), None);
    assert_eq!(LevelFilter::max(), LevelFilter::Trace);
    assert_eq!(GalactaLogger::new().max_level(), LevelFilter::Trace);
}
