use stdweb_logger::{
    builder, detail, dispatch, init, init_with_level, push_decimal, simple, Channel, Level,
    LevelFilter, Record,
};

fn rec(level: Level, message: &str) -> Record {
    Record::new(level, message.to_string(), "app".to_string())
}

const LEVELS: [Level; 5] = [Level::Error, Level::Warn, Level::Info, Level::Debug, Level::Trace];

fn rank(l: Level) -> usize {
    LEVELS.iter().position(|x| *x == l).unwrap() + 1
}

#[test]
fn enabled_iff_at_least_as_severe() {
    let filters = [
        (LevelFilter::Off, 0),
        (LevelFilter::Error, 1),
        (LevelFilter::Warn, 2),
        (LevelFilter::Info, 3),
        (LevelFilter::Debug, 4),
        (LevelFilter::Trace, 5),
    ];
    for (f, fr) in filters {
        let l = builder().filter(f).build();
        for lv in LEVELS {
            assert_eq!(l.enabled(lv), fr != 0 && rank(lv) <= fr, "{:?} {:?}", f, lv);
        }
    }
}

#[test]
fn off_filter_blocks_everything() {
    let l = builder().filter(LevelFilter::Off).build();
    for lv in LEVELS {
        assert!(!l.enabled(lv));
        assert!(l.log(&rec(lv, "x")).is_none());
    }
}

#[test]
fn second_format_replaces_first() {
    let l = builder()
        .format(|r: &Record| Ok(format!("one {}", r.message)))
        .format(|r: &Record| Ok(format!("two {}", r.message)))
        .build();
    for lv in LEVELS {
        let w = l.log(&rec(lv, "m")).unwrap();
        assert_eq!(w.text, "two m");
    }
}

#[test]
fn detail_after_custom_replaces_it() {
    let l = builder().format(|_r: &Record| Ok("custom".to_string())).detail().build();
    let w = l.log(&rec(Level::Info, "hi")).unwrap();
    assert_eq!(w.text, "Info: hi (<unknown>(0))");
}

#[test]
fn detail_with_location() {
    let r = rec(Level::Error, "boom").at("a.rs".to_string(), 42);
    assert_eq!(detail(&r), "Error: boom (a.rs(42))");
}

#[test]
fn detail_without_location() {
    let r = rec(Level::Error, "boom");
    assert_eq!(detail(&r), "Error: boom (<unknown>(0))");
}

#[test]
fn detail_through_builder() {
    let l = builder().detail().build();
    let r = rec(Level::Error, "boom").at("a.rs".to_string(), 42);
    let w = l.log(&r).unwrap();
    assert_eq!(w.channel, Channel::Error);
    assert_eq!(w.text, "Error: boom (a.rs(42))");
}

#[test]
fn simple_format_text() {
    assert_eq!(simple(&rec(Level::Info, "hi")), "Info: hi");
    let w = init().log(&rec(Level::Info, "hi")).unwrap();
    assert_eq!(w.text, "Info: hi");
    assert_eq!(w.channel, Channel::Info);
}

#[test]
fn level_names() {
    assert_eq!(simple(&rec(Level::Warn, "a")), "Warn: a");
    assert_eq!(simple(&rec(Level::Debug, "a")), "Debug: a");
    assert_eq!(simple(&rec(Level::Trace, "")), "Trace: ");
}

#[test]
fn decimal_digits() {
    for (n, want) in [(0u32, "0"), (7, "7"), (10, "10"), (42, "42"), (1000, "1000"), (u32::MAX, "4294967295")] {
        let mut s = "x".to_string();
        push_decimal(&mut s, n);
        assert_eq!(s, format!("x{}", want));
    }
}

#[test]
fn each_level_goes_to_its_own_channel() {
    let l = init();
    let expect = [Channel::Error, Channel::Warn, Channel::Info, Channel::Debug, Channel::Trace];
    for (lv, ch) in LEVELS.iter().zip(expect) {
        let w = l.log(&rec(*lv, "m")).unwrap();
        assert_eq!(w.channel, ch);
    }
}

#[test]
fn less_severe_than_filter_is_dropped() {
    let l = builder().filter(LevelFilter::Info).build();
    assert!(l.log(&rec(Level::Debug, "m")).is_none());
    assert!(l.log(&rec(Level::Trace, "m")).is_none());
    assert_eq!(l.log(&rec(Level::Error, "m")).unwrap().channel, Channel::Error);
    assert_eq!(l.log(&rec(Level::Info, "m")).unwrap().channel, Channel::Info);
}

#[test]
fn failing_format_writes_once_to_error_channel() {
    let l = builder().format(|_r: &Record| Err("bad format".to_string())).build();
    for lv in LEVELS {
        let w = l.log(&rec(lv, "m")).unwrap();
        assert_eq!(w.channel, Channel::Error);
        assert_eq!(w.text, "bad format");
    }
}

#[test]
fn dispatch_routes_results() {
    let w = dispatch(Level::Debug, Ok("t".to_string()));
    assert_eq!((w.channel, w.text.as_str()), (Channel::Debug, "t"));
    let w = dispatch(Level::Debug, Err("e".to_string()));
    assert_eq!((w.channel, w.text.as_str()), (Channel::Error, "e"));
}

#[test]
fn init_with_level_warn() {
    let l = init_with_level(Level::Warn);
    assert!(l.log(&rec(Level::Info, "i")).is_none());
    let w = l.log(&rec(Level::Warn, "w")).unwrap();
    assert_eq!(w.channel, Channel::Warn);
    assert_eq!(w.text, "Warn: w");
    let e = l.log(&rec(Level::Error, "e")).unwrap();
    assert_eq!(e.channel, Channel::Error);
    assert_eq!(e.text, "Error: e");
}

#[test]
fn default_filter_passes_trace() {
    let l = init();
    assert_eq!(l.filter, LevelFilter::Trace);
    assert!(l.enabled(Level::Trace));
}

#[test]
fn level_filter_conversions() {
    for lv in LEVELS {
        assert_eq!(lv.to_level_filter().to_level(), Some(lv));
    }
    assert_eq!(LevelFilter::Off.to_level(), None);
    assert!(Level::Error.at_least(Level::Trace));
    assert!(!Level::Trace.at_least(Level::Error));
    assert!(LevelFilter::Warn.allows(Level::Warn));
    assert!(!LevelFilter::Warn.allows(Level::Info));
}
