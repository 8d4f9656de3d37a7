use ak_platform::logging::{level_rank, set_log_level, LevelFilter, LogBuilder, LogSink, VoidLogger};
use ak_platform::platform_string::{PlatformString, TargetOs};

#[test]
fn test_filter() {
    let builder = LogBuilder::new(PlatformString::new())
        .force_stdout(true)
        .default_level(LevelFilter::Info)
        .with_filter("ak_platform::log", LevelFilter::Trace);
    assert_eq!(builder.max_level(), LevelFilter::Trace);
    set_log_level(builder.max_level());
    assert!(log::max_level() >= log::LevelFilter::Trace);
}

#[test]
fn new_builder_defaults() {
    let b = LogBuilder::new(PlatformString::new_with_default("ak-agent").with_darwin("io.goauthentik.agent"));
    assert_eq!(b.level(), LevelFilter::Trace);
    assert!(b.filters().is_empty());
    assert_eq!(b.platform_name(TargetOs::Darwin), "io.goauthentik.agent");
    assert_eq!(b.platform_name(TargetOs::Linux), "ak-agent");
    assert!(b.wants_stdout(true));
    assert!(!b.wants_stdout(false));
}

#[test]
fn default_filters_hold_transports_to_warnings() {
    let b = LogBuilder::new(PlatformString::new()).default_level(LevelFilter::Error).with_default_filters();
    let f = b.filters();
    let modules: Vec<&str> = f.iter().map(|(m, _)| m.as_str()).collect();
    assert_eq!(modules, vec!["h2", "tonic", "hyper_util", "reqwest", "tracing::span"]);
    assert!(f.iter().all(|(_, l)| *l == LevelFilter::Warn));
    assert_eq!(b.max_level(), LevelFilter::Warn);
}

#[test]
fn max_level_is_the_most_verbose() {
    let b = LogBuilder::new(PlatformString::new())
        .default_level(LevelFilter::Off)
        .with_filter("a", LevelFilter::Debug)
        .with_filter("b", LevelFilter::Error);
    assert_eq!(b.max_level(), LevelFilter::Debug);
    assert_eq!(level_rank(LevelFilter::Off), 0);
    assert_eq!(level_rank(LevelFilter::Trace), 5);
}

#[test]
fn sink_selection() {
    let b = LogBuilder::new(PlatformString::new());
    assert_eq!(b.select_sink(true, true), LogSink::Stdout);
    assert_eq!(b.select_sink(false, true), LogSink::Platform);
    assert_eq!(b.select_sink(false, false), LogSink::Stdout);
    let b = b.allow_stdout(false);
    assert_eq!(b.select_sink(true, true), LogSink::Platform);
    assert_eq!(b.select_sink(true, false), LogSink::Void);
    assert_eq!(b.fallback_sink(), LogSink::Void);
    let b = LogBuilder::new(PlatformString::new()).force_stdout(true).allow_platform(false);
    assert_eq!(b.select_sink(false, true), LogSink::Stdout);
    assert!(!VoidLogger::new().enabled());
}

#[test]
fn max_level_bounds_every_override() {
    let levels = [LevelFilter::Error, LevelFilter::Info, LevelFilter::Warn];
    let mut b = LogBuilder::new(PlatformString::new()).default_level(LevelFilter::Warn);
    for (i, l) in levels.iter().enumerate() {
        b = b.with_filter(&format!("m{}", i), *l);
    }
    let max = b.max_level();
    assert_eq!(max, LevelFilter::Info);
    assert!(levels.iter().all(|l| level_rank(max) >= level_rank(*l)));
    assert!(level_rank(max) >= level_rank(b.level()));
}
