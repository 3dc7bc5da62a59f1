use limit_size::filter::root_context::RootLimitSize;
use limit_size::log::{with_ident, IdentLogger, LogLevel};

#[test]
fn the_default_level_is_info() {
    assert_eq!(LogLevel::default(), LogLevel::Info);
}

#[test]
fn levels_are_ordered_by_severity() {
    assert!(LogLevel::Trace < LogLevel::Debug);
    assert!(LogLevel::Debug < LogLevel::Info);
    assert!(LogLevel::Info < LogLevel::Warn);
    assert!(LogLevel::Warn < LogLevel::Error);
    assert!(LogLevel::Error < LogLevel::Critical);
}

#[test]
fn a_str_is_its_own_identifier() {
    let name = "filter";
    assert_eq!(name.ident(), "filter");
}

#[test]
fn a_line_is_identifier_colon_message() {
    let (level, line) = with_ident(&"(1/root)", "loaded raw config", LogLevel::Debug);
    assert_eq!(level, LogLevel::Debug);
    assert_eq!(line, "(1/root): loaded raw config");
    let (level, line) = with_ident(&"", "", LogLevel::Critical);
    assert_eq!(level, LogLevel::Critical);
    assert_eq!(line, ": ");
}

#[test]
fn contexts_log_under_their_identifier() {
    let root = RootLimitSize::new(3);
    let (_, line) = with_ident(&root, "on_vm_start: empty VM config", LogLevel::Warn);
    assert_eq!(line, "(3/root): on_vm_start: empty VM config");
    let http = root.create_http_context(8);
    let (_, line) = with_ident(&http, "Got content length: 12", LogLevel::Debug);
    assert_eq!(line, "(8/http 3/root): Got content length: 12");
}
