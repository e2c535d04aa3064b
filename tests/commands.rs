use glosc::debug::{open_devtools, DebugState};
use glosc::greeting::greet;

#[test]
fn greet_world() {
    assert_eq!(greet("World"), "Hello, World! You've been greeted from Rust!");
}

#[test]
fn greet_empty_name() {
    assert_eq!(greet(""), "Hello, ! You've been greeted from Rust!");
}

#[test]
fn greet_keeps_quotes_in_place() {
    let name = "\"Bob\" O'Neil, Jr.";
    let r = greet(name);
    assert_eq!(r, "Hello, \"Bob\" O'Neil, Jr.! You've been greeted from Rust!");
    let inner = &r["Hello, ".len()..r.len() - "! You've been greeted from Rust!".len()];
    assert_eq!(inner, name);
}

#[test]
fn open_devtools_refused_when_disabled() {
    let state = DebugState::new(false);
    assert_eq!(open_devtools(&state), Err("debug disabled".to_string()));
}

#[test]
fn open_devtools_allowed_when_enabled() {
    let state = DebugState::new(true);
    assert_eq!(open_devtools(&state), Ok(()));
}

#[test]
fn debug_flag_is_reported() {
    assert!(DebugState::new(true).is_debug_enabled());
    assert!(!DebugState::new(false).is_debug_enabled());
}
