use fivier::{is_quit_command, trim_line_end, Error};

#[test]
fn trim_strips_the_line_break() {
    assert_eq!(trim_line_end("q\n"), "q");
    assert_eq!(trim_line_end("q\r\n"), "q");
    assert_eq!(trim_line_end("stop  \t\n"), "stop");
}

#[test]
fn trim_strips_all_unicode_whitespace() {
    assert_eq!(trim_line_end("q\u{000B}"), "q");
    assert_eq!(trim_line_end("q\u{00A0}\u{2003}"), "q");
    assert_eq!(trim_line_end("q\u{3000}\n"), "q");
    // matches what the standard library considers whitespace
    for c in ['\u{000B}', '\u{0085}', '\u{2028}', '\u{205F}', '\u{200B}'] {
        let line = format!("x{c}");
        let expect = if c.is_whitespace() { "x" } else { line.as_str() };
        assert_eq!(trim_line_end(&line), expect, "{c:?}");
    }
}

#[test]
fn trim_leaves_clean_lines_alone() {
    assert_eq!(trim_line_end("q"), "q");
    assert_eq!(trim_line_end(""), "");
    assert_eq!(trim_line_end("  \n"), "");
    assert_eq!(trim_line_end("a b"), "a b");
}

#[test]
fn quit_command_is_the_single_letter_q() {
    assert!(is_quit_command("q"));
    assert!(!is_quit_command("quit"));
    assert!(!is_quit_command(""));
    assert!(!is_quit_command("Q"));
    assert!(!is_quit_command("q "));
}

#[test]
fn error_variants_are_distinguished() {
    let device = Error::DeviceError(String::from("no output device"));
    let engine = Error::EngineError(String::from("invariant"));
    assert!(device.is_device_error());
    assert!(!engine.is_device_error());
}
