use tailr::{
    get_args, Config, ConfigError, InvalidCount,
    TakeValue::{PlusZero, TakeNum},
};

fn files(names: &[&str]) -> Vec<String> {
    names.iter().map(|name| name.to_string()).collect()
}

#[test]
fn default_is_the_last_ten_lines() {
    let config = get_args(files(&["a.txt"]), None, None, false).unwrap();
    assert_eq!(
        config,
        Config { files: files(&["a.txt"]), lines: TakeNum(-10), bytes: None, quiet: false }
    );
}

#[test]
fn lines_are_read_as_a_count() {
    let config = get_args(files(&["a", "b"]), Some("3"), None, true).unwrap();
    assert_eq!(
        config,
        Config { files: files(&["a", "b"]), lines: TakeNum(-3), bytes: None, quiet: true }
    );
    let config = get_args(files(&["a"]), Some("+0"), None, false).unwrap();
    assert_eq!(config.lines, PlusZero);
}

#[test]
fn bytes_are_read_as_a_count() {
    let config = get_args(files(&["a"]), None, Some("+5"), false).unwrap();
    assert_eq!(
        config,
        Config { files: files(&["a"]), lines: TakeNum(-10), bytes: Some(TakeNum(5)), quiet: false }
    );
}

#[test]
fn files_keep_their_order_and_their_duplicates() {
    let config = get_args(files(&["b", "a", "b"]), None, None, false).unwrap();
    assert_eq!(config.files, files(&["b", "a", "b"]));
}

#[test]
fn illegal_line_count() {
    let e = get_args(files(&["a"]), Some("3.14"), None, false).unwrap_err();
    assert_eq!(e, ConfigError::IllegalLineCount(InvalidCount { offending: "3.14".to_string() }));
    assert_eq!(e.to_string(), "illegal line count -- 3.14");
}

#[test]
fn illegal_byte_count() {
    let e = get_args(files(&["a"]), None, Some("foo"), false).unwrap_err();
    assert_eq!(e, ConfigError::IllegalByteCount(InvalidCount { offending: "foo".to_string() }));
    assert_eq!(e.to_string(), "illegal byte count -- foo");
}

#[test]
fn lines_and_bytes_exclude_each_other() {
    let e = get_args(files(&["a"]), Some("1"), Some("2"), false).unwrap_err();
    assert_eq!(e, ConfigError::ConflictingMode);
    assert_eq!(
        e.to_string(),
        "the argument '--lines <LINES>' cannot be used with '--bytes <BYTES>'"
    );
    // The conflict is found before either count is read.
    let e = get_args(files(&["a"]), Some("x"), Some("y"), false).unwrap_err();
    assert_eq!(e, ConfigError::ConflictingMode);
}
