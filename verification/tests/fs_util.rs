use zebar::fs_util::{file_name_has_extension, has_extension, strip_byte_order_marks};

#[test]
fn byte_order_marks_are_stripped_from_the_start() {
    assert_eq!(strip_byte_order_marks("\u{feff}{\"a\": 1}"), "{\"a\": 1}");
    assert_eq!(strip_byte_order_marks("\u{feff}\u{feff}[]"), "[]");
}

#[test]
fn text_without_byte_order_mark_is_unchanged() {
    assert_eq!(strip_byte_order_marks("{}"), "{}");
    assert_eq!(strip_byte_order_marks(""), "");
    assert_eq!(strip_byte_order_marks("\u{feff}"), "");
}

#[test]
fn byte_order_mark_after_text_is_kept() {
    assert_eq!(strip_byte_order_marks(" \u{feff}{}"), " \u{feff}{}");
    assert_eq!(strip_byte_order_marks("\u{feff}x\u{feff}"), "x\u{feff}");
}

#[test]
fn file_name_extension_is_checked() {
    assert!(has_extension("packs/shell/zpack.json", ".json"));
    assert!(has_extension("zpack.json", "json"));
    assert!(!has_extension("packs/shell/zpack.toml", ".json"));
    assert!(!has_extension("packs/shell.json/readme", ".json"));
}

#[test]
fn extension_must_be_set_off_by_a_dot() {
    assert!(!has_extension("dir/notjson", "json"));
    assert!(!file_name_has_extension(Some("json"), "json"));
    assert!(file_name_has_extension(Some(".json"), ".json"));
    assert!(file_name_has_extension(Some("a.b.json"), "b.json"));
    assert!(!file_name_has_extension(Some("ab.json"), "b.json"));
}

#[test]
fn directory_name_counts_as_file_name() {
    assert!(has_extension("packs/shell.json/", ".json"));
}

#[test]
fn path_without_file_name_has_no_extension() {
    assert!(!has_extension("packs/..", "."));
    assert!(!has_extension("/", ""));
}

#[test]
fn extension_of_given_file_name() {
    assert!(file_name_has_extension(Some("errors.log"), ".log"));
    assert!(!file_name_has_extension(Some("log"), ".log"));
    assert!(!file_name_has_extension(None, ""));
    assert!(!file_name_has_extension(Some("anything"), ""));
    assert!(file_name_has_extension(Some("anything."), ""));
}

#[test]
fn stripping_twice_changes_nothing() {
    let once = strip_byte_order_marks("\u{feff}\u{feff}\u{feff}{\"x\":[]}");
    assert_eq!(strip_byte_order_marks(once), once);
    assert_eq!(once, "{\"x\":[]}");
}
