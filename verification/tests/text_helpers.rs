use odoopod_core::text::{
    contains_str, decimal_string, file_name, join_path, path_components, str_eq,
    strip_first_component, trim_str,
};

#[test]
fn str_eq_compares_whole_text() {
    assert!(str_eq("16", "16"));
    assert!(!str_eq("16", "17"));
    assert!(!str_eq("1", "16"));
    assert!(str_eq("", ""));
}

#[test]
fn contains_str_finds_inner_text() {
    assert!(contains_str("uv-x86_64-unknown-linux-gnu.tar.gz", "x86_64-unknown-linux-gnu.tar.gz"));
    assert!(contains_str("abc", ""));
    assert!(!contains_str("ab", "abc"));
    assert!(!contains_str("uv.tar.gz", "zip"));
    assert!(contains_str("uv.tar.gz.sha256", ".sha256"));
}

#[test]
fn decimal_string_renders_numbers() {
    assert_eq!(decimal_string(0), "0");
    assert_eq!(decimal_string(7), "7");
    assert_eq!(decimal_string(8069), "8069");
    assert_eq!(decimal_string(65535), "65535");
    assert_eq!(decimal_string(100), "100");
}

#[test]
fn trim_str_removes_outer_white_space() {
    assert_eq!(trim_str("  uv 0.5.1 (abc 2024-01-01)\n"), "uv 0.5.1 (abc 2024-01-01)");
    assert_eq!(trim_str("\t\n "), "");
    assert_eq!(trim_str("a b"), "a b");
    assert_eq!(trim_str("\u{3000}x\u{a0}"), "x");
}

#[test]
fn join_path_follows_separator_rules() {
    assert_eq!(join_path("/home/me", "odoo"), "/home/me/odoo");
    assert_eq!(join_path("/home/me/", "odoo"), "/home/me/odoo");
    assert_eq!(join_path("/home/me", "/etc"), "/etc");
    assert_eq!(join_path("", "odoo"), "odoo");
    assert_eq!(join_path("/a", ""), "/a/");
}

#[test]
fn path_components_skip_empty_and_dot_pieces() {
    assert_eq!(path_components("a//b/./c/"), vec!["a".to_string(), "b".to_string(), "c".to_string()]);
    assert_eq!(path_components("/"), Vec::<String>::new());
    assert_eq!(path_components("./x/.."), vec!["x".to_string(), "..".to_string()]);
}

#[test]
fn file_name_is_last_component() {
    assert_eq!(file_name("uv-x86_64-unknown-linux-gnu/uv"), Some("uv".to_string()));
    assert_eq!(file_name("a/."), Some("a".to_string()));
    assert_eq!(file_name("a/.."), None);
    assert_eq!(file_name("/"), None);
    assert_eq!(file_name(""), None);
}

#[test]
fn strip_first_component_drops_top_directory() {
    assert_eq!(strip_first_component("odoo-odoo-1a2b/addons/base/__init__.py"), "addons/base/__init__.py");
    assert_eq!(strip_first_component("odoo-odoo-1a2b/"), "");
    assert_eq!(strip_first_component("pax_global_header"), "");
    assert_eq!(strip_first_component("./top/odoo-bin"), "top/odoo-bin");
    assert_eq!(strip_first_component("/x/y"), "x/y");
    assert_eq!(strip_first_component("."), "");
    assert_eq!(strip_first_component("/"), "");
    assert_eq!(strip_first_component(".hidden/a"), "a");
}
