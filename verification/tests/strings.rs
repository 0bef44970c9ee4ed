use provision::osinfo::{os_release_field, release_major_minor};
use provision::strutil::{
    char_at_str, find_char, join_strs, path_join, str_contains, str_dot_dash, str_eq,
    str_eq_ignore_case, str_is_blank, str_parent_dir, str_split_char, str_strip_prefix, str_trim,
    str_trim_char, u64_to_dec,
};

#[test]
fn blankness_covers_unicode_white_space() {
    assert!(str_is_blank(""));
    assert!(str_is_blank("  \t\r\n"));
    assert!(str_is_blank("\u{00a0}\u{2003}"));
    assert!(!str_is_blank(" x "));
}

#[test]
fn trimming() {
    assert_eq!(str_trim("  hello \n"), "hello");
    assert_eq!(str_trim(""), "");
    assert_eq!(str_trim("   "), "");
    assert_eq!(str_trim("a b"), "a b");
    assert_eq!(str_trim_char("\"quoted\"", '"'), "quoted");
    assert_eq!(str_trim_char("none", '"'), "none");
    assert_eq!(str_trim_char("\"\"\"x\"\"", '"'), "x");
}

#[test]
fn equality_helpers() {
    assert!(str_eq("abc", "abc"));
    assert!(!str_eq("abc", "abd"));
    assert!(!str_eq("abc", "ab"));
    assert!(str_eq_ignore_case("YeS", "yes"));
    assert!(!str_eq_ignore_case("yes", "no"));
    assert!(!str_eq_ignore_case("yes", "yess"));
}

#[test]
fn searching() {
    assert_eq!(find_char("a=b", '='), Some(1));
    assert_eq!(find_char("abc", '='), None);
    assert!(str_contains("hello world", "lo wo"));
    assert!(str_contains("abc", ""));
    assert!(!str_contains("abc", "abcd"));
    assert_eq!(char_at_str("xyz", 1), "y");
    assert_eq!(str_strip_prefix("ID=debian", "ID="), Some("debian"));
    assert_eq!(str_strip_prefix("XID=debian", "ID="), None);
}

#[test]
fn splitting_and_joining() {
    assert_eq!(str_split_char("a:b::c", ':'), vec!["a", "b", "", "c"]);
    assert_eq!(str_split_char("", ':'), vec![""]);
    assert_eq!(str_split_char("abc", ':'), vec!["abc"]);
    let parts = vec!["1.1.1.1".to_string(), "1.0.0.1".to_string()];
    assert_eq!(join_strs(&parts, " "), "1.1.1.1 1.0.0.1");
    assert_eq!(join_strs(&Vec::new(), " "), "");
}

#[test]
fn path_handling() {
    assert_eq!(path_join("/etc/ca-certificates", "custom"), "/etc/ca-certificates/custom");
    assert_eq!(path_join("/dir/", "name"), "/dir/name");
    assert_eq!(path_join("", "name"), "name");
    assert_eq!(str_parent_dir("/a/b/c.cer"), Some("/a/b".to_string()));
    assert_eq!(str_parent_dir("/c.cer"), Some("/".to_string()));
    assert_eq!(str_parent_dir("c.cer"), Some("".to_string()));
    assert_eq!(str_parent_dir("/"), None);
    assert_eq!(str_parent_dir(""), None);
}

#[test]
fn decimal_rendering() {
    assert_eq!(u64_to_dec(0), "0");
    assert_eq!(u64_to_dec(9), "9");
    assert_eq!(u64_to_dec(10), "10");
    assert_eq!(u64_to_dec(1234567890), "1234567890");
    assert_eq!(u64_to_dec(u64::MAX), "18446744073709551615");
}

#[test]
fn domain_to_file_name() {
    assert_eq!(str_dot_dash("proxy.foo.com"), "proxy-foo-com");
    assert_eq!(str_dot_dash("nodots"), "nodots");
    assert_eq!(str_dot_dash(""), "");
}

#[test]
fn descriptor_fields() {
    let content = "NAME=\"Debian GNU/Linux\"\nID=debian\nVERSION_CODENAME=bookworm\n";
    assert_eq!(os_release_field(content, "ID="), Some("debian".to_string()));
    assert_eq!(os_release_field(content, "VERSION_CODENAME="), Some("bookworm".to_string()));
    assert_eq!(os_release_field(content, "NAME="), Some("Debian GNU/Linux".to_string()));
    assert_eq!(os_release_field(content, "MISSING="), None);
    // Carriage returns are stripped as line endings.
    assert_eq!(os_release_field("ID=alpine\r\n", "ID="), Some("alpine".to_string()));
}

#[test]
fn release_version_prefix() {
    assert_eq!(release_major_minor("3.18.4"), "3.18");
    assert_eq!(release_major_minor("3.18"), "3.18");
    assert_eq!(release_major_minor("3"), "3");
    assert_eq!(release_major_minor(""), "");
}
