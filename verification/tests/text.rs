use build_o_tron::host_info::lines_of;
use build_o_tron::paths::{file_name, parent, path_joined};
use build_o_tron::text::{
    after_bytes, can_cut, contains, decimal_text, ends_with, first_bytes, joined, parse_u64,
    pieces, same, starts_with, text_after_last, trimmed, utf8_text,
};

#[test]
fn numbers_are_written_and_read_back() {
    for n in [0u64, 7, 10, 99, 100, 65535, u64::MAX] {
        assert_eq!(decimal_text(n), n.to_string());
        assert_eq!(parse_u64(&decimal_text(n)), Some(n));
    }
}

#[test]
fn only_numbers_of_64_bits_are_read() {
    assert_eq!(parse_u64("+12"), Some(12));
    assert_eq!(parse_u64("007"), Some(7));
    assert_eq!(parse_u64("18446744073709551615"), Some(u64::MAX));
    assert_eq!(parse_u64("18446744073709551616"), None);
    assert_eq!(parse_u64(""), None);
    assert_eq!(parse_u64("+"), None);
    assert_eq!(parse_u64("-1"), None);
    assert_eq!(parse_u64("1 "), None);
}

#[test]
fn texts_are_searched() {
    assert!(same("abc", "abc"));
    assert!(!same("abc", "abd"));
    assert!(starts_with("model name", "model"));
    assert!(!starts_with("mod", "model"));
    assert!(ends_with("x/goodfile", "goodfile"));
    assert!(!ends_with("file", "goodfile"));
    assert!(contains("a tcp connect error b", "tcp connect error"));
    assert!(contains("anything", ""));
    assert!(!contains("tcp connect", "tcp connect error"));
    assert_eq!(text_after_last("a:b:c", ':'), "c");
    assert_eq!(text_after_last("abc", ':'), "abc");
    assert_eq!(text_after_last("abc:", ':'), "");
}

#[test]
fn white_space_is_trimmed() {
    assert_eq!(trimmed("  a b\t\n"), "a b");
    assert_eq!(trimmed("\u{3000}x\u{a0}"), "x");
    assert_eq!(trimmed(" \n"), "");
    for s in ["", " ", "a", " \u{2003}é \r\n", "\u{200b}x"] {
        assert_eq!(trimmed(s), s.trim());
    }
}

#[test]
fn texts_are_split_and_joined() {
    assert_eq!(pieces("a,b,,c", ','), vec!["a", "b", "", "c"]);
    assert_eq!(pieces("", ','), vec![""]);
    assert_eq!(lines_of("x\ny\n"), vec!["x", "y", ""]);
    let words = vec!["git".to_owned(), "clone".to_owned(), "x".to_owned()];
    assert_eq!(joined(&words, " "), "git clone x");
    assert_eq!(joined(&[], " "), "");
}

#[test]
fn bytes_are_cut_between_characters_only() {
    assert!(can_cut("abcdefghij", 9));
    assert!(!can_cut("abc", 9));
    assert!(!can_cut("é", 1));
    assert_eq!(first_bytes("0123456789abcdef", 9), "012345678");
    assert_eq!(first_bytes("éa", 2), "é");
    assert_eq!(after_bytes("sha256=ff", 7), "ff");
}

#[test]
fn bytes_are_read_as_utf8() {
    assert_eq!(utf8_text("höst".as_bytes()), Some("höst".to_owned()));
    assert_eq!(utf8_text(&[0xff, 0x41]), None);
}

#[test]
fn paths_are_joined() {
    for (base, rest) in [("a", "b"), ("a/", "b"), ("", "b"), ("a", "/b"), ("a", ""), ("/", "b")] {
        let mut path = std::path::PathBuf::from(base);
        path.push(rest);
        assert_eq!(path_joined(base, rest), path.to_str().unwrap());
    }
}

#[test]
fn paths_come_apart() {
    let paths = [
        "", "/", ".", "..", "a", "a/", "a/.", "a/..", "a/../", "/a", "/..", "//..", "./..", "./a", "a//b",
        "a/./b/", "/./..", "a/b/..", "/.", "//", "a/./..", ".a", "a.", "...", "/a/b/c.txt",
    ];
    for path in paths {
        let std_path = std::path::Path::new(path);
        assert_eq!(
            file_name(path),
            std_path.file_name().map(|name| name.to_str().unwrap().to_owned()),
            "{}",
            path
        );
        assert_eq!(
            parent(path),
            std_path.parent().map(|dir| dir.to_str().unwrap().to_owned()),
            "{}",
            path
        );
    }
}
