use dsh_desktop::script::{
    append_log, fail, js_string, once_body, set_progress, set_status, show_version,
};
use dsh_desktop::text::{
    chars_of, contains_bytes, eq_ignore_ascii_case, parse_u16, push_decimal, same_text, space, split_on,
    split_whitespace, text_between, text_or_nothing, trim, trim_end_matches, trim_start_matches,
};

#[test]
fn white_space_is_that_of_unicode() {
    let mut code: u32 = 0;
    while code <= 0x10ffff {
        if let Some(c) = char::from_u32(code) {
            assert_eq!(space(c), c.is_whitespace(), "{:x}", code);
        }
        code += 1;
    }
}

#[test]
fn trimming_takes_white_space_at_both_ends_only() {
    assert_eq!(trim("  a b\n"), "a b");
    assert_eq!(trim("\u{3000}\t"), "");
    assert_eq!(trim(""), "");
    assert_eq!(trim("abc\r\n"), "abc");
    assert_eq!(trim(&trim(" \u{a0}x y \u{2028}")), "x y");
}

#[test]
fn leading_and_trailing_characters_are_taken() {
    assert_eq!(trim_start_matches("vv1.2v", 'v'), "1.2v");
    assert_eq!(trim_start_matches("1.2", 'v'), "1.2");
    assert_eq!(trim_start_matches("v", 'v'), "");
    assert_eq!(trim_end_matches("harness-master///", '/'), "harness-master");
    assert_eq!(trim_end_matches("/a/b", '/'), "/a/b");
    assert_eq!(trim_end_matches("", '/'), "");
}

#[test]
fn texts_are_split() {
    assert_eq!(split_on("a;b;;c", ';'), vec!["a", "b", "", "c"]);
    assert_eq!(split_on("", ';'), vec![""]);
    assert_eq!(split_on(";", ';'), vec!["", ""]);
    assert_eq!(split_whitespace("GET /status HTTP/1.1\r\n"), vec!["GET", "/status", "HTTP/1.1"]);
    assert_eq!(split_whitespace("  \t "), Vec::<String>::new());
    assert_eq!(split_whitespace(" 一\u{3000}二 "), vec!["一", "二"]);
}

#[test]
fn texts_are_cut_as_std_cuts_them() {
    let pieces = ["", " ", "a", "\u{3000}", "vv", ";", "=", "端口", "\t\r\n", "/", "\u{85}x"];
    for a in pieces {
        for b in pieces {
            for c in pieces {
                let text = format!("{}{}{}", a, b, c);
                assert_eq!(trim(&text), text.trim());
                assert_eq!(trim_start_matches(&text, 'v'), text.trim_start_matches('v'));
                assert_eq!(trim_end_matches(&text, '/'), text.trim_end_matches('/'));
                assert_eq!(split_on(&text, ';'), text.split(';').collect::<Vec<_>>());
                assert_eq!(split_whitespace(&text), text.split_whitespace().collect::<Vec<_>>());
                assert_eq!(eq_ignore_ascii_case(&text, a), text.eq_ignore_ascii_case(a));
            }
        }
    }
}

#[test]
fn parts_of_texts() {
    let chars = chars_of("端口 3080");
    assert_eq!(chars, vec!['端', '口', ' ', '3', '0', '8', '0']);
    assert_eq!(text_between(&chars, 3, 7), "3080");
    assert_eq!(text_between(&chars, 2, 2), "");
    assert!(same_text("é", "é"));
    assert!(!same_text("e", "é"));
    assert_eq!(text_or_nothing(Some("x".to_string())), "x");
    assert_eq!(text_or_nothing(None), "");
}

#[test]
fn ascii_case_is_ignored_and_no_other() {
    assert!(eq_ignore_ascii_case("HTTPS", "https"));
    assert!(eq_ignore_ascii_case("", ""));
    assert!(!eq_ignore_ascii_case("http", "https"));
    assert!(!eq_ignore_ascii_case("É", "é"));
    assert!(!eq_ignore_ascii_case("[", "{"));
    assert!(!eq_ignore_ascii_case("@", "`"));
}

#[test]
fn bytes_are_found() {
    assert!(contains_bytes(b"HTTP/1.0 200 OK", b"200"));
    assert!(contains_bytes(b"200", b"200"));
    assert!(contains_bytes(b"2200", b"200"));
    assert!(!contains_bytes(b"20", b"200"));
    assert!(!contains_bytes(b"20 0", b"200"));
    assert!(contains_bytes(b"abc", b""));
    assert!(contains_bytes(b"", b""));
}

#[test]
fn numbers_are_written_and_read_back() {
    for n in [0u16, 7, 10, 99, 100, 3080, 65535] {
        let mut out = String::from("n=");
        push_decimal(&mut out, n as u64);
        assert_eq!(out, format!("n={}", n));
        assert_eq!(parse_u16(&out[2..]), Some(n));
    }
    let mut out = String::new();
    push_decimal(&mut out, u64::MAX);
    assert_eq!(out, "18446744073709551615");
}

#[test]
fn ports_are_read_as_numbers_only() {
    for text in ["+3080", "003080", "0", "65535", "65536", "", "+", "-1", "+-1", " 80", "8 0", "٣", "80a"] {
        assert_eq!(parse_u16(text), text.parse::<u16>().ok(), "{}", text);
    }
    assert_eq!(parse_u16("99999999999999999999999999"), None);
    assert_eq!(parse_u16("0000000000000000000000000000012"), Some(12));
}

#[test]
fn string_literals() {
    assert_eq!(js_string(""), "\"\"");
    assert_eq!(js_string("a\"b\\c"), "\"a\\\"b\\\\c\"");
    assert_eq!(js_string("1\n2\r3\t4"), "\"1\\n2\\r3\\t4\"");
    assert_eq!(js_string("\u{0}\u{1f}\u{8}"), "\"\\u0000\\u001f\\u0008\"");
    assert_eq!(js_string("\u{7f}端口✓"), "\"\u{7f}端口✓\"");
}

#[test]
fn string_literals_read_back() {
    for text in ["", "plain", "\u{0}\u{b}\u{1f} \" \\ \n\r\t", "更新完成 ✓", "\\u0041"] {
        let value: serde_json::Value = serde_json::from_str(&js_string(text)).unwrap();
        assert_eq!(value.as_str(), Some(text));
    }
}

#[test]
fn literals_of_different_texts_differ_and_stay_on_one_line() {
    assert_ne!(js_string("\n"), js_string("\\n"));
    assert_ne!(js_string("\u{1}"), js_string("\\u0001"));
    assert!(js_string("a\u{2}\n\r\tb").chars().all(|c| c as u32 >= 0x20));
}

#[test]
fn calls_into_the_boot_page() {
    assert_eq!(set_status("正在启动服务…"), "setStatus(\"正在启动服务…\")");
    assert_eq!(append_log("a\tb"), "appendLog(\"a\\tb\")");
    assert_eq!(fail("构建失败：\"x\""), "showError(\"构建失败：\\\"x\\\"\")");
    assert_eq!(set_progress(42), "setProgress(42)");
    assert_eq!(once_body("go()"), "if (document.body) { go() }");
}

#[test]
fn versions_are_shown_or_hidden() {
    assert_eq!(
        show_version(Some("1.2.3".to_string()), "0.1.0"),
        "setVersion(\"1.2.3\", \"0.1.0\")"
    );
    assert_eq!(
        show_version(None, "0.1.0"),
        "document.getElementById('version').style.visibility = 'hidden'"
    );
}
