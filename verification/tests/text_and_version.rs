use chiliseed::text::{char_is_whitespace, chars_of, concat2, concat3, starts_with_char, starts_with_pair, trim};
use chiliseed::version::{resolve_version, sanitize_word};

#[test]
fn whitespace_test_agrees_with_std_on_every_char() {
    let mut code: u32 = 0;
    while code <= 0x10FFFF {
        if let Some(c) = char::from_u32(code) {
            assert_eq!(char_is_whitespace(c), c.is_whitespace(), "U+{:04X}", code);
        }
        code += 1;
    }
}

#[test]
fn trim_agrees_with_std() {
    let samples = [
        "",
        " ",
        "\n",
        "abc",
        "  abc",
        "abc  ",
        "\t abc def \r\n",
        "\u{3000}wide\u{2003}",
        "a",
        " a b ",
        "\u{85}x\u{a0}",
        "   \n\t  ",
        "héllo wörld ",
    ];
    for s in samples.iter() {
        assert_eq!(trim(s), s.trim().to_string(), "{:?}", s);
    }
}

#[test]
fn trim_exact_values() {
    assert_eq!(trim("  node_modules/ \n"), "node_modules/");
    assert_eq!(trim("*.pyc"), "*.pyc");
    assert_eq!(trim(" \t\r\n"), "");
    assert_eq!(trim("a  b"), "a  b");
}

#[test]
fn chars_of_lists_every_char_in_order() {
    assert_eq!(chars_of("a/é*"), vec!['a', '/', 'é', '*']);
    assert_eq!(chars_of(""), Vec::<char>::new());
}

#[test]
fn prefix_tests() {
    assert!(starts_with_char("/target", '/'));
    assert!(!starts_with_char("target", '/'));
    assert!(!starts_with_char("", '/'));
    assert!(starts_with_pair("./x", '.', '/'));
    assert!(!starts_with_pair(".", '.', '/'));
    assert!(!starts_with_pair(".x/", '.', '/'));
    assert!(!starts_with_pair("", '.', '/'));
}

#[test]
fn concatenation() {
    assert_eq!(concat2("ab", "cd"), "abcd");
    assert_eq!(concat2("", ""), "");
    assert_eq!(concat3("a", "", "c"), "ac");
    assert_eq!(concat3("x", "/", "y"), "x/y");
}

#[test]
fn sanitize_word_strips_line_end() {
    assert_eq!(sanitize_word(b"abc1234\n".to_vec()), "abc1234");
    assert_eq!(sanitize_word(b"abc1234\r\n".to_vec()), "abc1234");
    assert_eq!(sanitize_word(b"  abc1234  \n".to_vec()), "abc1234");
    assert_eq!(sanitize_word(b"abc1234".to_vec()), "abc1234");
    assert_eq!(sanitize_word(b"\n".to_vec()), "");
    assert_eq!(sanitize_word(Vec::new()), "");
}

#[test]
fn sanitize_word_keeps_inner_whitespace_and_non_ascii() {
    assert_eq!(sanitize_word("v1 é\n".as_bytes().to_vec()), "v1 é");
}

#[test]
fn resolve_version_needs_success_and_utf8() {
    assert_eq!(resolve_version(true, b"abc1234\n".to_vec()), Some("abc1234".to_string()));
    assert_eq!(resolve_version(false, b"abc1234\n".to_vec()), None);
    assert_eq!(resolve_version(true, vec![0xff, 0xfe]), None);
    assert_eq!(resolve_version(false, vec![0xff, 0xfe]), None);
    assert_eq!(resolve_version(true, Vec::new()), Some(String::new()));
}
