use vpnht::text::{
    appended, chars_vec, has_substring, is_whitespace, joined, replaced, same_text, split_lines,
    split_words, trimmed,
};

#[test]
fn lines_follow_str_lines() {
    for s in ["", "\n", "a", "a\n", "a\r\nb", "a\r", "a\n\nb\n", "\r\n\r\n", "x\ry\n"] {
        let expected: Vec<String> = s.lines().map(|l| l.to_string()).collect();
        assert_eq!(split_lines(s), expected, "{:?}", s);
    }
}

#[test]
fn words_follow_split_whitespace() {
    for s in ["", "  ", "a", " a  b\tc\n", "x\u{a0}y", "a\u{3000}b", "\u{85}q"] {
        let expected: Vec<String> = s.split_whitespace().map(|w| w.to_string()).collect();
        assert_eq!(split_words(s), expected, "{:?}", s);
    }
}

#[test]
fn trim_follows_str_trim() {
    for s in ["", "  ", " a ", "\u{2003}b\u{2028}", "a b", "\r\nwg0\r\n"] {
        assert_eq!(trimmed(s), s.trim(), "{:?}", s);
    }
}

#[test]
fn whitespace_follows_char_is_whitespace() {
    for u in 0u32..0x3100 {
        if let Some(c) = char::from_u32(u) {
            assert_eq!(is_whitespace(c), c.is_whitespace(), "{:x}", u);
        }
    }
}

#[test]
fn substring_search() {
    assert!(has_substring("abc", ""));
    assert!(has_substring("abc", "bc"));
    assert!(!has_substring("abc", "abcd"));
    assert!(!has_substring("ab", "ba"));
    assert!(has_substring("{\"code\":\"INVALID_CREDENTIALS\"}", "INVALID_CREDENTIALS"));
}

#[test]
fn replace_and_join() {
    assert_eq!(replaced("a@b@c", '@', "_"), "a_b_c");
    assert_eq!(replaced("say \"hi\"", '"', "\\\""), "say \\\"hi\\\"");
    assert_eq!(joined(&vec!["a".to_string(), "b".to_string()], ", "), "a, b");
    assert_eq!(joined(&vec![], ", "), "");
    assert_eq!(joined(&vec!["only".to_string()], ", "), "only");
}

#[test]
fn small_conversions() {
    assert_eq!(chars_vec("hé"), vec!['h', 'é']);
    assert_eq!(appended("ab", "cd"), "abcd");
    assert!(same_text("x", "x"));
    assert!(!same_text("x", "xy"));
}

