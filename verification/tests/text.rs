use ollama_client::text::{chars_of, count_words, is_whitespace, same_chars, same_text, trim};

#[test]
fn chars_of_keeps_every_character_in_order() {
    assert_eq!(chars_of("héllo"), vec!['h', 'é', 'l', 'l', 'o']);
    assert_eq!(chars_of(""), Vec::<char>::new());
}

#[test]
fn same_text_compares_character_by_character() {
    assert!(same_text("", ""));
    assert!(same_text("localhost", "localhost"));
    assert!(same_text("ünï→cödé", "ünï→cödé"));
    assert!(!same_text("localhost", "localhos"));
    assert!(!same_text("localhos", "localhost"));
    assert!(!same_text("localhost", "Localhost"));
    assert!(!same_text("", "a"));
    assert!(!same_text("a", ""));
    assert!(!same_text("127.0.0.1", "127.0.0.2"));
    assert!(!same_text("10.127.0.0.10", "127.0.0.1"));
}

#[test]
fn same_text_agrees_with_std() {
    let texts = ["", "a", "aa", "ab", "ba", "é", "e", "127.0.0.1", "10.127.0.0.10", "localhost"];
    for a in texts {
        for b in texts {
            assert_eq!(same_text(a, b), a == b, "{a:?} {b:?}");
        }
    }
}

#[test]
fn same_chars_compares_element_by_element() {
    assert!(same_chars(&vec![], &vec![]));
    assert!(same_chars(&vec!['p', 'n', 'g'], &vec!['p', 'n', 'g']));
    assert!(!same_chars(&vec!['p', 'n', 'g'], &vec!['p', 'n']));
    assert!(!same_chars(&vec!['p', 'n', 'g'], &vec!['j', 'p', 'g']));
    assert!(!same_chars(&vec!['p', 'n', 'g'], &vec!['p', 'n', 'G']));
}

#[test]
fn is_whitespace_agrees_with_std_on_every_character() {
    for code in 0u32..=0x10FFFF {
        if let Some(c) = char::from_u32(code) {
            assert_eq!(is_whitespace(c), c.is_whitespace(), "U+{code:04X}");
        }
    }
}

#[test]
fn count_words_of_three_words_is_three() {
    assert_eq!(count_words("hello world foo"), 3);
}

#[test]
fn count_words_ignores_runs_of_whitespace() {
    assert_eq!(count_words(""), 0);
    assert_eq!(count_words("   "), 0);
    assert_eq!(count_words("one"), 1);
    assert_eq!(count_words("  one  "), 1);
    assert_eq!(count_words("one\ttwo\nthree\r\nfour"), 4);
    assert_eq!(count_words("a\u{00A0}b\u{3000}c"), 3);
}

#[test]
fn count_words_agrees_with_split_whitespace() {
    let texts = [
        "",
        " ",
        "a",
        " a",
        "a ",
        "The quick  brown\tfox\n\njumps",
        "tabs\tand\u{2003}em spaces",
        "ünï cödé wörds",
        "trailing newline\n",
    ];
    for text in texts {
        assert_eq!(count_words(text), text.split_whitespace().count() as u64, "{text:?}");
    }
}

#[test]
fn trim_removes_whitespace_at_both_ends_only() {
    assert_eq!(trim("  hello world \n"), "hello world");
    assert_eq!(trim("3\n"), "3");
    assert_eq!(trim("\t x \r\n"), "x");
    assert_eq!(trim("as is"), "as is");
    assert_eq!(trim(""), "");
    assert_eq!(trim(" \n\t "), "");
    assert_eq!(trim("\u{3000}é\u{00A0}"), "é");
}

#[test]
fn trim_agrees_with_std() {
    let texts = ["", " ", "a", " a", "a ", " a b ", "\n\n", "x\ty", "\u{2003}wide\u{2003}", "é ", " 1 2 3 \r\n"];
    for text in texts {
        assert_eq!(trim(text), text.trim(), "{text:?}");
    }
}
