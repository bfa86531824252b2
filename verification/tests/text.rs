use awswap::text::{
    after_last, comes_before, cut, is_white, join, lines, lowercase, mentions, number, pad, same,
    split, starts_with, strip_prefix, trim, trim_leading, trim_trailing, unfold,
};

#[test]
fn white_space_is_that_of_unicode() {
    for code in 0..=0x10ffff_u32 {
        if let Some(character) = char::from_u32(code) {
            assert_eq!(is_white(character), character.is_whitespace(), "{code:x}");
        }
    }
}

#[test]
fn searching_agrees_with_the_standard_library() {
    let texts = [
        "", " ", "a", "aa", "aba", "a/b//c/", "/", "x=y=z", "\u{2003}ü\u{3000}", "AbÄ-1", "a\nb",
    ];
    for text in texts {
        assert_eq!(trim(text), text.trim());
        assert_eq!(trim_trailing(text, '/'), text.trim_end_matches('/'));
        assert_eq!(trim_leading(text, '/'), text.trim_start_matches('/'));
        assert_eq!(split(text, '/'), text.split('/').collect::<Vec<_>>());
        assert_eq!(Some(after_last(text, '/')), text.rsplit('/').next());
        assert_eq!(lowercase(text), text.to_ascii_lowercase());
        assert_eq!(unfold(text), text.replace('\n', " "));
        assert_eq!(pad(text, 5), format!("{text:<5}"));
        for pattern in ["", "a", "aa", "ba", "/", "//", "=", "ü"] {
            assert_eq!(mentions(text, pattern), text.contains(pattern));
            assert_eq!(cut(text, pattern), text.split_once(pattern));
            assert_eq!(starts_with(text, pattern), text.starts_with(pattern));
            assert_eq!(strip_prefix(text, pattern), text.strip_prefix(pattern));
        }
        for other in texts {
            assert_eq!(same(text, other), text == other);
            assert_eq!(comes_before(text, other), text < other);
        }
    }
}

#[test]
fn lines_end_at_a_line_feed() {
    for text in [
        "", "\n", "a", "a\n", "a\r\n", "a\r", "a\n\nb", "\r\n\r\n", "a\r\r\n", "a\rb\n", "\n\r",
    ] {
        assert_eq!(lines(text), text.lines().collect::<Vec<_>>(), "{text:?}");
    }
}

#[test]
fn numbers_and_lists_are_written_out() {
    for value in [0, 7, 10, 99, 100, 4_294_967_295] {
        assert_eq!(number(value), value.to_string());
    }
    assert_eq!(number(usize::MAX), usize::MAX.to_string());
    assert_eq!(join(&[], ", "), "");
    assert_eq!(join(&["a".into()], ", "), "a");
    assert_eq!(join(&["a".into(), String::new(), "b".into()], ", "), "a, , b");
}
