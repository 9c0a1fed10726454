use openapi_scaffold::text::{chars_of, is_whitespace, trim_lines, trim_lines_vec, trim_text};

#[test]
fn trim_text_strips_both_ends() {
    assert_eq!(trim_text("  \t hello world \n"), "hello world");
    assert_eq!(trim_text("hello"), "hello");
    assert_eq!(trim_text("   "), "");
    assert_eq!(trim_text(""), "");
}

#[test]
fn trim_text_agrees_with_std() {
    for text in ["", " ", "a", " a", "a ", " a b ", "\u{a0}x\u{3000}", "\r\nx\r\n", "\u{200b}x"] {
        assert_eq!(trim_text(text), text.trim());
    }
}

#[test]
fn is_whitespace_agrees_with_std() {
    for n in 0u32..0x11_0000 {
        if let Some(c) = char::from_u32(n) {
            assert_eq!(is_whitespace(c), c.is_whitespace(), "code point {n:#x}");
        }
    }
}

#[test]
fn chars_of_lists_every_character() {
    assert_eq!(chars_of("añ€"), vec!['a', 'ñ', '€']);
    assert_eq!(chars_of(""), Vec::<char>::new());
}

#[test]
fn trim_lines_vec_drops_blank_lines() {
    let text = "\n      #!/bin/bash\n\n      if true ; then\n        exit 0\n      fi\n      ";
    assert_eq!(
        trim_lines_vec(text),
        vec!["#!/bin/bash", "if true ; then", "exit 0", "fi"]
    );
}

#[test]
fn trim_lines_vec_of_blank_text_is_empty() {
    assert_eq!(trim_lines_vec(""), Vec::<String>::new());
    assert_eq!(trim_lines_vec("  \n \n\t"), Vec::<String>::new());
}

#[test]
fn trim_lines_joins_with_single_newlines() {
    assert_eq!(trim_lines("  a  \n\n   b\n c   "), "a\nb\nc");
    assert_eq!(trim_lines("only"), "only");
    assert_eq!(trim_lines("\n\n"), "");
}

#[test]
fn trim_lines_agrees_with_std_lines() {
    let text = "  x \r\n\ty y\n\n z\r\n";
    let expected: Vec<&str> = text.lines().map(str::trim).filter(|l| !l.is_empty()).collect();
    assert_eq!(trim_lines_vec(text), expected);
    assert_eq!(trim_lines(text), expected.join("\n"));
}
