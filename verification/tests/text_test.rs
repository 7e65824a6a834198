use run_script::text::{chars_of, join, split, string_of, trimmed};

fn chars(text: &str) -> Vec<char> {
    text.chars().collect()
}

fn lines(texts: &[&str]) -> Vec<Vec<char>> {
    texts.iter().map(|text| chars(text)).collect()
}

#[test]
fn chars_of_and_string_of_are_inverse() {
    assert_eq!(chars_of("a→b"), vec!['a', '→', 'b']);
    assert_eq!(string_of(&vec!['a', '→', 'b']), "a→b");
    assert_eq!(string_of(&chars_of("")), "");
}

#[test]
fn trimmed_agrees_with_str_trim() {
    for text in ["", " ", "a", " a", "a ", " a b ", "\n\ta\r\n", "\u{a0}x\u{2003}", "\u{200b}x"] {
        assert_eq!(string_of(&trimmed(&chars(text))), text.trim());
    }
}

#[test]
fn split_agrees_with_str_split() {
    for text in ["", "a", "\n", "a\n", "\na", "a\nb", "a\n\nb", "\n\n", "a\r\nb"] {
        let expected: Vec<Vec<char>> = text.split("\n").map(|line| chars(line)).collect();
        assert_eq!(split(&chars(text)), expected);
    }
}

#[test]
fn split_exact_values() {
    assert_eq!(split(&chars("")), lines(&[""]));
    assert_eq!(split(&chars("a\n")), lines(&["a", ""]));
    assert_eq!(split(&chars("a\nbc")), lines(&["a", "bc"]));
}

#[test]
fn join_exact_values() {
    assert_eq!(join(&lines(&[])), chars(""));
    assert_eq!(join(&lines(&["a"])), chars("a"));
    assert_eq!(join(&lines(&["a", "b"])), chars("a\nb"));
    assert_eq!(join(&lines(&["a", "", "b", "\n"])), chars("a\n\nb\n\n"));
}

#[test]
fn join_of_split_is_identity() {
    for text in ["", "a", "\n", "a\n", "\na", "a\nb\n\nc", "\n\n\n"] {
        assert_eq!(join(&split(&chars(text))), chars(text));
    }
}

fn has_white_space_property(c: char) -> bool {
    let code = c as u32;
    (0x0009..=0x000D).contains(&code)
        || code == 0x0020
        || code == 0x0085
        || code == 0x00A0
        || code == 0x1680
        || (0x2000..=0x200A).contains(&code)
        || code == 0x2028
        || code == 0x2029
        || code == 0x202F
        || code == 0x205F
        || code == 0x3000
}

#[test]
fn trimmed_removes_exactly_the_white_space_characters() {
    for code in 0..=0x10FFFFu32 {
        if let Some(c) = char::from_u32(code) {
            let kept = trimmed(&vec![c, 'x', c]);
            if has_white_space_property(c) {
                assert_eq!(kept, vec!['x'], "U+{:04X} is white space", code);
            } else {
                assert_eq!(kept, vec![c, 'x', c], "U+{:04X} is no white space", code);
            }
        }
    }
}

#[test]
fn trimmed_keeps_inner_white_space() {
    assert_eq!(trimmed(&chars(" a \t b\n")), chars("a \t b"));
    assert_eq!(trimmed(&chars(" \n\t")), chars(""));
}
