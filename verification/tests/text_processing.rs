use wtrs::text::{
    chars_of, chars_end_with, chars_start_with, is_whitespace, replace_chars, split_lines,
    split_whitespace, string_of, trim_chars,
};

fn s(v: &[char]) -> String {
    v.iter().collect()
}

#[test]
fn whitespace_set() {
    for c in [' ', '\t', '\n', '\r', '\u{0B}', '\u{0C}', '\u{85}', '\u{A0}', '\u{2003}', '\u{3000}'] {
        assert!(is_whitespace(c));
        assert_eq!(is_whitespace(c), c.is_whitespace());
    }
    for c in ['a', '0', '#', '\u{200B}'] {
        assert!(!is_whitespace(c));
        assert_eq!(is_whitespace(c), c.is_whitespace());
    }
}

#[test]
fn trimming() {
    for text in ["  a b  ", "", "   ", "x", "\t#cmakedefine X\r", "\u{3000}wide\u{A0}"] {
        let cs = chars_of(text);
        assert_eq!(s(&trim_chars(&cs)), text.trim());
    }
}

#[test]
fn words() {
    for text in ["a  b\tc", "", "   ", " lead", "trail ", "one"] {
        let cs = chars_of(text);
        let got: Vec<String> = split_whitespace(&cs).iter().map(|w| s(w)).collect();
        let want: Vec<String> = text.split_whitespace().map(String::from).collect();
        assert_eq!(got, want);
    }
}

#[test]
fn lines() {
    for text in ["a\nb", "a\nb\n", "a\r\nb\r\n", "", "\n", "\n\n", "x\r", "a\rb\nc"] {
        let cs = chars_of(text);
        let got: Vec<String> = split_lines(&cs).iter().map(|w| s(w)).collect();
        let want: Vec<String> = text.lines().map(String::from).collect();
        assert_eq!(got, want);
    }
}

#[test]
fn replacing() {
    let cases = [
        ("@V@.@V@", "@V@", "12"),
        ("aaaa", "aa", "b"),
        ("aaa", "aa", "b"),
        ("none", "zz", "y"),
        ("xyz", "xyz", ""),
    ];
    for (text, from, to) in cases {
        let got = replace_chars(&chars_of(text), &chars_of(from), &chars_of(to));
        assert_eq!(s(&got), text.replace(from, to));
    }
}

#[test]
fn prefixes_and_suffixes() {
    let cs = chars_of("file.c");
    assert!(chars_end_with(&cs, &chars_of(".c")));
    assert!(!chars_end_with(&cs, &chars_of(".S")));
    assert!(chars_start_with(&cs, &chars_of("file")));
    assert!(!chars_start_with(&chars_of("f"), &chars_of("file")));
    assert_eq!(string_of(&cs), "file.c");
}
