use ramopt::text::{
    characters, is_whitespace, join, lines, split, starts_with, trim, trim_start_matches,
};

const SAMPLES: [&str; 22] = [
    "", " ", "a", "a\n", "a\r\n", "\n", "\r\n", "a\nb", "a\r\nb\r\n", "a\r\r\nb", "a\rb", "\n\n",
    "a\n\nb\n", "\t a b \u{a0}", "\u{3000}x\u{2028}", "::", "a:b:c", ":a:", "x\r", "\u{e9}:\u{1f600}\n",
    "\u{feff}a", "\u{200b}b\u{85}",
];

#[test]
fn lines_are_those_of_the_standard_library() {
    for text in SAMPLES {
        assert_eq!(lines(text), text.lines().collect::<Vec<&str>>(), "{text:?}");
    }
}

#[test]
fn pieces_are_those_of_the_standard_library() {
    for text in SAMPLES {
        assert_eq!(split(text, ':'), text.split(':').collect::<Vec<&str>>(), "{text:?}");
    }
}

#[test]
fn trimming_is_that_of_the_standard_library() {
    for text in SAMPLES {
        assert_eq!(trim(text), text.trim(), "{text:?}");
    }
    for code in 0..0x11_0000u32 {
        if let Some(c) = char::from_u32(code) {
            assert_eq!(is_whitespace(c), c.is_whitespace(), "{code:x}");
        }
    }
}

#[test]
fn prefixes_are_those_of_the_standard_library() {
    for (text, prefix) in [
        ("vv1", "v"), ("1", "v"), ("", "v"), ("v", "v"), ("ababc", "ab"), ("aab", "ab"),
        ("abc", ""), ("\u{2022} \u{2022} x", "\u{2022} "), ("a", "abc"),
    ] {
        assert_eq!(starts_with(text, prefix), text.starts_with(prefix), "{text:?} {prefix:?}");
        if !prefix.is_empty() {
            assert_eq!(
                trim_start_matches(text, prefix),
                text.trim_start_matches(prefix),
                "{text:?} {prefix:?}"
            );
        }
    }
}

#[test]
fn characters_and_joining() {
    assert_eq!(characters("a\u{e9}\u{1f600}"), vec!['a', '\u{e9}', '\u{1f600}']);
    let none: Vec<String> = vec![];
    assert_eq!(join(&none, "; "), "");
    assert_eq!(join(&vec!["a".to_string()], "; "), "a");
    assert_eq!(join(&vec!["a".to_string(), "".to_string(), "c".to_string()], "; "), "a; ; c");
}
