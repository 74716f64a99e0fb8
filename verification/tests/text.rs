use camp_grader::text::{
    contains_chars, ends_with_chars, find, is_whitespace, matches_at, next_line, same_chars,
    same_text, starts_with_chars, text_contains, text_ends_with, text_starts_with, to_chars,
    token_bounds, trimmed_start, CharClass,
};

fn chars(s: &str) -> Vec<char> {
    s.chars().collect()
}

fn lines_of(text: &str) -> Vec<String> {
    let all = to_chars(text);
    let mut lines = Vec::new();
    let mut from = 0;
    while let Some((end, next)) = next_line(&all, from) {
        lines.push(all[from..end].iter().collect::<String>());
        assert!(next > from);
        from = next;
    }
    assert!(from >= all.len());
    lines
}

const SAMPLES: [&str; 14] = [
    "",
    "\n",
    "\r\n",
    "a",
    "a\n",
    "a\r\n",
    "a\r",
    "a\rb\n",
    "a\n\nb",
    "\n\na\n",
    "one\r\ntwo\nthree\r\n",
    "tail\r\r\n",
    "  lead and trail  \n\t\n",
    "exercise01 ... passed\nexercise02 ... failed",
];

#[test]
fn to_chars_keeps_every_character() {
    assert_eq!(to_chars(""), Vec::<char>::new());
    assert_eq!(to_chars("a\u{e9}\u{4e2d}\u{1f600}"), vec!['a', '\u{e9}', '\u{4e2d}', '\u{1f600}']);
}

#[test]
fn white_space_is_that_of_the_standard_library() {
    for n in 0..=0x10FFFFu32 {
        if let Some(c) = char::from_u32(n) {
            assert_eq!(is_whitespace(c), c.is_whitespace(), "U+{:04X}", n);
        }
    }
}

#[test]
fn char_classes_tell_their_members() {
    assert!(CharClass::LineFeed.test('\n'));
    assert!(!CharClass::LineFeed.test('\r'));
    assert!(CharClass::Blank.test(' '));
    assert!(CharClass::Blank.test('\n'));
    assert!(!CharClass::Blank.test('x'));
    assert!(CharClass::Visible.test('x'));
    assert!(!CharClass::Visible.test('\t'));
}

#[test]
fn find_stops_at_the_first_member_or_the_end() {
    let s = chars("ab cd\nef");
    assert_eq!(find(&s, 0, CharClass::Blank), 2);
    assert_eq!(find(&s, 2, CharClass::Blank), 2);
    assert_eq!(find(&s, 3, CharClass::Blank), 5);
    assert_eq!(find(&s, 0, CharClass::LineFeed), 5);
    assert_eq!(find(&s, 6, CharClass::LineFeed), 8);
    assert_eq!(find(&s, 8, CharClass::Visible), 8);
    assert_eq!(find(&s, 2, CharClass::Visible), 3);
    assert_eq!(find(&s, 9, CharClass::Visible), 8);
    assert_eq!(find(&[], 0, CharClass::Blank), 0);
}

#[test]
fn matches_at_compares_in_place() {
    let s = chars("abcabc");
    assert!(matches_at(&s, 0, &chars("abc")));
    assert!(matches_at(&s, 3, &chars("abc")));
    assert!(!matches_at(&s, 1, &chars("abc")));
    assert!(!matches_at(&s, 4, &chars("abc")));
    assert!(matches_at(&s, 6, &chars("")));
    assert!(!matches_at(&s, 7, &chars("")));
}

#[test]
fn contains_agrees_with_the_standard_library() {
    let hays = ["", "a", "error:", "an error: here", "erro", "xxexercisexx", "aaab", "abababc"];
    let pats = ["", "a", "error:", "exercise", "aab", "ababc", "b", "abababcd"];
    for hay in hays {
        for pat in pats {
            assert_eq!(contains_chars(&chars(hay), &chars(pat)), hay.contains(pat), "{hay:?} {pat:?}");
            assert_eq!(text_contains(hay, pat), hay.contains(pat));
            assert_eq!(
                starts_with_chars(&chars(hay), &chars(pat)),
                hay.starts_with(pat),
                "{hay:?} {pat:?}"
            );
            assert_eq!(text_starts_with(hay, pat), hay.starts_with(pat));
            assert_eq!(ends_with_chars(&chars(hay), &chars(pat)), hay.ends_with(pat), "{hay:?} {pat:?}");
            assert_eq!(text_ends_with(hay, pat), hay.ends_with(pat));
            assert_eq!(same_chars(&chars(hay), &chars(pat)), hay == pat);
            assert_eq!(same_text(hay, pat), hay == pat);
        }
    }
}

#[test]
fn trimmed_start_agrees_with_the_standard_library() {
    let cases = ["", "exercise", "exercise1", "exerciseexercise1", "1exercise", "exercis", "exerciseexercis"];
    for s in cases {
        let at = trimmed_start(&chars(s), &chars("exercise"));
        let rest: String = chars(s)[at..].iter().collect();
        assert_eq!(rest, s.trim_start_matches("exercise"), "{s:?}");
    }
    assert_eq!(trimmed_start(&chars("aaa"), &chars("")), 0);
    assert_eq!(trimmed_start(&chars("aaab"), &chars("a")), 3);
    assert_eq!(trimmed_start(&chars("aaa"), &chars("aa")), 2);
}

#[test]
fn lines_agree_with_the_standard_library() {
    for text in SAMPLES {
        let expected: Vec<String> = text.lines().map(|l| l.to_string()).collect();
        assert_eq!(lines_of(text), expected, "{text:?}");
    }
}

#[test]
fn line_bounds_of_a_known_text() {
    let s = chars("ab\r\ncd\n\nef");
    assert_eq!(next_line(&s, 0), Some((2, 4)));
    assert_eq!(next_line(&s, 4), Some((6, 7)));
    assert_eq!(next_line(&s, 7), Some((7, 8)));
    assert_eq!(next_line(&s, 8), Some((10, 10)));
    assert_eq!(next_line(&s, 10), None);
    assert_eq!(next_line(&s, 11), None);
    assert_eq!(next_line(&[], 0), None);
}

#[test]
fn first_token_agrees_with_the_standard_library() {
    let cases = ["", "   ", "a", " a", "a ", "  first second", "\t\u{3000}x\u{a0}y", "one\ntwo"];
    for s in cases {
        let all = chars(s);
        let found = token_bounds(&all).map(|(start, end)| all[start..end].iter().collect::<String>());
        let expected = s.split_whitespace().next().map(|t| t.to_string());
        assert_eq!(found, expected, "{s:?}");
    }
    assert_eq!(token_bounds(&chars("  ab  cd")), Some((2, 4)));
    assert_eq!(token_bounds(&chars(" \t ")), None);
}
