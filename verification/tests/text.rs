use math_session::text::{
    append_chars, append_str, chars_of, contains_chars, find_char, is_whitespace, matches_at,
    remove_all, replace_char, same_chars, slice_of, spells, string_of, trim, trim_end,
};

fn chars(s: &str) -> Vec<char> {
    s.chars().collect()
}

#[test]
fn a_string_and_its_characters_give_each_other() {
    for s in ["", "a", "x = {-b \\pm \\sqrt{b^2-4ac} \\over 2a}", "\u{2801}\u{E9}\u{1D465}\n"] {
        assert_eq!(chars_of(s), chars(s));
        assert_eq!(string_of(&chars(s)), s);
    }
    assert_eq!(string_of(&vec!['a', 'b']), "ab");
}

#[test]
fn white_space_is_what_the_standard_library_takes_for_it() {
    for code in 0..=0x3100u32 {
        if let Some(c) = char::from_u32(code) {
            assert_eq!(is_whitespace(c), c.is_whitespace(), "U+{:04X}", code);
        }
    }
    assert!(!is_whitespace('\u{10FFFF}'));
}

#[test]
fn trimming_agrees_with_the_standard_library() {
    for s in ["", " ", "a", " a", "a ", "  a b  ", "\t\na\u{A0}", "\u{3000}", "a\u{200B}"] {
        assert_eq!(string_of(&trim(&chars(s))), s.trim());
        assert_eq!(string_of(&trim_end(&chars(s))), s.trim_end());
    }
}

#[test]
fn removing_agrees_with_replacing_by_nothing() {
    let cases = [
        ("", "ab"),
        ("ab", "ab"),
        ("abab", "ab"),
        ("aab", "ab"),
        ("aabb", "ab"),
        ("ababa", "aba"),
        ("aaaa", "aa"),
        ("aaa", "aa"),
        ("xabyabz", "ab"),
        ("abc", ""),
        ("abc", "abcd"),
        ("\u{E9}t\u{E9}", "\u{E9}"),
    ];
    for (text, pattern) in cases {
        if pattern.is_empty() {
            assert_eq!(string_of(&remove_all(&chars(text), &chars(pattern))), text);
        } else {
            assert_eq!(
                string_of(&remove_all(&chars(text), &chars(pattern))),
                text.replace(pattern, ""),
                "{:?} without {:?}",
                text,
                pattern
            );
        }
    }
}

#[test]
fn replacing_a_character_replaces_each_one() {
    assert_eq!(string_of(&replace_char(&chars("a\nb\n\n"), '\n', ' ')), "a b  ");
    assert_eq!(string_of(&replace_char(&chars("abc"), 'x', 'y')), "abc");
    assert_eq!(string_of(&replace_char(&chars(""), 'x', 'y')), "");
}

#[test]
fn finding_and_matching() {
    let v = chars("key=value;k2=v2");
    assert_eq!(find_char(&v, 0, '='), 3);
    assert_eq!(find_char(&v, 4, '='), 12);
    assert_eq!(find_char(&v, 13, '='), 15);
    assert_eq!(find_char(&v, 15, '='), 15);
    assert_eq!(find_char(&v, 0, ';'), 9);
    assert!(matches_at(&v, &chars("value"), 4));
    assert!(!matches_at(&v, &chars("value"), 3));
    assert!(!matches_at(&v, &chars("v2x"), 13));
    assert!(matches_at(&v, &chars(""), 15));
    assert!(!matches_at(&v, &chars(""), 16));
    assert!(!matches_at(&v, &chars("k"), usize::MAX));
    assert!(contains_chars(&v, &chars("k2")));
    assert!(contains_chars(&v, &chars("")));
    assert!(contains_chars(&v, &chars("key=value;k2=v2")));
    assert!(!contains_chars(&v, &chars("key=value;k2=v2 ")));
    assert!(!contains_chars(&v, &chars("v3")));
}

#[test]
fn comparing_slicing_and_appending() {
    assert!(same_chars(&chars("abc"), &chars("abc")));
    assert!(!same_chars(&chars("abc"), &chars("abd")));
    assert!(!same_chars(&chars("abc"), &chars("ab")));
    assert!(spells(&chars("Escape"), "Escape"));
    assert!(!spells(&chars("Escape"), "escape"));
    assert_eq!(slice_of(&chars("abcdef"), 2, 4), chars("cd"));
    assert_eq!(slice_of(&chars("abcdef"), 6, 6), chars(""));
    let mut v = chars("ab");
    append_chars(&mut v, &chars("cd"));
    append_str(&mut v, "ef");
    assert_eq!(v, chars("abcdef"));
}
