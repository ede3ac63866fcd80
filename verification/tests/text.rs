use wezterm_ai::text::{
    cat2, cat3, chars_of, contains, contains_line, decimal, replace, same, starts_with,
    strip_prefix, trim, trim_end_matches,
};

#[test]
fn trim_agrees_with_std_on_every_character() {
    for n in 0..=0x10ffffu32 {
        if let Some(c) = char::from_u32(n) {
            let text = format!("{c}a{c}");
            assert_eq!(trim(&text), text.trim(), "U+{n:04X}");
        }
    }
}

#[test]
fn trim_keeps_inner_space() {
    assert_eq!(trim("  a b \n"), "a b");
    assert_eq!(trim(""), "");
    assert_eq!(trim(" \t\r\n"), "");
    assert_eq!(trim("\u{3000}é ü\u{2028}"), "é ü");
}

#[test]
fn trim_twice_is_trim_once() {
    for text in ["  a  ", "", " ", "a", "\u{a0}x y\u{85}"] {
        assert_eq!(trim(&trim(text)), trim(text));
    }
}

#[test]
fn padding_does_not_matter() {
    assert_eq!(trim("\n\t  seven words \u{2003}\n"), trim("seven words"));
}

#[test]
fn trim_end_takes_every_slash() {
    assert_eq!(trim_end_matches("http://a/v1///", '/'), "http://a/v1");
    assert_eq!(trim_end_matches("http://a", '/'), "http://a");
    assert_eq!(trim_end_matches("///", '/'), "");
    assert_eq!(trim_end_matches("éé", 'é'), "");
}

#[test]
fn search_agrees_with_std() {
    let texts = ["", "a", "ab", "aab", "abab", "äbä", "xaabx"];
    for s in texts {
        for p in texts {
            assert_eq!(contains(s, p), s.contains(p), "{s:?} {p:?}");
            assert_eq!(starts_with(s, p), s.starts_with(p), "{s:?} {p:?}");
            let stripped = strip_prefix(s, p);
            assert_eq!(stripped.as_deref(), s.strip_prefix(p), "{s:?} {p:?}");
            assert_eq!(same(s, p), s == p);
            assert_eq!(cat2(s, p), format!("{s}{p}"));
            assert_eq!(cat3(s, "-", p), format!("{s}-{p}"));
        }
    }
}

#[test]
fn replace_agrees_with_std() {
    for s in ["", "aaa", "aaaa", "xaay", "a\r\nb\n", "ééa"] {
        for from in ["a", "aa", "\r\n", "é", "zz"] {
            for to in ["", "b", "aa", "\n"] {
                assert_eq!(replace(s, from, to), s.replace(from, to), "{s:?} {from:?} {to:?}");
            }
        }
    }
}

#[test]
fn characters_come_in_order() {
    assert_eq!(chars_of("aé€"), vec!['a', 'é', '€']);
}

#[test]
fn decimals_have_no_leading_zeros() {
    for n in [0usize, 1, 9, 10, 99, 100, 1234567890, usize::MAX] {
        assert_eq!(decimal(n), format!("{n}"));
    }
}

#[test]
fn a_line_is_found_trimmed_and_whole() {
    assert!(contains_line("one\n  two \nthree", "two"));
    assert!(contains_line("one\r\ntwo\r\n", "two"));
    assert!(contains_line("three", "three"));
    assert!(!contains_line("one\ntwofold", "two"));
    assert!(!contains_line("", "two"));
    assert!(!contains_line("tw\no", "two"));
}
