use elektron::text::{chars_of, find_run, has_suffix, matches_at};
use elektron::text::{push_decimal, push_signed_decimal, push_two_digits};

fn chars(s: &str) -> Vec<char> {
    s.chars().collect()
}

#[test]
fn chars_of_gives_the_characters_in_order() {
    assert_eq!(chars_of(""), Vec::<char>::new());
    assert_eq!(chars_of("abc"), vec!['a', 'b', 'c']);
    assert_eq!(chars_of("øre/kWh"), vec!['ø', 'r', 'e', '/', 'k', 'W', 'h']);
}

#[test]
fn decimal_of_naturals() {
    for n in [0u64, 7, 9, 10, 11, 99, 100, 2025, 31536000, u64::MAX] {
        let mut out = String::from("n=");
        push_decimal(&mut out, n);
        assert_eq!(out, format!("n={}", n));
    }
}

#[test]
fn decimal_of_integers_with_sign() {
    for i in [0i64, 1, -1, 10, -10, 2025, -2025, i64::MAX, i64::MIN] {
        let mut out = String::new();
        push_signed_decimal(&mut out, i);
        assert_eq!(out, format!("{}", i));
    }
}

#[test]
fn two_digits_pad_with_a_zero() {
    for n in [0u64, 1, 9, 10, 12, 31, 99, 100, 12345] {
        let mut out = String::from("-");
        push_two_digits(&mut out, n);
        assert_eq!(out, format!("-{:02}", n));
    }
}

#[test]
fn run_is_found_wherever_it_stands() {
    assert!(find_run(&chars("..a"), &chars("..")));
    assert!(find_run(&chars("a..b"), &chars("..")));
    assert!(find_run(&chars("ab.."), &chars("..")));
    assert!(!find_run(&chars("a.b.c"), &chars("..")));
    assert!(!find_run(&chars("."), &chars("..")));
    assert!(!find_run(&chars(""), &chars("..")));
    assert!(find_run(&chars(""), &chars("")));
    assert!(find_run(&chars("abc"), &chars("")));
}

#[test]
fn match_at_a_place() {
    assert!(matches_at(&chars("Bold.woff2"), &chars(".woff"), 4));
    assert!(!matches_at(&chars("Bold.woff2"), &chars(".woff"), 5));
    assert!(!matches_at(&chars("Bold.woff2"), &chars(".woff"), 6));
    assert!(!matches_at(&chars("ab"), &chars("abc"), 0));
    assert!(matches_at(&chars("ab"), &chars(""), 2));
    assert!(!matches_at(&chars("ab"), &chars(""), 3));
}

#[test]
fn suffix_is_a_run_at_the_end() {
    assert!(has_suffix(&chars("Regular.woff2"), &chars(".woff2")));
    assert!(!has_suffix(&chars("Regular.woff2"), &chars(".woff")));
    assert!(has_suffix(&chars(".ttf"), &chars(".ttf")));
    assert!(!has_suffix(&chars("ttf"), &chars(".ttf")));
    assert!(!has_suffix(&chars("a.ttf "), &chars(".ttf")));
    assert!(has_suffix(&chars("abc"), &chars("")));
}
