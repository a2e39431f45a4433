use ephosh::text::{
    blank, chars_of, is_word, join_from, parse_number, split_fields, split_words, string_of,
    strings_of,
};

fn chars(s: &str) -> Vec<char> {
    s.chars().collect()
}

fn words(line: &str) -> Vec<String> {
    strings_of(&split_words(&chars(line)))
}

#[test]
fn strings_and_characters_convert_both_ways() {
    assert_eq!(chars_of("héllo"), vec!['h', 'é', 'l', 'l', 'o']);
    assert_eq!(chars_of(""), Vec::<char>::new());
    assert_eq!(string_of(&vec!['a', 'ß', 'c']), "aßc");
    assert_eq!(string_of(&Vec::new()), "");
    assert_eq!(strings_of(&vec![chars("ab"), chars(""), chars("c")]), vec!["ab", "", "c"]);
}

#[test]
fn whole_words_compare() {
    assert!(is_word(&chars("clear"), "clear"));
    assert!(!is_word(&chars("clear"), "clean"));
    assert!(!is_word(&chars("clear"), "clea"));
    assert!(!is_word(&chars("cle"), "clear"));
    assert!(is_word(&chars(""), ""));
}

#[test]
fn blanks_separate_words() {
    assert!(blank(' '));
    assert!(blank('\t'));
    assert!(blank('\n'));
    assert!(blank('\r'));
    assert!(blank('\u{b}'));
    assert!(blank('\u{c}'));
    assert!(!blank('a'));
    assert!(!blank('\u{8}'));
    assert!(!blank('\u{e}'));
    assert!(!blank('_'));
}

#[test]
fn lines_fall_into_words() {
    assert_eq!(words("send 1 hello"), vec!["send", "1", "hello"]);
    assert_eq!(words("  ls   -la\t/tmp  "), vec!["ls", "-la", "/tmp"]);
    assert_eq!(words("one"), vec!["one"]);
    assert_eq!(words("a b"), vec!["a", "b"]);
    assert!(words("").is_empty());
    assert!(words("   \t ").is_empty());
}

#[test]
fn words_join_with_single_spaces() {
    let all = split_words(&chars("send 1  hello   big world"));
    assert_eq!(string_of(&join_from(&all, 2)), "hello big world");
    assert_eq!(string_of(&join_from(&all, 4)), "world");
    assert_eq!(string_of(&join_from(&all, 5)), "");
    assert_eq!(string_of(&join_from(&all, 6)), "");
    assert_eq!(string_of(&join_from(&all, 0)), "send 1 hello big world");
}

#[test]
fn decimal_numbers_are_read() {
    assert_eq!(parse_number(&chars("0")), Some(0));
    assert_eq!(parse_number(&chars("7")), Some(7));
    assert_eq!(parse_number(&chars("42")), Some(42));
    assert_eq!(parse_number(&chars("007")), Some(7));
    assert_eq!(parse_number(&chars("1234567890")), Some(1234567890));
    assert_eq!(parse_number(&chars(&usize::MAX.to_string())), Some(usize::MAX));
}

#[test]
fn what_is_no_number_is_refused() {
    assert_eq!(parse_number(&chars("")), None);
    assert_eq!(parse_number(&chars("x")), None);
    assert_eq!(parse_number(&chars("-1")), None);
    assert_eq!(parse_number(&chars("+1")), None);
    assert_eq!(parse_number(&chars("1x")), None);
    assert_eq!(parse_number(&chars("1 ")), None);
    assert_eq!(parse_number(&chars("٣")), None);
}

#[test]
fn numbers_beyond_the_machine_are_refused() {
    let mut digits = usize::MAX.to_string();
    let last = digits.pop().unwrap();
    let next = char::from_digit(last.to_digit(10).unwrap() + 1, 10).unwrap();
    digits.push(next);
    assert_eq!(parse_number(&chars(&digits)), None);
    assert_eq!(parse_number(&chars(&format!("{}0", usize::MAX))), None);
    assert_eq!(parse_number(&chars("99999999999999999999999999999999")), None);
}

#[test]
fn fields_stand_between_separators() {
    assert_eq!(split_fields("/usr/bin:/bin", ':'), vec!["/usr/bin", "/bin"]);
    assert_eq!(split_fields("/bin", ':'), vec!["/bin"]);
    assert_eq!(split_fields("", ':'), vec![""]);
    assert_eq!(split_fields(":a::b:", ':'), vec!["", "a", "", "b", ""]);
}
