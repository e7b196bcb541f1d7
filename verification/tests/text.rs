use shame_bot::text::chars_of;
use shame_bot::text::matches_at;
use shame_bot::text::push_all;
use shame_bot::text::push_decimal;
use shame_bot::text::substitute;
use shame_bot::text::string_of;

fn marks(pairs: &[(&str, &str)]) -> Vec<(Vec<char>, Vec<char>)> {
    pairs.iter().map(|(mark, value)| (chars_of(mark), chars_of(value))).collect()
}

fn fill(text: &str, pairs: &[(&str, &str)]) -> String {
    string_of(&substitute(&chars_of(text), &marks(pairs)))
}

fn replace(text: &str, pattern: &str, with: &str) -> String {
    fill(text, &[(pattern, with)])
}

fn decimal(number: u128) -> String {
    let mut out = Vec::new();
    push_decimal(&mut out, number);
    string_of(&out)
}

#[test]
fn characters_come_out_as_they_went_in() {
    assert_eq!(chars_of("héllo"), vec!['h', 'é', 'l', 'l', 'o']);
    assert_eq!(chars_of(""), Vec::<char>::new());
    assert_eq!(string_of(&vec!['a', 'µ', 's']), "aµs");
    assert_eq!(string_of(&chars_of("🐕 in the kennel")), "🐕 in the kennel");
}

#[test]
fn push_all_puts_the_rest_behind() {
    let mut out = vec!['a', 'b'];
    push_all(&mut out, &vec!['c', 'd']);
    assert_eq!(out, vec!['a', 'b', 'c', 'd']);
    push_all(&mut out, &Vec::new());
    assert_eq!(out, vec!['a', 'b', 'c', 'd']);
}

#[test]
fn numbers_are_written_in_decimal() {
    assert_eq!(decimal(0), "0");
    assert_eq!(decimal(9), "9");
    assert_eq!(decimal(10), "10");
    assert_eq!(decimal(1_700_000_000), "1700000000");
    assert_eq!(decimal(u64::MAX as u128), "18446744073709551615");
    assert_eq!(decimal(u128::MAX), "340282366920938463463374607431768211455");
}

#[test]
fn a_number_is_written_behind_what_is_there() {
    let mut out = vec!['#'];
    push_decimal(&mut out, 407);
    assert_eq!(out, vec!['#', '4', '0', '7']);
}

#[test]
fn a_pattern_stands_where_it_stands() {
    let text = chars_of("kennel");
    assert!(matches_at(&text, 0, &chars_of("ken")));
    assert!(matches_at(&text, 3, &chars_of("nel")));
    assert!(!matches_at(&text, 1, &chars_of("ken")));
    assert!(!matches_at(&text, 4, &chars_of("nel")));
    assert!(matches_at(&text, 6, &chars_of("")));
    assert!(!matches_at(&text, 6, &chars_of("l")));
    assert!(!matches_at(&text, 7, &chars_of("")));
    assert!(!matches_at(&text, usize::MAX, &chars_of("k")));
}

#[test]
fn an_empty_pattern_is_found_nowhere() {
    assert_eq!(replace("kennel", "", "x"), "kennel");
    assert_eq!(replace("", "", "x"), "");
}

#[test]
fn every_find_is_replaced() {
    assert_eq!(replace("a-b-c", "-", "+"), "a+b+c");
    assert_eq!(replace("$x$x", "$x", "yy"), "yyyy");
    assert_eq!(replace("$x", "$x", ""), "");
}

#[test]
fn a_text_without_the_pattern_stays() {
    assert_eq!(replace("nothing here", "$time", "3m"), "nothing here");
    assert_eq!(replace("", "$time", "3m"), "");
    assert_eq!(replace("$tim", "$time", "3m"), "$tim");
}

#[test]
fn the_search_goes_on_behind_the_last_find() {
    assert_eq!(replace("aaa", "aa", "b"), "ba");
    assert_eq!(replace("aaaa", "aa", "b"), "bb");
    assert_eq!(replace("abab", "ab", "a"), "aa");
    assert_eq!(replace("xx", "x", "xx"), "xxxx");
}

#[test]
fn each_mark_gets_its_own_value() {
    assert_eq!(fill("a-b+c", &[("-", "+"), ("+", "-")]), "a+b-c");
    assert_eq!(fill("$x$y$x", &[("$x", "1"), ("$y", "22")]), "1221");
    assert_eq!(fill("xyz", &[]), "xyz");
    assert_eq!(fill("", &[("a", "b")]), "");
}

#[test]
fn what_was_written_is_not_read_again() {
    assert_eq!(fill("$x", &[("$x", "$y"), ("$y", "z")]), "$y");
    assert_eq!(fill("$y", &[("$x", "$y"), ("$y", "$x")]), "$x");
    assert_eq!(fill("ab", &[("a", "b"), ("b", "a")]), "ba");
    assert_eq!(fill("$$x", &[("$x", "x")]), "$x");
}

#[test]
fn of_two_marks_at_one_place_the_first_is_taken() {
    assert_eq!(fill("abc", &[("ab", "1"), ("abc", "2")]), "1c");
    assert_eq!(fill("abc", &[("abc", "2"), ("ab", "1")]), "2");
    assert_eq!(fill("abc", &[("", "x"), ("b", "y")]), "ayc");
}

#[test]
fn one_mark_is_replaced_as_std_replaces() {
    let texts = ["", "a", "$time $time", "ab$ab$$ab", "ааа$время", "$$$$", "$a$b$a"];
    let patterns = ["$", "$time", "ab", "$a", "а", "$$"];
    let withs = ["", "x", "$", "ab", "$time"];
    for text in texts {
        for pattern in patterns {
            for with in withs {
                assert_eq!(replace(text, pattern, with), text.replace(pattern, with));
            }
        }
    }
}
