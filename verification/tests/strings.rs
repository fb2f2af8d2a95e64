use blurlock::strutil::{i64_to_string, replace_str, tokenize, u64_to_string};

fn token_strs(s: &str) -> Vec<String> {
    tokenize(s)
}

#[test]
fn decimal_zero() {
    assert_eq!(u64_to_string(0), "0");
    assert_eq!(i64_to_string(0), "0");
}

#[test]
fn decimal_small_and_round() {
    assert_eq!(u64_to_string(7), "7");
    assert_eq!(u64_to_string(10), "10");
    assert_eq!(u64_to_string(1920), "1920");
    assert_eq!(i64_to_string(1080), "1080");
}

#[test]
fn decimal_negative() {
    assert_eq!(i64_to_string(-5), "-5");
    assert_eq!(i64_to_string(-1920), "-1920");
}

#[test]
fn decimal_extremes() {
    assert_eq!(i64_to_string(i64::MAX), "9223372036854775807");
    assert_eq!(i64_to_string(i64::MIN), "-9223372036854775808");
    assert_eq!(u64_to_string(u64::MAX), "18446744073709551615");
}

#[test]
fn tokenize_empty_and_blank() {
    assert!(token_strs("").is_empty());
    assert!(token_strs("   \t  \n ").is_empty());
}

#[test]
fn tokenize_words() {
    assert_eq!(token_strs("filter $IN"), vec!["filter", "$IN"]);
    assert_eq!(token_strs("  -f   --x=1\t-y "), vec!["-f", "--x=1", "-y"]);
    assert_eq!(token_strs("one"), vec!["one"]);
}

#[test]
fn replace_single_occurrence() {
    assert_eq!(replace_str("blur $IN hard", "$IN", "/tmp/a"), "blur /tmp/a hard");
}

#[test]
fn replace_every_occurrence() {
    assert_eq!(replace_str("$IN and $IN", "$IN", "p"), "p and p");
    assert_eq!(replace_str("$IN$IN", "$IN", "x"), "xx");
}

#[test]
fn replace_without_occurrence_is_identity() {
    assert_eq!(replace_str("plain command", "$IN", "/tmp/a"), "plain command");
    assert_eq!(replace_str("", "$IN", "/tmp/a"), "");
}

#[test]
fn replace_empty_pattern_is_identity() {
    assert_eq!(replace_str("abc", "", "x"), "abc");
}

#[test]
fn replace_leftmost_first() {
    assert_eq!(replace_str("aaa", "aa", "b"), "ba");
}
