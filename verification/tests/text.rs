use slint_demo::text::{decimal_string, split_words, trim_string};

#[test]
fn decimals() {
    assert_eq!(decimal_string(0), "0");
    assert_eq!(decimal_string(7), "7");
    assert_eq!(decimal_string(1234567), "1234567");
    assert_eq!(decimal_string(-45), "-45");
    assert_eq!(decimal_string(i64::MAX), i64::MAX.to_string());
    assert_eq!(decimal_string(i64::MIN), i64::MIN.to_string());
}

#[test]
fn trimming() {
    assert_eq!(trim_string("  a b \n"), "a b");
    assert_eq!(trim_string("\u{3000}x\u{a0}"), "x");
    assert_eq!(trim_string(" \t\n"), "");
    assert_eq!(trim_string(""), "");
}

#[test]
fn words_like_split_whitespace() {
    let text = "  default via\t10.0.0.1\n dev  eth0 ";
    let chars: Vec<char> = text.chars().collect();
    let ws: Vec<String> = split_words(&chars).into_iter().map(|w| w.into_iter().collect()).collect();
    let expected: Vec<String> = text.split_whitespace().map(|w| w.to_string()).collect();
    assert_eq!(ws, expected);
    assert!(split_words(&[' ', '\n']).is_empty());
}
