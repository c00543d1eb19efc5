use deepseek_bot::sanitize::escape_markdown;

#[test]
fn escape_plain_text_unchanged() {
    assert_eq!(escape_markdown(String::from("Hello World")), "Hello World");
}

#[test]
fn escape_sentence() {
    assert_eq!(escape_markdown(String::from("Hello. World!")), "Hello\\. World\\!");
}

#[test]
fn escape_every_reserved_character() {
    let input = String::from("\\_*[]()~`>#+-=|{}.!");
    let expected = "\\\\\\_\\*\\[\\]\\(\\)\\~\\`\\>\\#\\+\\-\\=\\|\\{\\}\\.\\!";
    assert_eq!(escape_markdown(input), expected);
}

#[test]
fn escape_mixed_content() {
    assert_eq!(
        escape_markdown(String::from("a*b_c[d]e")),
        "a\\*b\\_c\\[d\\]e"
    );
}

#[test]
fn escaped_reserved_chars_each_carry_one_backslash() {
    let out = escape_markdown(String::from("x.y.z"));
    assert_eq!(out, "x\\.y\\.z");
    let mut chars = out.chars().peekable();
    while let Some(c) = chars.next() {
        if c == '\\' {
            let payload = chars.next().expect("a backslash escapes a following character");
            assert!("\\_*[]()~`>#+-=|{}.!".contains(payload));
        } else {
            assert!(!"\\_*[]()~`>#+-=|{}.!".contains(c));
        }
    }
}

#[test]
fn truncation_caps_at_limit() {
    let long = "a".repeat(3000);
    let out = escape_markdown(long);
    assert_eq!(out.len(), 2048);
    assert!(out.chars().all(|c| c == 'a'));
}

#[test]
fn truncation_never_splits_a_multibyte_character() {
    // 2047 single-byte characters followed by a three-byte one: the last
    // character does not fit in the 2048-byte limit and is dropped whole.
    let mut input = "a".repeat(2047);
    input.push('\u{20AC}');
    let out = escape_markdown(input);
    assert_eq!(out, "a".repeat(2047));
    assert!(out.len() <= 2048);
}

#[test]
fn truncation_keeps_a_fitting_multibyte_character() {
    // 2045 single-byte characters and a three-byte one: exactly 2048 bytes.
    let mut input = "a".repeat(2045);
    input.push('\u{20AC}');
    let out = escape_markdown(input.clone());
    assert_eq!(out, input);
}

#[test]
fn truncation_comes_before_escaping() {
    // Escaping may lengthen the text beyond the limit: the limit binds the
    // kept prefix of the input, not the escaped output.
    let out = escape_markdown(".".repeat(3000));
    assert_eq!(out, "\\.".repeat(2048));
}

#[test]
fn escape_empty_text() {
    assert_eq!(escape_markdown(String::new()), "");
}
