use edcore::text::{chars_upto, copy_chars, dec_chars, slice_chars, split_lines, str_chars};

fn string_of(v: &[char]) -> String {
    v.iter().collect()
}

#[test]
fn str_chars_lists_the_characters() {
    assert_eq!(string_of(&str_chars("hello")), "hello");
    assert_eq!(str_chars("").len(), 0);
}

#[test]
fn copy_chars_copies_exactly() {
    let v: Vec<char> = "a\tb".chars().collect();
    assert_eq!(copy_chars(&v), v);
}

#[test]
fn dec_chars_formats_decimals() {
    assert_eq!(string_of(&dec_chars(0)), "0");
    assert_eq!(string_of(&dec_chars(7)), "7");
    assert_eq!(string_of(&dec_chars(10)), "10");
    assert_eq!(string_of(&dec_chars(12345)), "12345");
    assert_eq!(string_of(&dec_chars(100)), "100");
}

#[test]
fn chars_upto_cuts_at_the_width() {
    let v: Vec<char> = "abcdef".chars().collect();
    assert_eq!(string_of(&chars_upto(&v, 3)), "abc");
    assert_eq!(string_of(&chars_upto(&v, 6)), "abcdef");
    assert_eq!(string_of(&chars_upto(&v, 10)), "abcdef");
    assert_eq!(string_of(&chars_upto(&v, 0)), "");
}

#[test]
fn split_lines_splits_on_newlines() {
    let lines = split_lines("alpha\nbeta\ngamma");
    let texts: Vec<String> = lines.iter().map(|l| string_of(l)).collect();
    assert_eq!(texts, ["alpha", "beta", "gamma"]);
}

#[test]
fn split_lines_of_empty_text_is_one_empty_line() {
    let lines = split_lines("");
    assert_eq!(lines.len(), 1);
    assert_eq!(lines[0].len(), 0);
}

#[test]
fn split_lines_keeps_a_trailing_empty_line() {
    let lines = split_lines("x\n");
    let texts: Vec<String> = lines.iter().map(|l| string_of(l)).collect();
    assert_eq!(texts, ["x", ""]);
}

#[test]
fn split_lines_keeps_empty_middle_lines() {
    let lines = split_lines("a\n\nb");
    let texts: Vec<String> = lines.iter().map(|l| string_of(l)).collect();
    assert_eq!(texts, ["a", "", "b"]);
}

#[test]
fn slice_chars_takes_the_given_range() {
    let v: Vec<char> = "abcdef".chars().collect();
    assert_eq!(string_of(&slice_chars(&v, 1, 4)), "bcd");
    assert_eq!(string_of(&slice_chars(&v, 0, 0)), "");
}
