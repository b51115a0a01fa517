use oauth2_flow::codec::{
    read_decimal, read_number_field, read_optional_number_field, read_optional_text_field,
    read_text_field, write_decimal, write_number_field, write_optional_number_field,
    write_optional_text_field, write_text_field,
};

fn chars(text: &str) -> Vec<char> {
    text.chars().collect()
}

fn text(chars: &[char]) -> String {
    chars.iter().collect()
}

#[test]
fn decimals_are_written_without_leading_zeros() {
    let mut out = chars("n=");
    write_decimal(&mut out, 0);
    assert_eq!(text(&out), "n=0");
    write_decimal(&mut out, 7);
    write_decimal(&mut out, 10);
    write_decimal(&mut out, 1060);
    assert_eq!(text(&out), "n=07101060");
    let mut out = Vec::new();
    write_decimal(&mut out, u64::MAX);
    assert_eq!(text(&out), "18446744073709551615");
}

#[test]
fn fields_are_written_with_their_marks() {
    let mut out = Vec::new();
    write_number_field(&mut out, 42);
    write_text_field(&mut out, "a:b");
    write_text_field(&mut out, "");
    write_optional_number_field(&mut out, None);
    write_optional_number_field(&mut out, Some(0));
    write_optional_text_field(&mut out, &None);
    write_optional_text_field(&mut out, &Some("é".to_string()));
    assert_eq!(text(&out), "42;3:a:b0:-+0;-+1:é");
}

#[test]
fn a_decimal_is_read_up_to_the_first_other_character() {
    assert_eq!(read_decimal(&chars("1060;rest"), 0), Some((1060, 4)));
    assert_eq!(read_decimal(&chars("ab12"), 2), Some((12, 4)));
    assert_eq!(read_decimal(&chars("ab12"), 3), Some((2, 4)));
    assert_eq!(read_decimal(&chars("007x"), 0), Some((7, 3)));
    assert_eq!(read_decimal(&chars("0"), 0), Some((0, 1)));
    assert_eq!(read_decimal(&chars("18446744073709551615:"), 0), Some((u64::MAX, 20)));
}

#[test]
fn a_decimal_needs_a_digit_and_64_bits() {
    assert_eq!(read_decimal(&chars(""), 0), None);
    assert_eq!(read_decimal(&chars("x1"), 0), None);
    assert_eq!(read_decimal(&chars("12"), 2), None);
    assert_eq!(read_decimal(&chars("12"), 3), None);
    assert_eq!(read_decimal(&chars("-1"), 0), None);
    assert_eq!(read_decimal(&chars("18446744073709551616"), 0), None);
    assert_eq!(read_decimal(&chars("184467440737095516150"), 0), None);
    assert_eq!(read_decimal(&chars("٣"), 0), None);
}

#[test]
fn a_number_field_ends_with_its_mark() {
    assert_eq!(read_number_field(&chars("1060;3:tok"), 0), Some((1060, 5)));
    assert_eq!(read_number_field(&chars("1060"), 0), None);
    assert_eq!(read_number_field(&chars("1060:"), 0), None);
    assert_eq!(read_number_field(&chars(";"), 0), None);
}

#[test]
fn a_text_field_holds_as_many_characters_as_it_says() {
    assert_eq!(read_text_field(&chars("3:tok-"), 0), Some(("tok".to_string(), 5)));
    assert_eq!(read_text_field(&chars("xx0:"), 2), Some(("".to_string(), 4)));
    assert_eq!(read_text_field(&chars("2:é😀!"), 0), Some(("é😀".to_string(), 4)));
    assert_eq!(read_text_field(&chars("3:3:x"), 0), Some(("3:x".to_string(), 5)));
    assert_eq!(read_text_field(&chars("4:tok"), 0), None);
    assert_eq!(read_text_field(&chars("3;tok"), 0), None);
    assert_eq!(read_text_field(&chars("3"), 0), None);
    assert_eq!(read_text_field(&chars(":tok"), 0), None);
    assert_eq!(read_text_field(&chars("18446744073709551615:tok"), 0), None);
}

#[test]
fn an_optional_field_is_absent_or_present() {
    assert_eq!(read_optional_number_field(&chars("-x"), 0), Some((None, 1)));
    assert_eq!(read_optional_number_field(&chars("+12;x"), 0), Some((Some(12), 4)));
    assert_eq!(read_optional_number_field(&chars("12;"), 0), None);
    assert_eq!(read_optional_number_field(&chars("+12"), 0), None);
    assert_eq!(read_optional_number_field(&chars(""), 0), None);
    assert_eq!(read_optional_number_field(&chars("-"), 1), None);
    assert_eq!(read_optional_text_field(&chars("-x"), 0), Some((None, 1)));
    assert_eq!(
        read_optional_text_field(&chars("+5:email2"), 0),
        Some((Some("email".to_string()), 8))
    );
    assert_eq!(read_optional_text_field(&chars("+5:emai"), 0), None);
    assert_eq!(read_optional_text_field(&chars("5:email"), 0), None);
    assert_eq!(read_optional_text_field(&chars("+"), 0), None);
}

#[test]
fn what_was_written_is_read_back() {
    let mut out = Vec::new();
    write_number_field(&mut out, 9_000_000_000);
    write_optional_text_field(&mut out, &Some("+-;:0".to_string()));
    write_optional_number_field(&mut out, Some(u64::MAX));
    write_text_field(&mut out, "12;34");
    let (number, at) = read_number_field(&out, 0).unwrap();
    assert_eq!(number, 9_000_000_000);
    let (optional_text, at) = read_optional_text_field(&out, at).unwrap();
    assert_eq!(optional_text, Some("+-;:0".to_string()));
    let (optional_number, at) = read_optional_number_field(&out, at).unwrap();
    assert_eq!(optional_number, Some(u64::MAX));
    let (last, at) = read_text_field(&out, at).unwrap();
    assert_eq!(last, "12;34");
    assert_eq!(at, out.len());
}
