use dev_widgets::utils::{add_number_delimiters, sanitize_string};

#[test]
fn delimiters_group_from_the_right() {
    assert_eq!(add_number_delimiters("1234567".to_string(), ',', 3), "1,234,567");
    assert_eq!(add_number_delimiters("123456".to_string(), ',', 3), "123,456");
    assert_eq!(add_number_delimiters("11111111".to_string(), ' ', 4), "1111 1111");
    assert_eq!(add_number_delimiters("101".to_string(), ' ', 4), "101");
    assert_eq!(add_number_delimiters("".to_string(), ',', 3), "");
    assert_eq!(add_number_delimiters("7".to_string(), ',', 0), "7");
    assert_eq!(add_number_delimiters("12345".to_string(), '_', 1), "1_2_3_4_5");
    assert_eq!(add_number_delimiters("-1234".to_string(), ',', 3), "-1,234");
}

#[test]
fn sanitize_keeps_ascii_letters_and_digits() {
    assert_eq!(sanitize_string("12 34-ab_CD!".to_string()), "1234abCD");
    assert_eq!(sanitize_string("".to_string()), "");
    assert_eq!(sanitize_string("ÿé9z".to_string()), "9z");
    assert_eq!(sanitize_string("0x1F".to_string()), "0x1F");
}
