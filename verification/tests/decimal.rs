use rfa_tracker::decimal::{decode_number, digit_of, encode_number, push_number};
use rfa_tracker::fields::split_fields;
use rfa_tracker::text::{chars_of, same_text};

#[test]
fn numbers_are_written_in_decimal() {
    assert_eq!(encode_number(0), "0");
    assert_eq!(encode_number(7), "7");
    assert_eq!(encode_number(10), "10");
    assert_eq!(encode_number(745), "745");
    assert_eq!(encode_number(1000), "1000");
    assert_eq!(encode_number(usize::MAX), usize::MAX.to_string());
}

#[test]
fn digits_are_characters() {
    assert_eq!(digit_of(0), '0');
    assert_eq!(digit_of(5), '5');
    assert_eq!(digit_of(9), '9');
}

#[test]
fn push_number_appends() {
    let mut s = String::from("reps: ");
    push_number(&mut s, 120);
    assert_eq!(s, "reps: 120");
    push_number(&mut s, 0);
    assert_eq!(s, "reps: 1200");
}

#[test]
fn numbers_are_read_from_digits() {
    assert_eq!(decode_number("0"), Some(0));
    assert_eq!(decode_number("12"), Some(12));
    assert_eq!(decode_number("007"), Some(7));
    assert_eq!(decode_number("+5"), Some(5));
    assert_eq!(decode_number(&usize::MAX.to_string()), Some(usize::MAX));
}

#[test]
fn text_that_writes_no_number() {
    assert_eq!(decode_number(""), None);
    assert_eq!(decode_number("+"), None);
    assert_eq!(decode_number("-"), None);
    assert_eq!(decode_number("-5"), None);
    assert_eq!(decode_number("++5"), None);
    assert_eq!(decode_number("5+"), None);
    assert_eq!(decode_number("abc"), None);
    assert_eq!(decode_number("12a"), None);
    assert_eq!(decode_number(" 12"), None);
    assert_eq!(decode_number("12 "), None);
    assert_eq!(decode_number("1_000"), None);
    assert_eq!(decode_number("1.5"), None);
    assert_eq!(decode_number("١٢"), None);
}

#[test]
fn numbers_that_do_not_fit() {
    let too_big = format!("{}0", usize::MAX);
    assert_eq!(decode_number(&too_big), None);
    let one_more = (usize::MAX as u128 + 1).to_string();
    assert_eq!(decode_number(&one_more), None);
    assert_eq!(decode_number("99999999999999999999999999999999999999999"), None);
}

#[test]
fn decoding_agrees_with_the_standard_parser() {
    for text in ["", "0", "+0", "-0", "42", "+42", "4 2", "0042", "18446744073709551615",
        "18446744073709551616", "+", "x", "９"] {
        assert_eq!(decode_number(text), text.parse::<usize>().ok(), "{:?}", text);
    }
}

#[test]
fn written_numbers_read_back() {
    for n in [0usize, 1, 9, 10, 11, 99, 100, 101, 5000, 65535, 4294967295, usize::MAX] {
        assert_eq!(decode_number(&encode_number(n)), Some(n));
        assert_eq!(encode_number(n), n.to_string());
    }
}

#[test]
fn fields_between_commas() {
    assert_eq!(split_fields("25,320,390,745,"), vec!["25", "320", "390", "745"]);
    assert_eq!(split_fields("a,b"), vec!["a", "b"]);
    assert_eq!(split_fields("a"), vec!["a"]);
    assert_eq!(split_fields("#Upper Arms,#Chest,"), vec!["#Upper Arms", "#Chest"]);
}

#[test]
fn empty_fields_do_not_count() {
    assert_eq!(split_fields(""), Vec::<String>::new());
    assert_eq!(split_fields(","), Vec::<String>::new());
    assert_eq!(split_fields(",,,"), Vec::<String>::new());
    assert_eq!(split_fields(",a,,b,"), vec!["a", "b"]);
    assert_eq!(split_fields("a,,"), vec!["a"]);
}

#[test]
fn splitting_agrees_with_the_standard_split() {
    for text in ["", ",", "1,2,3,4,", ",,x,,y", "ä,ö", "no comma", "a,b,c,d,e,f"] {
        let expected: Vec<String> =
            text.split(',').filter(|s| !s.is_empty()).map(String::from).collect();
        assert_eq!(split_fields(text), expected, "{:?}", text);
    }
}

#[test]
fn characters_of_a_text() {
    assert_eq!(chars_of("a&b"), vec!['a', '&', 'b']);
    assert_eq!(chars_of(""), Vec::<char>::new());
    assert_eq!(chars_of("äß"), vec!['ä', 'ß']);
}

#[test]
fn texts_are_compared_by_their_characters() {
    assert!(same_text("", ""));
    assert!(same_text("Arms", "Arms"));
    assert!(!same_text("Arms", "arms"));
    assert!(!same_text("Arms", "Arm"));
    assert!(!same_text("Arm", "Arms"));
    assert!(same_text("Übung", "Übung"));
    assert!(!same_text("Übung", "Ubung"));
}
