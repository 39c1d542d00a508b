use cj_ascii::ascii_group::AsciiGroup;
use cj_ascii::ascii_string::AsciiString;

#[test]
fn all_bytes_in_order_round_trip_through_text() {
    let mut string = AsciiString::new();
    for b in 0u8..=255 {
        string.push(b);
    }
    assert_eq!(string.len(), 256);
    let mut expected = 0usize;
    for byte in string.iter() {
        assert_eq!(*byte as usize, expected);
        expected += 1;
    }
    assert_eq!(expected, 256);
    let text = string.to_string();
    assert_eq!(text.chars().count(), 256);
    let back = AsciiString::try_from(text.as_str()).unwrap();
    assert_eq!(back, string);
    let lossy = {
        let mut s = AsciiString::new();
        s.push_str_lossy(text.as_str());
        s
    };
    assert_eq!(lossy, string);
}

#[test]
fn classification_is_the_same_each_time_and_sorting_twice_changes_nothing() {
    for b in 0u8..=255 {
        assert_eq!(AsciiGroup::new(&b), AsciiGroup::new(&b));
    }
    let mut string = AsciiString::from(vec![9u8, 1, 200, 1, 0]);
    string.sort();
    let once = string.clone();
    string.sort();
    assert_eq!(string, once);
    assert_eq!(Vec::<u8>::from(string), vec![0, 1, 1, 9, 200]);
}

#[test]
fn classification_at_the_range_boundaries() {
    assert_eq!(AsciiGroup::new(&0x1F), AsciiGroup::NonPrintableCtrl(0x1F));
    assert_eq!(AsciiGroup::new(&0x20), AsciiGroup::Printable(0x20));
    assert_eq!(AsciiGroup::new(&0x7E), AsciiGroup::Printable(0x7E));
    assert_eq!(AsciiGroup::new(&0x7F), AsciiGroup::NonPrintableCtrl(0x7F));
    assert_eq!(AsciiGroup::new(&0x80), AsciiGroup::Extended(0x80));
    assert_eq!(AsciiGroup::new(&0xFF), AsciiGroup::Extended(0xFF));
}

#[test]
fn strict_and_lossy_construction_of_text_with_a_bad_character() {
    let result = AsciiString::try_from("ABC€");
    assert_eq!(result, Err("Non-ASCII character \"€\" found at index 3".to_string()));
    let mut lossy = AsciiString::new();
    lossy.push_str_lossy_with("ABC€", 0x20);
    assert_eq!(lossy.to_string(), "ABC ");
}

#[test]
fn bytes_and_pushed_characters_make_equal_strings() {
    let from_bytes = AsciiString::from(vec![65u8, 66, 67]);
    let mut pushed = AsciiString::new();
    pushed.push('A');
    pushed.push('B');
    pushed.push('C');
    assert_eq!(from_bytes, pushed);
    assert_eq!(from_bytes.to_string(), "ABC");
}
