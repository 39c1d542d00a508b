use cj_ascii::ascii_group::AsciiGroup;
use cj_ascii::ascii_string::AsciiString;
use cj_ascii::ascii_traits::{AsciiOrdToChar, CharToAsciiOrd};
use std::collections::VecDeque;
use std::hash::{Hash, Hasher};

#[test]
fn test_add_ascii_string() {
    let mut string = AsciiString::with_capacity(3);
    string.push(65);
    string.push(66);
    string.push(67);
    let mut string2 = AsciiString::with_capacity(3);
    string2.push(68);
    string2.push(69);
    string2.push(70);
    let result = string + string2;
    assert_eq!(result.len(), 6);
    assert_eq!(result[0], 65);
    assert_eq!(result[1], 66);
    assert_eq!(result[2], 67);
    assert_eq!(result[3], 68);
    assert_eq!(result[4], 69);
    assert_eq!(result[5], 70);
}

#[test]
fn test_add_chars() {
    let mut string = AsciiString::with_capacity(3);
    string.push('A');
    string.push('B');
    string.push('C');
    let result = string + 'D';
    assert_eq!(result.len(), 4);
    assert_eq!(result[0], 65);
    assert_eq!(result[1], 66);
    assert_eq!(result[2], 67);
    assert_eq!(result[3], 68);
}

#[test]
fn test_from_ascii_string() {
    let mut string = AsciiString::with_capacity(3);
    string.push(65);
    string.push(66);
    string.push(67);
    let result = String::from(&string);
    assert_eq!(result.len(), 3);
    assert_eq!(result.chars().nth(0).unwrap(), 'A');
    assert_eq!(result.chars().nth(1).unwrap(), 'B');
    assert_eq!(result.chars().nth(2).unwrap(), 'C');
}

#[test]
fn test_from_string() {
    let string = String::from("ABC");
    let result = AsciiString::try_from(&string).unwrap();
    assert_eq!(result.len(), 3);
    assert_eq!(result[0], 65);
    assert_eq!(result[1], 66);
    assert_eq!(result[2], 67);
}

#[test]
fn test_from_str() {
    let string = "ABC";
    let result = AsciiString::try_from(string).unwrap();
    assert_eq!(result.len(), 3);
    assert_eq!(result[0], 65);
    assert_eq!(result[1], 66);
    assert_eq!(result[2], 67);
}

#[test]
fn test_try_from_str() {
    let string = "ABC";
    let result = AsciiString::try_from(string);
    assert!(result.is_ok());
    let result = result.unwrap();
    assert_eq!(result.len(), 3);
    assert_eq!(result[0], 65);
    assert_eq!(result[1], 66);
    assert_eq!(result[2], 67);
}

#[test]
fn test_try_from_str_err() {
    let string = "ABC€";
    let result = AsciiString::try_from(string);
    assert!(result.is_err());
}

#[test]
fn test_add_assign_str() {
    let mut string = AsciiString::with_capacity(3);
    string += "ABC";
    string += "DEF";
    assert_eq!(&string.to_string(), "ABCDEF");
}

#[test]
fn test_assign_str() {
    let mut string = AsciiString::with_capacity(3);
    string = string + "ABC";
    assert_eq!(&string.to_string(), "ABC");
}

#[test]
fn test_add_assign_char() {
    let mut string = AsciiString::with_capacity(3);
    string += 'A';
    string += 'B';
    string += 'C';
    assert_eq!(&string.to_string(), "ABC");
}

#[test]
fn test_add_assign_byte() {
    let mut string = AsciiString::with_capacity(3);
    string += 65;
    string += 66;
    string += 67;
    assert_eq!(&string.to_string(), "ABC");
}

#[test]
fn test_add_assign_various() {
    let mut string = AsciiString::new();
    string += 'A';
    string += 66;
    string += "C";
    string += "DEF";
    let string2 = AsciiString::from(&string);
    string += string2;
    assert_eq!(&string.to_string(), "ABCDEFABCDEF");
}

#[test]
fn test_sort() {
    let mut string = AsciiString::with_capacity(3);
    string += "CBA";
    string.sort();
    assert_eq!(&string.to_string(), "ABC");
}

#[test]
fn test_index() {
    let mut string = AsciiString::with_capacity(3);
    string += "ABC";
    assert_eq!(string[0], 65);
    assert_eq!(string[1], 66);
    assert_eq!(string[2], 67);
}

#[test]
fn test_index_mut() {
    let mut string = AsciiString::with_capacity(3);
    string += "ABC";
    string[0] = 'D'.ascii_ord_unchecked();
    string[1] = 'E'.ascii_ord_unchecked();
    string[2] = 'F'.ascii_ord_unchecked();
    assert_eq!(string[0], 68);
    assert_eq!(string[1], 69);
    assert_eq!(string[2], 70);
}

#[test]
fn test_equals() {
    let mut string = AsciiString::with_capacity(3);
    string += "ABC";
    let mut string2 = AsciiString::with_capacity(3);
    string2 += "ABC";
    assert_eq!(string, string2);
}

#[test]
fn test_equals_string() {
    let mut string = AsciiString::with_capacity(3);
    string += "ABC";
    let string2: String = "ABC".to_string();
    let r = string2 == string.to_string();
    assert!(r);
}

#[test]
fn test_contains() {
    let mut string = AsciiString::with_capacity(3);
    string += "ABC";
    assert!(string.contains('A'));
    assert!(string.contains('B'));
    assert!(string.contains('C'));
    assert!(!string.contains('D'));
}

#[test]
fn test_iter_mut() {
    let mut string = AsciiString::with_capacity(3);
    string += "ABC";
    for c in string.iter_mut() {
        *c = 'D'.ascii_ord_unchecked();
    }
    assert_eq!(&string.to_string(), "DDD");
}

#[test]
fn test_ascii_group_iter() {
    let mut string = AsciiString::with_capacity(256);
    for i in 0..=255 {
        string += i;
    }

    let mut c = 0u8;
    for x in string.iter_ascii_group() {
        assert_eq!(x.as_byte(), c);
        assert_eq!(x.as_char(), c.to_ascii_char());

        if c < 255 {
            c += 1;
        }
    }
}

#[test]
fn an_empty_string_has_no_bytes_and_no_text() {
    let mut string = AsciiString::new();
    assert_eq!(string.len(), 0);
    assert!(string.is_empty());
    assert_eq!(string.to_string(), "");
    assert_eq!(string.iter().next(), None);
    assert_eq!(string.iter_ascii().next(), None);
    assert_eq!(string.iter_ascii_group().next(), None);
    assert_eq!(string.pop(), None);
    assert_eq!(string.pop_front(), None);
    assert_eq!(string.pop_char(), None);
    assert_eq!(string.pop_front_char(), None);
    assert_eq!(string, AsciiString::default());
    assert_eq!(string.as_bytes(), &[] as &[u8]);
}

#[test]
fn pushes_and_pops_work_at_both_ends() {
    let mut string = AsciiString::new();
    string.push('A');
    string.push(66);
    string.push('C');
    string.push_char('D');
    assert_eq!(string.to_string(), "ABCD");
    string.push_front('Z');
    string.push_front(89);
    string.push_front_char('X');
    assert_eq!(string.to_string(), "XYZABCD");
    assert_eq!(string.len(), 7);
    assert!(!string.is_empty());
    assert_eq!(string.pop(), Some(68));
    assert_eq!(string.pop_front(), Some(88));
    assert_eq!(string.pop_char(), Some('C'));
    assert_eq!(string.pop_front_char(), Some('Y'));
    assert_eq!(string.to_string(), "ZAB");
    string.push(&'\u{00E9}');
    assert_eq!(string.pop(), Some(0xE9));
}

#[test]
fn try_push_reports_a_character_without_a_byte() {
    let mut string = AsciiString::new();
    string.try_push('A').unwrap();
    string.try_push(66).unwrap();
    string.try_push_char('C').unwrap();
    assert_eq!(string.try_push('€'), Err("Character € is not ASCII".to_string()));
    assert_eq!(string.try_push_char('€'), Err("Character € is not ASCII".to_string()));
    assert_eq!(string.to_string(), "ABC");

    let mut string = AsciiString::new();
    string.try_push_front('A').unwrap();
    string.try_push_front(66).unwrap();
    string.try_push_front_char('C').unwrap();
    assert_eq!(string.try_push_front('€'), Err("Character € is not ASCII".to_string()));
    assert_eq!(string.try_push_front_char('€'), Err("Character € is not ASCII".to_string()));
    assert_eq!(string.to_string(), "CBA");
}

#[test]
fn the_ordinal_capability_has_a_default_and_a_report() {
    assert_eq!('A'.ascii_ord(), Some(65));
    assert_eq!('€'.ascii_ord(), None);
    assert_eq!((&'A').ascii_ord(), Some(65));
    assert_eq!(200u8.ascii_ord(), Some(200));
    assert_eq!('€'.ascii_ord_or(32), 32);
    assert_eq!('A'.ascii_ord_or(32), 65);
    assert_eq!(7u8.ascii_ord_or(32), 7);
    assert_eq!('ÿ'.ascii_ord_unchecked(), 255);
    assert_eq!('A'.try_ascii_ord(), Ok(65));
    assert_eq!(9u8.try_ascii_ord(), Ok(9));
    assert_eq!('Ā'.try_ascii_ord(), Err("Character Ā is not ASCII".to_string()));
    assert_eq!(65u8.to_ascii_char(), 'A');
    assert_eq!((&0xFFu8).to_ascii_char(), 'ÿ');
}

#[test]
fn strict_text_conversion_names_the_first_bad_character_and_its_place() {
    assert_eq!(
        AsciiString::try_from("ABC€"),
        Err("Non-ASCII character \"€\" found at index 3".to_string())
    );
    assert_eq!(
        AsciiString::try_from("€uro and €"),
        Err("Non-ASCII character \"€\" found at index 0".to_string())
    );
    assert_eq!(
        AsciiString::try_from(String::from("é€")),
        Err("Non-ASCII character \"€\" found at index 1".to_string())
    );
    assert_eq!(
        AsciiString::try_from(&String::from("12345678901€")),
        Err("Non-ASCII character \"€\" found at index 11".to_string())
    );
    assert_eq!(
        AsciiString::try_from('€'),
        Err("Non-ASCII character \"€\" found".to_string())
    );
    assert_eq!(
        AsciiString::try_from(&'€'),
        Err("Non-ASCII character \"€\" found".to_string())
    );
    assert_eq!(AsciiString::try_from('A').unwrap().to_string(), "A");
    assert_eq!(AsciiString::try_from(&'B').unwrap().to_string(), "B");
    assert_eq!(AsciiString::try_from("").unwrap().len(), 0);
    let latin = AsciiString::try_from("é").unwrap();
    assert_eq!(latin.len(), 1);
    assert_eq!(latin[0], 0xE9);
}

#[test]
fn try_push_str_leaves_the_string_alone_on_failure() {
    let mut string = AsciiString::new();
    string.try_push_str("ABCD").unwrap();
    assert_eq!(
        string.try_push_str("EF€G"),
        Err("Non-ASCII character \"€\" found at index 2".to_string())
    );
    assert_eq!(string.to_string(), "ABCD");
    string.push_str("EF");
    assert_eq!(string.to_string(), "ABCDEF");
}

#[test]
fn lossy_text_conversion_puts_the_fallback_in() {
    let mut string = AsciiString::new();
    string.push_str_lossy("ABCD");
    string.push_str_lossy("€");
    assert_eq!(string.to_string(), "ABCD ");
    let mut string = AsciiString::new();
    string.push_str_lossy("ABC€");
    assert_eq!(string.to_string(), "ABC ");
    let mut string = AsciiString::new();
    string.push_str_lossy_with("a€b€", 63);
    assert_eq!(string.to_string(), "a?b?");
    assert_eq!(Vec::<u8>::from(string), vec![97, 63, 98, 63]);
}

#[test]
fn truncate_and_clear_cut_the_string() {
    let mut string = AsciiString::try_from("ABCDEF").unwrap();
    string.truncate(10);
    assert_eq!(string.to_string(), "ABCDEF");
    string.truncate(6);
    assert_eq!(string.to_string(), "ABCDEF");
    string.truncate(2);
    assert_eq!(string.to_string(), "AB");
    string.truncate(0);
    assert!(string.is_empty());
    string += "XY";
    string.clear();
    assert_eq!(string.len(), 0);
}

#[test]
fn capacity_changes_keep_the_bytes() {
    let mut string = AsciiString::with_capacity(4);
    assert!(string.capacity() >= 4);
    string += "ABC";
    assert!(string.capacity() >= string.len());
    assert_eq!(string.remaining_capacity(), string.capacity() - 3);
    string.reserve(100);
    assert!(string.capacity() >= 103);
    assert_eq!(string.to_string(), "ABC");
    string.reserve_exact(200);
    assert!(string.capacity() >= 203);
    assert_eq!(string.to_string(), "ABC");
    string.shrink_to(50);
    assert!(string.capacity() >= 50);
    assert_eq!(string.to_string(), "ABC");
    string.shrink_to_fit();
    assert!(string.capacity() >= 3);
    assert_eq!(string.to_string(), "ABC");
}

#[test]
fn the_byte_slices_hold_the_whole_string_in_order() {
    let mut string = AsciiString::with_capacity(4);
    string += "CD";
    string.push_front('B');
    string.push_front('A');
    string += "E";
    {
        let (front, back) = string.as_slices();
        let mut joined = front.to_vec();
        joined.extend_from_slice(back);
        assert_eq!(joined, b"ABCDE");
    }
    assert_eq!(string.as_bytes(), b"ABCDE");
    let bytes = string.as_bytes_mut();
    assert_eq!(bytes, b"ABCDE");
    bytes[0] = b'Z';
    bytes[4] = b'Y';
    assert_eq!(string.to_string(), "ZBCDY");
}

#[test]
fn sort_orders_by_ordinal_and_keeps_every_byte() {
    let mut string = AsciiString::from(vec![200u8, 3, 65, 3, 255, 0, 65]);
    string.push_front(9);
    string.sort();
    assert_eq!(Vec::<u8>::from(&string), vec![0, 3, 3, 9, 65, 65, 200, 255]);
    let sorted = string.clone();
    string.sort();
    assert_eq!(string, sorted);
    let mut empty = AsciiString::new();
    empty.sort();
    assert!(empty.is_empty());
}

#[test]
fn contains_takes_bytes_and_characters() {
    let string = AsciiString::try_from("Hello World!").unwrap();
    assert!(string.contains('H'));
    assert!(string.contains(72));
    assert!(string.contains(&'!'));
    assert!(!string.contains('h'));
    assert!(!string.contains(0));
    assert!(!AsciiString::new().contains('H'));
}

#[test]
fn the_three_iterators_go_front_to_back() {
    let mut string = AsciiString::try_from("BC").unwrap();
    string.push_front('A');
    string.push(0xC8);
    let bytes: Vec<u8> = string.iter().copied().collect();
    assert_eq!(bytes, vec![65, 66, 67, 200]);
    let again: Vec<u8> = string.iter().copied().collect();
    assert_eq!(again, bytes);
    let chars: Vec<char> = string.iter_ascii().collect();
    assert_eq!(chars, vec!['A', 'B', 'C', 'È']);
    let groups: Vec<AsciiGroup> = string.iter_ascii_group().collect();
    assert_eq!(
        groups,
        vec![
            AsciiGroup::Printable(65),
            AsciiGroup::Printable(66),
            AsciiGroup::Printable(67),
            AsciiGroup::Extended(200),
        ]
    );
    let mut it = string.iter_ascii();
    for _ in 0..4 {
        assert!(it.next().is_some());
    }
    assert_eq!(it.next(), None);
    assert_eq!(it.next(), None);
}

#[test]
fn iter_mut_writes_through_and_keeps_the_length() {
    let mut string = AsciiString::try_from("Hello World!").unwrap();
    for byte in string.iter_mut() {
        if *byte == 32 {
            *byte = 95;
        }
    }
    assert_eq!(string, AsciiString::try_from("Hello_World!").unwrap());
    assert_eq!(string.len(), 12);
}

#[test]
fn conversions_out_of_a_string_keep_bytes_and_order() {
    let mut string = AsciiString::try_from("BC").unwrap();
    string.push_front('A');
    string.push(0xE9);
    assert_eq!(String::from(&string), "ABCé");
    assert_eq!(String::from(string.clone()), "ABCé");
    assert_eq!(Vec::<u8>::from(&string), vec![65, 66, 67, 0xE9]);
    assert_eq!(Vec::<u8>::from(string.clone()), vec![65, 66, 67, 0xE9]);
    assert_eq!(VecDeque::<u8>::from(&string), VecDeque::from(vec![65, 66, 67, 0xE9]));
    assert_eq!(VecDeque::<u8>::from(string.clone()), VecDeque::from(vec![65, 66, 67, 0xE9]));
    assert_eq!(Vec::<char>::from(&string), vec!['A', 'B', 'C', 'é']);
    assert_eq!(Vec::<char>::from(string.clone()), vec!['A', 'B', 'C', 'é']);
    assert_eq!(VecDeque::<char>::from(&string), VecDeque::from(vec!['A', 'B', 'C', 'é']));
    assert_eq!(VecDeque::<char>::from(string.clone()), VecDeque::from(vec!['A', 'B', 'C', 'é']));
    let copy = AsciiString::from(&string);
    assert_eq!(copy, string);
}

#[test]
fn conversions_into_a_string_take_every_byte() {
    let all: Vec<u8> = (0u8..=255).collect();
    let from_vec = AsciiString::from(all.clone());
    assert_eq!(from_vec.len(), 256);
    let from_slice = AsciiString::from(all.as_slice());
    let from_deque = AsciiString::from(VecDeque::from(all.clone()));
    assert_eq!(from_vec, from_slice);
    assert_eq!(from_vec, from_deque);
    assert_eq!(Vec::<u8>::from(from_slice), all);
    assert_eq!(AsciiString::from(Vec::new()).len(), 0);
}

#[test]
fn a_copy_is_independent_of_its_source() {
    let mut string = AsciiString::try_from("ABC").unwrap();
    let copy = AsciiString::from(&string);
    let clone = string.clone();
    string[0] = b'X';
    string.push('D');
    assert_eq!(copy.to_string(), "ABC");
    assert_eq!(clone.to_string(), "ABC");
    assert_eq!(string.to_string(), "XBCD");
}

#[test]
fn concatenation_takes_strings_text_characters_and_bytes() {
    let base = AsciiString::try_from("AB").unwrap();
    let tail = AsciiString::try_from("CD").unwrap();
    assert_eq!((base.clone() + tail.clone()).to_string(), "ABCD");
    assert_eq!((base.clone() + &tail).to_string(), "ABCD");
    assert_eq!((base.clone() + String::from("CD")).to_string(), "ABCD");
    assert_eq!((base.clone() + &String::from("CD")).to_string(), "ABCD");
    assert_eq!((base.clone() + "CD").to_string(), "ABCD");
    assert_eq!((base.clone() + 'C').to_string(), "ABC");
    assert_eq!((base.clone() + &'C').to_string(), "ABC");
    let mut string = base.clone();
    string += tail.clone();
    string += &tail;
    string += "E";
    string += String::from("F");
    string += 'G';
    string += &'H';
    string += 73;
    assert_eq!(string.to_string(), "ABCDCDEFGHI");
    let mut string = base.clone();
    string.push_ascii_string(&tail);
    string.push_str("EF");
    assert_eq!(string.to_string(), "ABCDEF");
}

#[test]
fn strings_are_ordered_as_their_bytes_are() {
    let text = |s: &str| AsciiString::try_from(s).unwrap();
    assert!(text("A") < text("B"));
    assert!(text("AB") < text("B"));
    assert!(text("A") < text("AB"));
    assert!(text("") < text("A"));
    assert!(text("B") > text("AZZZ"));
    assert!(text("AB") <= text("AB"));
    assert!(text("AB") >= text("AB"));
    assert_eq!(text("AB").partial_cmp(&text("AB")), Some(std::cmp::Ordering::Equal));
    assert_eq!(text("AB").partial_cmp(&text("AC")), Some(std::cmp::Ordering::Less));
    assert_eq!(text("AC").partial_cmp(&text("AB")), Some(std::cmp::Ordering::Greater));
    assert_eq!(text("AC").cmp(&text("AB")), std::cmp::Ordering::Greater);
    assert_eq!(text("A").cmp(&text("AB")), std::cmp::Ordering::Less);
    assert!(AsciiString::from(vec![0x7Fu8]) < AsciiString::from(vec![0x80u8]));
    assert_ne!(text("AB"), text("ABC"));
    assert_ne!(text("AB"), text("AC"));
    let mut wrapped = text("BC");
    wrapped.push_front('A');
    assert_eq!(wrapped, text("ABC"));
    assert_eq!(wrapped.cmp(&text("ABC")), std::cmp::Ordering::Equal);
}

#[test]
fn equal_strings_hash_alike() {
    let digest = |s: &AsciiString| {
        let mut hasher = std::collections::hash_map::DefaultHasher::new();
        s.hash(&mut hasher);
        hasher.finish()
    };
    let a = AsciiString::try_from("ABC").unwrap();
    let mut b = AsciiString::try_from("BC").unwrap();
    b.push_front('A');
    assert_eq!(digest(&a), digest(&b));
}
