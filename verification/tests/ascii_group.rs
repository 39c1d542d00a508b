use cj_ascii::ascii_group::{AsciiGroup, AsciiGroupIter};
use std::collections::VecDeque;

#[test]
fn test_ascii_group() {
    assert_eq!(AsciiGroup::new(&0x00), AsciiGroup::NonPrintableCtrl(0x00));
    assert_eq!(AsciiGroup::new(&0x1F), AsciiGroup::NonPrintableCtrl(0x1F));
    assert_eq!(AsciiGroup::new(&0x20), AsciiGroup::Printable(0x20));
    assert_eq!(AsciiGroup::new(&0x7E), AsciiGroup::Printable(0x7E));
    assert_eq!(AsciiGroup::new(&0x7F), AsciiGroup::NonPrintableCtrl(0x7F));
    assert_eq!(AsciiGroup::new(&0x80), AsciiGroup::Extended(0x80));
    assert_eq!(AsciiGroup::new(&0xFF), AsciiGroup::Extended(0xFF));
}

#[test]
fn test_ascii_group_as_u8() {
    assert_eq!(AsciiGroup::NonPrintableCtrl(0x00).as_byte(), 0x00);
    assert_eq!(AsciiGroup::NonPrintableCtrl(0x1F).as_byte(), 0x1F);
    assert_eq!(AsciiGroup::Printable(0x20).as_byte(), 0x20);
    assert_eq!(AsciiGroup::Printable(0x7E).as_byte(), 0x7E);
    assert_eq!(AsciiGroup::NonPrintableCtrl(0x7F).as_byte(), 0x7F);
    assert_eq!(AsciiGroup::Extended(0x80).as_byte(), 0x80);
    assert_eq!(AsciiGroup::Extended(0xFF).as_byte(), 0xFF);
}

#[test]
fn test_ascii_group_as_char() {
    assert_eq!(AsciiGroup::NonPrintableCtrl(0x00).as_char(), '\u{0}');
    assert_eq!(AsciiGroup::NonPrintableCtrl(0x1F).as_char(), '\u{1F}');
    assert_eq!(AsciiGroup::Printable(0x20).as_char(), ' ');
    assert_eq!(AsciiGroup::Printable(0x7E).as_char(), '~');
    assert_eq!(AsciiGroup::NonPrintableCtrl(0x7F).as_char(), '\u{7F}');
    assert_eq!(AsciiGroup::Extended(0x80).as_char(), '\u{80}');
    assert_eq!(AsciiGroup::Extended(0xFF).as_char(), '\u{FF}');
}

#[test]
fn the_rendered_control_bytes_are_their_own_group() {
    assert_eq!(AsciiGroup::new(&0x09), AsciiGroup::PrintableCtrl(0x09));
    assert_eq!(AsciiGroup::new(&0x0A), AsciiGroup::PrintableCtrl(0x0A));
    assert_eq!(AsciiGroup::new(&0x0D), AsciiGroup::PrintableCtrl(0x0D));
    assert_eq!(AsciiGroup::new(&0x08), AsciiGroup::NonPrintableCtrl(0x08));
    assert_eq!(AsciiGroup::new(&0x0B), AsciiGroup::NonPrintableCtrl(0x0B));
    assert_eq!(AsciiGroup::new(&0x0E), AsciiGroup::NonPrintableCtrl(0x0E));
}

#[test]
fn every_byte_is_in_one_group_that_keeps_it() {
    for b in 0u8..=255 {
        let group = AsciiGroup::new(&b);
        assert_eq!(group, AsciiGroup::new(&b));
        assert_eq!(group.as_byte(), b);
        let tags = [
            group.is_non_printable_ctrl(),
            group.is_printable_ctrl(),
            group.is_printable(),
            group.is_extended(),
        ];
        assert_eq!(tags.iter().filter(|t| **t).count(), 1);
        assert_eq!(group.is_extended(), b >= 0x80);
        assert_eq!(group.is_printable(), (0x20..=0x7E).contains(&b));
        assert_eq!(group.is_printable_ctrl(), b == 9 || b == 10 || b == 13);
        assert_eq!(group.clone(), group);
    }
}

#[test]
fn the_group_iterator_yields_one_group_for_each_byte_in_order() {
    let bytes: VecDeque<u8> = VecDeque::from(vec![0x00, 0x0A, 0x41, 0xC8]);
    let groups: Vec<AsciiGroup> = AsciiGroupIter::new(&bytes).collect();
    assert_eq!(
        groups,
        vec![
            AsciiGroup::NonPrintableCtrl(0x00),
            AsciiGroup::PrintableCtrl(0x0A),
            AsciiGroup::Printable(0x41),
            AsciiGroup::Extended(0xC8),
        ]
    );
    let empty: VecDeque<u8> = VecDeque::new();
    assert_eq!(AsciiGroupIter::new(&empty).next(), None);
    let mut twice = AsciiGroupIter::new(&bytes);
    for _ in 0..4 {
        assert!(twice.next().is_some());
    }
    assert_eq!(twice.next(), None);
    assert_eq!(twice.next(), None);
}
