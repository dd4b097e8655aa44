use tifflin_modules::usb_core::device::MatchLevel;
use tifflin_modules::usb_hid::{Driver, process_report, report_descriptor_len, try_report_descriptor_len};
use tifflin_modules::usb_hid::bitstream::BitStream;
use tifflin_modules::usb_hid::report_parser::{InputFlags, IterRaw, List, Op, ParseState};
use tifflin_modules::usb_hid::sinks::Group;
use tifflin_modules::usb_hid::sinks::keyboard::{BitSet256, Keyboard};
use tifflin_modules::usb_hid::sinks::mouse::{CursorUpdate, Mouse};

const KEYBOARD_SPEC: [u8; 45] = [
    0x05, 0x01, 0x09, 0x06, 0xA1, 0x01,
    0x05, 0x07, 0x19, 0xE0, 0x29, 0xE7, 0x15, 0x00, 0x25, 0x01, 0x75, 0x01, 0x95, 0x08, 0x81, 0x02,
    0x95, 0x01, 0x75, 0x08, 0x81, 0x01,
    0x95, 0x06, 0x75, 0x08, 0x15, 0x00, 0x25, 0x65, 0x05, 0x07, 0x19, 0x00, 0x29, 0x65, 0x81, 0x00,
    0xC0,
];

const MOUSE_SPEC: [u8; 50] = [
    0x05, 0x01, 0x09, 0x02, 0xA1, 0x01, 0x09, 0x01, 0xA1, 0x00,
    0x05, 0x09, 0x19, 0x02, 0x29, 0x03, 0x15, 0x00, 0x25, 0x01, 0x95, 0x02, 0x75, 0x01, 0x81, 0x02,
    0x95, 0x01, 0x75, 0x06, 0x81, 0x01,
    0x05, 0x01, 0x09, 0x30, 0x09, 0x31, 0x15, 0x81, 0x25, 0x7F, 0x75, 0x08, 0x95, 0x02, 0x81, 0x06,
    0xC0, 0xC0,
];

#[test]
fn hid_driver_matches_class_3() {
    let d = Driver;
    assert_eq!(d.name(), "hid");
    assert_eq!(d.matches(0, 0, 0x030101), MatchLevel::Generic);
    assert_eq!(d.matches(0, 0, 0x080650), MatchLevel::Unmatched);
    assert_eq!(d.matches(0, 0, 0x070102), MatchLevel::Unmatched);
    assert_eq!(d.matches(0, 0, 0xFF0000), MatchLevel::Unmatched);
    assert_eq!(d.matches(0, 0, 0x030102), MatchLevel::Generic);
}

#[test]
fn bitstream_reads_lsb_first() {
    let data = [0b1010_0101u8, 0xFF, 0x12, 0x34];
    let mut bs = BitStream::new(&data);
    assert_eq!(bs.get_bit(), Some(true));
    assert_eq!(bs.get_bit(), Some(false));
    assert_eq!(bs.get_u32(6), Some(0b101001));
    assert_eq!(bs.get_u32(8), Some(0xFF));
    assert_eq!(bs.get_u32(16), Some(0x3412));
    assert_eq!(bs.get_u32(1), None);
    let data = [0xFEu8];
    let mut bs = BitStream::new(&data);
    assert_eq!(bs.get_i32(8), Some(-2));
}

#[test]
fn items_and_ops() {
    let spec = [0x05u8, 0x01, 0x26, 0xFF, 0x00, 0xC0];
    let mut it = IterRaw(&spec);
    assert_eq!(it.next(), Some((0x05, 0x01)));
    assert_eq!(it.next(), Some((0x26, 0x00FF)));
    assert_eq!(it.next(), Some((0xC0, 0)));
    assert_eq!(it.next(), None);
    assert!(matches!(Op::from_pair(0x15, 0x81), Op::LogicalMin(-127)));
    assert!(matches!(Op::from_pair(0x26, 0xFF), Op::LogicalMax(255)));
    assert!(matches!(Op::from_pair(0x0B, 0x10002), Op::UsageSingle(0x10002, true)));
    assert!(matches!(Op::from_pair(0x81, 2), Op::Input(InputFlags(2))));
    assert!(matches!(Op::from_pair(0xFE, 0), Op::LongItem(0)));
    let f = InputFlags(0b0110);
    assert!(!f.is_constant());
    assert!(f.is_variable());
    assert!(f.is_relative());
    assert!(!f.is_wrap());
}

#[test]
fn usage_lists() {
    let mut l = List::new();
    assert_eq!(l.get(0), 0);
    l.set_single(7);
    assert_eq!(l.get(3), 7);
    l.set_single(9);
    assert_eq!(l.get(0), 7);
    assert_eq!(l.get(1), 9);
    let mut r = List::new();
    r.set_start(0x10);
    r.set_end(0x20);
    assert_eq!(r.get(4), 0x14);
    assert_eq!(r.get(100), 0x20);
    let mut s = ParseState::new();
    s.update(Op::UsagePage(7));
    s.update(Op::UsageSingle(4, false));
    assert_eq!(s.usage.get(0), 0x70004);
}

#[test]
fn keyboard_sink_reports_changes() {
    let mut b = BitSet256::new();
    b.set(200);
    assert!(b.get(200));
    b.clr(200);
    assert!(!b.get(200));
    let mut k = Keyboard::new();
    k.set_key(4);
    k.set_key(0xE1);
    assert_eq!(k.updated(), vec![(4, true), (0xE1, true)]);
    k.set_key(4);
    assert_eq!(k.updated(), vec![(0xE1, false)]);
    assert_eq!(k.updated(), vec![(4, false)]);
}

#[test]
fn mouse_sink_reports_cursor_and_buttons() {
    let mut m = Mouse::new();
    m.rel_x(-3);
    m.rel_y(4);
    m.set_button(1, true);
    m.set_button(20, true);
    let (c, b) = m.updated();
    assert_eq!(c, CursorUpdate::Relative(-3, 4));
    assert_eq!(b, vec![(1, true)]);
    m.abs_x(100);
    m.abs_y(200);
    let (c, b) = m.updated();
    assert_eq!(c, CursorUpdate::Absolute(100, 200));
    assert_eq!(b, vec![(1, false)]);
}

#[test]
fn boot_keyboard_report() {
    let mut g = Group::from_report_spec(&KEYBOARD_SPEC);
    assert!(g.keyboard.is_some());
    assert!(g.mouse.is_none());
    let ev = process_report(&KEYBOARD_SPEC, &[0x02, 0x00, 0x04, 0, 0, 0, 0, 0], &mut g).unwrap();
    assert_eq!(ev.keys, Some(vec![(4, true), (0xE1, true)]));
    let ev = process_report(&KEYBOARD_SPEC, &[0, 0, 0, 0, 0, 0, 0, 0], &mut g).unwrap();
    assert_eq!(ev.keys, Some(vec![(4, false), (0xE1, false)]));
}

#[test]
fn boot_mouse_report() {
    let mut g = Group::from_report_spec(&MOUSE_SPEC);
    assert!(g.mouse.is_some());
    assert!(g.keyboard.is_none());
    let ev = process_report(&MOUSE_SPEC, &[0x01, 0x05, 0xFE], &mut g).unwrap();
    let (c, b) = ev.mouse.unwrap();
    assert_eq!(c, CursorUpdate::Relative(5, -2));
    assert_eq!(b, vec![(0, true)]);
}

#[test]
fn report_descriptor_length_from_hid_descriptor() {
    let descs = [9u8, 0x21, 0x11, 0x01, 0x00, 0x01, 0x22, 0x3F, 0x00, 7, 5, 0x81, 3, 8, 0, 10];
    assert_eq!(report_descriptor_len(&descs), 0x3F);
    assert_eq!(try_report_descriptor_len(&[7, 5, 0x81, 3, 8, 0, 10]), Some(0));
    // a descriptor too short to read its type
    assert_eq!(try_report_descriptor_len(&[1]), None);
}
