use keypad::bus::{drive_mask, open_ops, prime_ops, recharge_ops, select_ops, BusOp, Reg};
use keypad::layout::Symbol;
use keypad::lock::Lock;
use keypad::scan::{column_of_slot, is_slot_pressed, line_position, Event, Scanner};

const IDLE: u8 = 0xFF;

/// Line 0 drives pad 0 row 0; slot 0 senses column 1, so this is key 'B'.
const B_DOWN: u8 = 0xFF & !0x02;

/// Line 1 drives pad 0 row 3; slot 1 senses column 0, so this is key 'J'.
const J_DOWN: u8 = 0xFF & !0x10;

#[test]
fn wiring_order_of_lines() {
    let expected = [(0, 0), (0, 3), (0, 2), (1, 1), (1, 0), (1, 3), (1, 2), (0, 1)];
    for (line, pos) in expected.iter().enumerate() {
        assert_eq!(line_position(line), *pos);
    }
    assert_eq!(column_of_slot(0), 1);
    assert_eq!(column_of_slot(1), 0);
    assert_eq!(column_of_slot(2), 2);
}

#[test]
fn sense_bits_are_active_low() {
    assert!(!is_slot_pressed(0xFF, 0));
    assert!(is_slot_pressed(0xFD, 0));
    assert!(is_slot_pressed(0xEF, 1));
    assert!(is_slot_pressed(0x7F, 2));
    assert!(!is_slot_pressed(0x7F, 0));
    assert!(is_slot_pressed(0x00, 1));
}

#[test]
fn press_then_release_is_edge_triggered() {
    let mut s = Scanner::new();
    assert_eq!(s.process_line(0, B_DOWN, Lock::Unlocked), vec![Event::Pressed(Symbol(b'B'))]);
    assert!(s.is_pressed(0, 0, 1));
    for _ in 0..5 {
        assert_eq!(s.process_line(0, B_DOWN, Lock::Unlocked), vec![]);
    }
    assert_eq!(s.process_line(0, IDLE, Lock::Unlocked), vec![Event::Released(Symbol(b'B'))]);
    assert!(!s.is_pressed(0, 0, 1));
    assert_eq!(s.process_line(0, IDLE, Lock::Unlocked), vec![]);
}

#[test]
fn locked_press_fires_after_unlock() {
    let mut s = Scanner::new();
    for _ in 0..3 {
        assert_eq!(s.process_line(0, B_DOWN, Lock::Locked), vec![]);
        assert!(!s.is_pressed(0, 0, 1));
    }
    assert_eq!(s.process_line(0, B_DOWN, Lock::Unlocked), vec![Event::Pressed(Symbol(b'B'))]);
    assert_eq!(s.process_line(0, B_DOWN, Lock::Unlocked), vec![]);
    assert_eq!(s.process_line(0, IDLE, Lock::Locked), vec![Event::Released(Symbol(b'B'))]);
    assert_eq!(s.process_line(0, IDLE, Lock::Locked), vec![]);
}

#[test]
fn power_only_lets_power_key_through() {
    let mut s = Scanner::new();
    // 'B', 'A' and 'C' held together on line 0.
    for _ in 0..3 {
        assert_eq!(s.process_line(0, 0x00, Lock::UnlockedPowerOnly), vec![]);
    }
    assert_eq!(s.process_line(1, J_DOWN, Lock::UnlockedPowerOnly), vec![Event::Pressed(Symbol(b'J'))]);
    assert!(s.is_pressed(0, 3, 0));
    assert_eq!(s.process_line(1, 0x00, Lock::UnlockedPowerOnly), vec![]);
}

#[test]
fn all_three_keys_of_a_line_in_slot_order() {
    let mut s = Scanner::new();
    assert_eq!(
        s.process_line(4, 0x00, Lock::Unlocked),
        vec![Event::Pressed(Symbol(b'2')), Event::Pressed(Symbol(b'1')), Event::Pressed(Symbol(b'3'))]
    );
    assert_eq!(
        s.process_line(4, 0xFF, Lock::Locked),
        vec![Event::Released(Symbol(b'2')), Event::Released(Symbol(b'1')), Event::Released(Symbol(b'3'))]
    );
}

#[test]
fn process_key_one_slot() {
    let mut s = Scanner::new();
    assert_eq!(s.process_key(5, 2, 0x7F, Lock::Unlocked), Some(Event::Pressed(Symbol(b'#'))));
    assert_eq!(s.process_key(5, 1, 0x7F, Lock::Unlocked), None);
    assert!(s.is_pressed(1, 3, 2));
    assert_eq!(s.process_key(5, 2, 0x7F, Lock::Unlocked), None);
    assert_eq!(s.process_key(5, 2, 0xFF, Lock::Unlocked), Some(Event::Released(Symbol(b'#'))));
}

#[test]
fn fresh_scanner_has_nothing_latched() {
    let s = Scanner::new();
    for pad in 0..2 {
        for row in 0..4 {
            for col in 0..3 {
                assert!(!s.is_pressed(pad, row, col));
            }
        }
    }
}

#[test]
fn drive_masks_pull_one_line_low() {
    assert_eq!(drive_mask(0), 0xFE);
    assert_eq!(drive_mask(3), 0xF7);
    assert_eq!(drive_mask(7), 0x7F);
}

#[test]
fn register_addresses() {
    assert_eq!(Reg::DirA.addr(), 0x00);
    assert_eq!(Reg::DirB.addr(), 0x10);
    assert_eq!(Reg::OutA.addr(), 0x0A);
    assert_eq!(Reg::OutB.addr(), 0x1A);
    assert_eq!(Reg::PupA.addr(), 0x06);
    assert_eq!(Reg::PupB.addr(), 0x16);
    assert_eq!(Reg::InpA.addr(), 0x09);
    assert_eq!(Reg::InpB.addr(), 0x19);
}

#[test]
fn open_and_prime_sequences() {
    assert_eq!(
        open_ops(),
        vec![BusOp::Write(0x05, 0x80), BusOp::Write(0x0A, 0x80), BusOp::Write(0x0A, 0x00), BusOp::Write(0x12, 0x00)]
    );
    assert_eq!(
        prime_ops(),
        vec![
            BusOp::Write(0x10, 0xFF),
            BusOp::Write(0x00, 0x00),
            BusOp::Write(0x0A, 0xFF),
            BusOp::Pause(10),
            BusOp::Write(0x00, 0xFF),
            BusOp::Write(0x06, 0xFF),
        ]
    );
}

#[test]
fn select_and_recharge_sequences() {
    assert_eq!(
        select_ops(2),
        vec![BusOp::Write(0x10, 0xFB), BusOp::Write(0x1A, 0xFB), BusOp::Pause(5), BusOp::Read(0x09)]
    );
    assert_eq!(
        recharge_ops(),
        vec![
            BusOp::Write(0x1A, 0xFF),
            BusOp::Write(0x0A, 0xFF),
            BusOp::Write(0x00, 0x00),
            BusOp::Pause(1),
            BusOp::Write(0x00, 0xFF),
        ]
    );
}
