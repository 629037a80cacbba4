use keypad::layout::{translate, Symbol};
use keypad::lock::Lock;

#[test]
fn translate_letter_pad() {
    assert_eq!(translate(0, 0, 0).chr(), b'A');
    assert_eq!(translate(0, 1, 2).chr(), b'F');
    assert_eq!(translate(0, 3, 2).chr(), b'L');
}

#[test]
fn translate_digit_pad() {
    assert_eq!(translate(1, 0, 0).chr(), b'1');
    assert_eq!(translate(1, 2, 2).chr(), b'9');
    assert_eq!(translate(1, 3, 0).chr(), b'*');
    assert_eq!(translate(1, 3, 1).chr(), b'0');
    assert_eq!(translate(1, 3, 2).chr(), b'#');
}

#[test]
fn translate_covers_keypad_once() {
    let mut seen: Vec<u8> = Vec::new();
    for pad in 0..2 {
        for row in 0..4 {
            for col in 0..3 {
                let c = translate(pad, row, col).chr();
                assert!(!seen.contains(&c));
                seen.push(c);
            }
        }
    }
    seen.sort();
    let mut expected: Vec<u8> = b"ABCDEFGHIJKL123456789*0#".to_vec();
    expected.sort();
    assert_eq!(seen, expected);
}

#[test]
fn power_key_is_j() {
    assert!(translate(0, 3, 0).is_power());
    assert!(Symbol(b'J').is_power());
    assert!(!Symbol(b'K').is_power());
    assert!(!translate(1, 3, 1).is_power());
}

#[test]
fn lock_policy_for_all_keys() {
    for pad in 0..2 {
        for row in 0..4 {
            for col in 0..3 {
                let s = translate(pad, row, col);
                assert!(Lock::Locked.is_blocked(s));
                assert!(!Lock::Unlocked.is_blocked(s));
                assert_eq!(Lock::UnlockedPowerOnly.is_blocked(s), s.chr() != b'J');
            }
        }
    }
}

#[test]
fn lock_codes_round_trip() {
    assert_eq!(Lock::Locked.code(), 0);
    assert_eq!(Lock::Unlocked.code(), 1);
    assert_eq!(Lock::UnlockedPowerOnly.code(), 2);
    assert_eq!(Lock::from_code(0), Some(Lock::Locked));
    assert_eq!(Lock::from_code(1), Some(Lock::Unlocked));
    assert_eq!(Lock::from_code(2), Some(Lock::UnlockedPowerOnly));
    assert_eq!(Lock::from_code(3), None);
    assert_eq!(Lock::from_code(255), None);
}
