use vstd::prelude::*;

verus! {

/// Number of pads.
pub const PADS: usize = 2;

/// Number of rows on each pad.
pub const ROWS: usize = 4;

/// Number of columns on each pad.
pub const COLUMNS: usize = 3;

/// Character code of the power key.
pub const POWER_CODE: u8 = 0x4A;

/// The character code of one physical key.
#[derive(Clone, Copy, Debug, PartialEq, Eq, Structural)]
pub struct Symbol(pub u8);

/// Whether `(pad, row, col)` names one of the keys.
pub open spec fn valid_position(pad: int, row: int, col: int) -> bool {
    0 <= pad < PADS && 0 <= row < ROWS && 0 <= col < COLUMNS
}

/// The character printed on the key at `(pad, row, col)`.
///
/// Pad 0 holds the letters `A` to `L` row by row; pad 1 is a phone pad:
/// `1` to `9` on the first three rows, then `*`, `0`, `#`.
pub open spec fn key_code(pad: int, row: int, col: int) -> u8 {
    if pad == 0 {
        (0x41 + 3 * row + col) as u8
    } else if row < 3 {
        (0x31 + 3 * row + col) as u8
    } else if col == 0 {
        0x2A
    } else if col == 1 {
        0x30
    } else {
        0x23
    }
}

/// The characters of the keypad: `A`..`L`, `1`..`9`, `*`, `0` and `#`.
pub open spec fn is_key_code(c: u8) -> bool {
    (0x41 <= c <= 0x4C) || (0x31 <= c <= 0x39) || c == 0x2A || c == 0x30 || c == 0x23
}

/// All characters that some key carries.
pub open spec fn key_codes() -> Set<u8> {
    Set::new(|c: u8| exists|p: int, r: int, k: int| valid_position(p, r, k) && key_code(p, r, k) == c)
}

impl Symbol {
    /// The raw character code of the key.
    pub fn chr(&self) -> (r: u8)
        ensures
            r == self.0,
    {
        self.0
    }

    /// Whether this is the power key.
    pub fn is_power(&self) -> (r: bool)
        ensures
            r == (self.0 == POWER_CODE),
    {
        self.chr() == POWER_CODE
    }
}

/// The symbol of the key at `(pad, row, column)`.
pub fn translate(pad: usize, row: usize, column: usize) -> (r: Symbol)
    requires
        valid_position(pad as int, row as int, column as int),
    ensures
        r.0 == key_code(pad as int, row as int, column as int),
{
    let code: u8 = if pad == 0 {
        0x41 + 3 * (row as u8) + (column as u8)
    } else if row < 3 {
        0x31 + 3 * (row as u8) + (column as u8)
    } else if column == 0 {
        0x2A
    } else if column == 1 {
        0x30
    } else {
        0x23
    };
    Symbol(code)
}

/// No two keys carry the same symbol.
pub proof fn lemma_translate_injective(p1: int, r1: int, c1: int, p2: int, r2: int, c2: int)
    requires
        valid_position(p1, r1, c1),
        valid_position(p2, r2, c2),
        key_code(p1, r1, c1) == key_code(p2, r2, c2),
    ensures
        p1 == p2 && r1 == r2 && c1 == c2,
{
}

/// Every key carries a keypad character.
pub proof fn lemma_translate_in_key_codes(p: int, r: int, c: int)
    requires
        valid_position(p, r, c),
    ensures
        is_key_code(key_code(p, r, c)),
{
}

/// The characters that the keys carry are exactly `A`..`L`, `1`..`9`, `*`, `0` and `#`.
pub proof fn lemma_key_codes_exact()
    ensures
        key_codes() == Set::new(|c: u8| is_key_code(c)),
{
    assert forall|c: u8| is_key_code(c) implies key_codes().contains(c) by {
        let (p, r, k) = position_of(c);
        assert(valid_position(p, r, k) && key_code(p, r, k) == c);
    }
    assert forall|c: u8| key_codes().contains(c) implies is_key_code(c) by {
        let (p, r, k) = choose|p: int, r: int, k: int|
            valid_position(p, r, k) && key_code(p, r, k) == c;
        lemma_translate_in_key_codes(p, r, k);
    }
    assert(key_codes() =~= Set::new(|c: u8| is_key_code(c)));
}

/// Where the key carrying `c` sits.
pub open spec fn position_of(c: u8) -> (int, int, int) {
    if 0x41 <= c <= 0x4C {
        (0, (c - 0x41) / 3, (c - 0x41) % 3)
    } else if 0x31 <= c <= 0x39 {
        (1, (c - 0x31) / 3, (c - 0x31) % 3)
    } else if c == 0x2A {
        (1, 3, 0)
    } else if c == 0x30 {
        (1, 3, 1)
    } else {
        (1, 3, 2)
    }
}

} // verus!
