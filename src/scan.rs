use vstd::prelude::*;

use crate::layout::{key_code, translate, valid_position, Symbol, COLUMNS, POWER_CODE};
use crate::lock::{blocks, Lock};

verus! {

/// Number of drive lines scanned in one pass: every row of both pads.
pub const LINES: usize = 8;

/// Number of keys: two pads of four rows and three columns.
pub const KEYS: usize = 24;

/// The pad that drive line `line` selects (the board's wiring, not row-major).
pub open spec fn line_pad(line: int) -> int {
    if line == 0 || line == 1 || line == 2 || line == 7 {
        0
    } else {
        1
    }
}

/// The row that drive line `line` selects.
pub open spec fn line_row(line: int) -> int {
    if line == 0 || line == 4 {
        0
    } else if line == 3 || line == 7 {
        1
    } else if line == 2 || line == 6 {
        2
    } else {
        3
    }
}

/// The column read through sense slot `slot` of the input byte.
pub open spec fn slot_column(slot: int) -> int {
    if slot == 0 {
        1
    } else if slot == 1 {
        0
    } else {
        2
    }
}

/// The bit of the input byte that sense slot `slot` reads.
pub open spec fn slot_mask(slot: int) -> u8 {
    if slot == 0 {
        0x02
    } else if slot == 1 {
        0x10
    } else {
        0x80
    }
}

/// A key reads as pressed when its sense bit is low.
pub open spec fn slot_pressed(byte: u8, slot: int) -> bool {
    byte & slot_mask(slot) == 0
}

/// Where the latch of the key at `(pad, row, col)` is kept.
pub open spec fn key_index(pad: int, row: int, col: int) -> int {
    pad * 12 + row * 3 + col
}

/// The latch of the key that line `line` and slot `slot` read.
pub open spec fn line_key(line: int, slot: int) -> int {
    key_index(line_pad(line), line_row(line), slot_column(slot))
}

/// The symbol of the key that line `line` and slot `slot` read.
pub open spec fn line_symbol(line: int, slot: int) -> Symbol {
    Symbol(key_code(line_pad(line), line_row(line), slot_column(slot)))
}

/// A key change to report.
#[derive(Clone, Copy, Debug, PartialEq, Eq, Structural)]
pub enum Event {
    Pressed(Symbol),
    Released(Symbol),
}

/// The latch after a read: a press is latched only when the lock lets it
/// through, a release always clears it.
pub open spec fn next_latch(latched: bool, pressed: bool, blocked: bool) -> bool {
    pressed && (latched || !blocked)
}

/// The event that a read of one key reports, given its latch.
pub open spec fn edge_event(latched: bool, pressed: bool, blocked: bool, sym: Symbol) -> Option<Event> {
    if !latched && pressed && !blocked {
        Some(Event::Pressed(sym))
    } else if latched && !pressed {
        Some(Event::Released(sym))
    } else {
        None
    }
}

/// The event that reading `byte` on `line` reports for slot `slot`.
pub open spec fn key_event(m: Seq<bool>, line: int, slot: int, byte: u8, lock: Lock) -> Option<Event> {
    edge_event(
        m[line_key(line, slot)],
        slot_pressed(byte, slot),
        blocks(lock, line_symbol(line, slot)),
        line_symbol(line, slot),
    )
}

/// The latches after reading `byte` on `line` for slot `slot`.
pub open spec fn key_step(m: Seq<bool>, line: int, slot: int, byte: u8, lock: Lock) -> Seq<bool> {
    m.update(
        line_key(line, slot),
        next_latch(
            m[line_key(line, slot)],
            slot_pressed(byte, slot),
            blocks(lock, line_symbol(line, slot)),
        ),
    )
}

/// An optional event as a sequence of zero or one events.
pub open spec fn events_of(e: Option<Event>) -> Seq<Event> {
    match e {
        Some(x) => seq![x],
        None => seq![],
    }
}

/// The events that reading `byte` on `line` reports, slot by slot.
pub open spec fn line_events(m: Seq<bool>, line: int, byte: u8, lock: Lock) -> Seq<Event> {
    events_of(key_event(m, line, 0, byte, lock)) + events_of(key_event(m, line, 1, byte, lock))
        + events_of(key_event(m, line, 2, byte, lock))
}

/// The latches after reading `byte` on `line`.
pub open spec fn line_step(m: Seq<bool>, line: int, byte: u8, lock: Lock) -> Seq<bool> {
    key_step(key_step(key_step(m, line, 0, byte, lock), line, 1, byte, lock), line, 2, byte, lock)
}

/// The three keys of a line have latches of their own, all within the matrix.
proof fn lemma_line_keys(line: int)
    requires
        0 <= line < LINES,
    ensures
        forall|a: int, b: int| 0 <= a < b < 3 ==> line_key(line, a) != line_key(line, b),
        forall|a: int| 0 <= a < 3 ==> 0 <= #[trigger] line_key(line, a) < KEYS,
{
}

/// The pad and row that drive line `line` selects.
pub fn line_position(line: usize) -> (r: (usize, usize))
    requires
        line < LINES,
    ensures
        r.0 == line_pad(line as int),
        r.1 == line_row(line as int),
{
    match line {
        0 => (0, 0),
        1 => (0, 3),
        2 => (0, 2),
        3 => (1, 1),
        4 => (1, 0),
        5 => (1, 3),
        6 => (1, 2),
        _ => (0, 1),
    }
}

/// The column that sense slot `slot` reads.
pub fn column_of_slot(slot: usize) -> (r: usize)
    requires
        slot < COLUMNS,
    ensures
        r == slot_column(slot as int),
{
    if slot == 0 {
        1
    } else if slot == 1 {
        0
    } else {
        2
    }
}

/// Whether the input byte shows the key of sense slot `slot` pressed.
pub fn is_slot_pressed(byte: u8, slot: usize) -> (r: bool)
    requires
        slot < COLUMNS,
    ensures
        r == slot_pressed(byte, slot as int),
{
    let mask: u8 = if slot == 0 {
        0x02
    } else if slot == 1 {
        0x10
    } else {
        0x80
    };
    byte & mask == 0
}

/// The latched state of every key during one scan.
pub struct Scanner {
    keys: Vec<bool>,
}

impl View for Scanner {
    type V = Seq<bool>;

    closed spec fn view(&self) -> Seq<bool> {
        self.keys@
    }
}

impl Scanner {
    /// Holds one latch per key.
    pub closed spec fn wf(&self) -> bool {
        self.keys@.len() == KEYS
    }

    /// A scanner with no key latched.
    pub fn new() -> (r: Scanner)
        ensures
            r.wf(),
            r@ == Seq::new(KEYS as nat, |i: int| false),
    {
        let mut keys: Vec<bool> = Vec::new();
        let mut i: usize = 0;
        while i < KEYS
            invariant
                i <= KEYS,
                keys@ == Seq::new(i as nat, |j: int| false),
            decreases KEYS - i,
        {
            keys.push(false);
            i = i + 1;
        }
        Scanner { keys }
    }

    /// Whether the key at `(pad, row, column)` is latched as pressed.
    pub fn is_pressed(&self, pad: usize, row: usize, column: usize) -> (r: bool)
        requires
            self.wf(),
            valid_position(pad as int, row as int, column as int),
        ensures
            r == self@[key_index(pad as int, row as int, column as int)],
    {
        self.keys[pad * 12 + row * 3 + column]
    }

    /// Takes the read of one key: `byte` was read while `line` was driven, and
    /// `slot` picks the key's sense bit. Returns the event to report, if any.
    pub fn process_key(&mut self, line: usize, slot: usize, byte: u8, lock: Lock) -> (r: Option<Event>)
        requires
            old(self).wf(),
            line < LINES,
            slot < COLUMNS,
        ensures
            final(self).wf(),
            final(self)@ == key_step(old(self)@, line as int, slot as int, byte, lock),
            r == key_event(old(self)@, line as int, slot as int, byte, lock),
    {
        let (pad, row) = line_position(line);
        let column = column_of_slot(slot);
        let pressed = is_slot_pressed(byte, slot);
        let idx = pad * 12 + row * 3 + column;
        let latched = self.keys[idx];
        let sym = translate(pad, row, column);
        if !latched && pressed {
            if !lock.is_blocked(sym) {
                self.keys.set(idx, true);
                Some(Event::Pressed(sym))
            } else {
                None
            }
        } else if latched && !pressed {
            self.keys.set(idx, false);
            Some(Event::Released(sym))
        } else {
            None
        }
    }

    /// Takes the byte read while `line` was driven and returns the events to
    /// report, in slot order.
    pub fn process_line(&mut self, line: usize, byte: u8, lock: Lock) -> (r: Vec<Event>)
        requires
            old(self).wf(),
            line < LINES,
        ensures
            final(self).wf(),
            final(self)@ == line_step(old(self)@, line as int, byte, lock),
            r@ == line_events(old(self)@, line as int, byte, lock),
    {
        let ghost m0 = self@;
        let mut events: Vec<Event> = Vec::new();
        let mut slot: usize = 0;
        while slot < COLUMNS
            invariant
                self.wf(),
                line < LINES,
                slot <= COLUMNS,
                m0.len() == KEYS,
                slot == 0 ==> self@ == m0 && events@ == Seq::<Event>::empty(),
                slot == 1 ==> self@ == key_step(m0, line as int, 0, byte, lock)
                    && events@ == events_of(key_event(m0, line as int, 0, byte, lock)),
                slot == 2 ==> self@ == key_step(key_step(m0, line as int, 0, byte, lock), line as int, 1, byte, lock)
                    && events@ == events_of(key_event(m0, line as int, 0, byte, lock))
                        + events_of(key_event(m0, line as int, 1, byte, lock)),
                slot == 3 ==> self@ == line_step(m0, line as int, byte, lock)
                    && events@ == line_events(m0, line as int, byte, lock),
            decreases COLUMNS - slot,
        {
            let ghost before = events@;
            let ghost m = self@;
            proof {
                lemma_line_keys(line as int);
                let k = line_key(line as int, slot as int);
                assert(slot == 0 || line_key(line as int, 0) != k);
                assert(slot <= 1 || line_key(line as int, 1) != k);
                assert(m[k] == m0[k]);
            }
            let e = self.process_key(line, slot, byte, lock);
            proof {
                assert(key_event(m, line as int, slot as int, byte, lock) == key_event(
                    m0,
                    line as int,
                    slot as int,
                    byte,
                    lock,
                ));
            }
            if let Some(x) = e {
                events.push(x);
            }
            assert(events@ =~= before + events_of(e));
            slot = slot + 1;
        }
        events
    }
}

/// Reading a key in the state it is latched in reports nothing and keeps
/// every latch: events come from changes, not from levels.
pub proof fn lemma_steady_read_is_silent(m: Seq<bool>, line: int, slot: int, byte: u8, lock: Lock)
    requires
        m.len() == KEYS,
        0 <= line < LINES,
        0 <= slot < COLUMNS,
        m[line_key(line, slot)] == slot_pressed(byte, slot),
    ensures
        key_event(m, line, slot, byte, lock) == None::<Event>,
        key_step(m, line, slot, byte, lock) == m,
{
    assert(key_step(m, line, slot, byte, lock) =~= m);
}

/// A key that is pressed while the lock lets it through, held, and released
/// reports one press, nothing while held, then one release, after which the
/// latches are as before the press.
pub proof fn lemma_press_hold_release(
    m: Seq<bool>,
    line: int,
    slot: int,
    down: u8,
    up: u8,
    lock_down: Lock,
    lock_held: Lock,
    lock_up: Lock,
)
    requires
        m.len() == KEYS,
        0 <= line < LINES,
        0 <= slot < COLUMNS,
        !m[line_key(line, slot)],
        slot_pressed(down, slot),
        !slot_pressed(up, slot),
        !blocks(lock_down, line_symbol(line, slot)),
    ensures
        key_event(m, line, slot, down, lock_down) == Some(Event::Pressed(line_symbol(line, slot))),
        key_event(key_step(m, line, slot, down, lock_down), line, slot, down, lock_held) == None::<Event>,
        key_step(key_step(m, line, slot, down, lock_down), line, slot, down, lock_held) == key_step(m, line, slot, down, lock_down),
        key_event(key_step(m, line, slot, down, lock_down), line, slot, up, lock_up) == Some(
            Event::Released(line_symbol(line, slot)),
        ),
        key_step(key_step(m, line, slot, down, lock_down), line, slot, up, lock_up) == m,
{
    let m1 = key_step(m, line, slot, down, lock_down);
    lemma_line_keys(line);
    lemma_steady_read_is_silent(m1, line, slot, down, lock_held);
    assert(key_step(m1, line, slot, up, lock_up) =~= m);
}

/// A press made while locked is not reported and not latched; while the key
/// stays down, the first read after unlocking reports it; its release is
/// reported whatever the lock is then.
pub proof fn lemma_locked_press_deferred(m: Seq<bool>, line: int, slot: int, down: u8, up: u8, lock_up: Lock)
    requires
        m.len() == KEYS,
        0 <= line < LINES,
        0 <= slot < COLUMNS,
        !m[line_key(line, slot)],
        slot_pressed(down, slot),
        !slot_pressed(up, slot),
    ensures
        key_event(m, line, slot, down, Lock::Locked) == None::<Event>,
        key_step(m, line, slot, down, Lock::Locked) == m,
        key_event(m, line, slot, down, Lock::Unlocked) == Some(Event::Pressed(line_symbol(line, slot))),
        key_event(key_step(m, line, slot, down, Lock::Unlocked), line, slot, up, lock_up) == Some(
            Event::Released(line_symbol(line, slot)),
        ),
{
    lemma_line_keys(line);
    assert(key_step(m, line, slot, down, Lock::Locked) =~= m);
}

/// Under the power-only policy an unlatched key that reads as pressed is
/// reported only if it is the power key; any other stays unlatched, so it is
/// suppressed again on every read while it is held.
pub proof fn lemma_power_only(m: Seq<bool>, line: int, slot: int, byte: u8)
    requires
        m.len() == KEYS,
        0 <= line < LINES,
        0 <= slot < COLUMNS,
        !m[line_key(line, slot)],
        slot_pressed(byte, slot),
    ensures
        key_event(m, line, slot, byte, Lock::UnlockedPowerOnly) == (if line_symbol(line, slot).0
            == POWER_CODE {
            Some(Event::Pressed(line_symbol(line, slot)))
        } else {
            None
        }),
        line_symbol(line, slot).0 != POWER_CODE ==> key_step(
            m,
            line,
            slot,
            byte,
            Lock::UnlockedPowerOnly,
        ) == m,
{
    assert(line_symbol(line, slot).0 != POWER_CODE ==> key_step(
        m,
        line,
        slot,
        byte,
        Lock::UnlockedPowerOnly,
    ) =~= m);
}

} // verus!
