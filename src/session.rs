use vstd::prelude::*;

use crate::bus::{
    prime_ops, prime_sequence, recharge_ops, recharge_sequence, select_ops, select_sequence, BusOp,
};
use crate::layout::COLUMNS;
use crate::lock::Lock;
use crate::scan::{key_event, key_step, Event, Scanner, KEYS, LINES};

verus! {

/// Where a scan stands.
#[derive(Clone, Copy, Debug, PartialEq, Eq, Structural)]
pub enum Phase {
    /// The lines have yet to be charged.
    Priming,
    /// This line is to be driven and the sense lines read.
    Driving(usize),
    /// This line was read; the key of this slot is to be judged next.
    Judging(usize, usize),
    /// This line was judged; the lines are to be released.
    Releasing(usize),
    /// The scan is over.
    Stopped,
}

/// Whether a phase names only lines and slots that exist.
pub open spec fn phase_ok(p: Phase) -> bool {
    match p {
        Phase::Driving(l) => l < LINES,
        Phase::Judging(l, s) => l < LINES && s < COLUMNS,
        Phase::Releasing(l) => l < LINES,
        _ => true,
    }
}

/// Whether the driver has bus steps to run in this phase.
pub open spec fn wants_bus(p: Phase) -> bool {
    match p {
        Phase::Priming => true,
        Phase::Driving(_) => true,
        Phase::Releasing(_) => true,
        _ => false,
    }
}

/// The bus steps of a phase.
pub open spec fn phase_ops(p: Phase) -> Seq<BusOp> {
    match p {
        Phase::Priming => prime_sequence(),
        Phase::Driving(l) => select_sequence(l as int),
        Phase::Releasing(_) => recharge_sequence(),
        _ => seq![],
    }
}

/// The phase after the writes of `p`: the scan ends if a stop was asked for,
/// else it goes on with the next line, back to the first after the last.
pub open spec fn after_writes(p: Phase, stop: bool) -> Phase {
    if stop {
        Phase::Stopped
    } else {
        match p {
            Phase::Releasing(l) => Phase::Driving(if l + 1 < LINES { (l + 1) as usize } else { 0 }),
            _ => Phase::Driving(0),
        }
    }
}

/// The phase after judging slot `s` of line `l`.
pub open spec fn after_judging(l: usize, s: usize) -> Phase {
    if s + 1 < COLUMNS {
        Phase::Judging(l, (s + 1) as usize)
    } else {
        Phase::Releasing(l)
    }
}

/// One run of the scan loop: what to do next, and the key latches.
///
/// The driver asks for the phase, performs it, and reports back: the bus
/// steps of a phase are run, the byte read while a line is driven is handed
/// in, and each key is judged with the lock policy of that moment.
pub struct ScanLoop {
    phase: Phase,
    keys: Scanner,
    byte: u8,
}

impl ScanLoop {
    /// The current phase.
    pub closed spec fn phase_spec(&self) -> Phase {
        self.phase
    }

    /// The key latches.
    pub closed spec fn latches(&self) -> Seq<bool> {
        self.keys@
    }

    /// The byte last read from the sense lines.
    pub closed spec fn sensed(&self) -> u8 {
        self.byte
    }

    /// One latch per key, and a phase that names existing lines and slots.
    pub closed spec fn wf(&self) -> bool {
        self.keys.wf() && phase_ok(self.phase)
    }

    /// A scan about to charge the lines, with no key latched.
    pub fn new() -> (r: ScanLoop)
        ensures
            r.wf(),
            r.phase_spec() == Phase::Priming,
            r.latches() == Seq::new(KEYS as nat, |i: int| false),
    {
        ScanLoop { phase: Phase::Priming, keys: Scanner::new(), byte: 0xFF }
    }

    /// The current phase.
    pub fn phase(&self) -> (r: Phase)
        requires
            self.wf(),
        ensures
            r == self.phase_spec(),
            phase_ok(r),
    {
        self.phase
    }

    /// The bus steps to run in the current phase.
    pub fn bus_ops(&self) -> (r: Vec<BusOp>)
        requires
            self.wf(),
            wants_bus(self.phase_spec()),
        ensures
            r@ == phase_ops(self.phase_spec()),
    {
        match self.phase {
            Phase::Priming => prime_ops(),
            Phase::Driving(l) => select_ops(l),
            _ => recharge_ops(),
        }
    }

    /// The driven line was read as `byte`; its keys are judged next.
    pub fn read_done(&mut self, byte: u8)
        requires
            old(self).wf(),
            old(self).phase_spec() is Driving,
        ensures
            final(self).wf(),
            final(self).phase_spec() == Phase::Judging(old(self).phase_spec()->Driving_0, 0),
            final(self).sensed() == byte,
            final(self).latches() == old(self).latches(),
    {
        if let Phase::Driving(l) = self.phase {
            self.phase = Phase::Judging(l, 0);
        }
        self.byte = byte;
    }

    /// The writes of the priming or releasing phase are done; `stop` tells
    /// whether a stop was asked for, which is looked at once per line.
    pub fn writes_done(&mut self, stop: bool)
        requires
            old(self).wf(),
            old(self).phase_spec() is Priming || old(self).phase_spec() is Releasing,
        ensures
            final(self).wf(),
            final(self).phase_spec() == after_writes(old(self).phase_spec(), stop),
            final(self).sensed() == old(self).sensed(),
            final(self).latches() == old(self).latches(),
    {
        if stop {
            self.phase = Phase::Stopped;
        } else if let Phase::Releasing(l) = self.phase {
            self.phase = Phase::Driving(if l + 1 < LINES { l + 1 } else { 0 });
        } else {
            self.phase = Phase::Driving(0);
        }
    }

    /// Judges the key of the current slot against the last byte read and the
    /// lock policy `lock`; returns the event to report, if any.
    pub fn judge(&mut self, lock: Lock) -> (r: Option<Event>)
        requires
            old(self).wf(),
            old(self).phase_spec() is Judging,
        ensures
            final(self).wf(),
            ({
                let l = old(self).phase_spec()->Judging_0;
                let s = old(self).phase_spec()->Judging_1;
                &&& r == key_event(old(self).latches(), l as int, s as int, old(self).sensed(), lock)
                &&& final(self).latches() == key_step(
                    old(self).latches(),
                    l as int,
                    s as int,
                    old(self).sensed(),
                    lock,
                )
                &&& final(self).phase_spec() == after_judging(l, s)
            }),
            final(self).sensed() == old(self).sensed(),
    {
        if let Phase::Judging(l, s) = self.phase {
            let e = self.keys.process_key(l, s, self.byte, lock);
            self.phase = if s + 1 < COLUMNS { Phase::Judging(l, s + 1) } else { Phase::Releasing(l) };
            e
        } else {
            None
        }
    }
}

} // verus!
