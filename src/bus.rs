use vstd::prelude::*;

use crate::scan::LINES;

verus! {

/// Seven-bit address of the port expander on the two-wire bus.
pub const DEVICE_ADDRESS: u16 = 0x20;

/// Registers of the port expander in its banked addressing mode.
#[derive(Clone, Copy, Debug, PartialEq, Eq, Structural)]
pub enum Reg {
    /// Direction of port A (bit set: input).
    DirA,
    /// Direction of port B.
    DirB,
    /// Output latch of port A.
    OutA,
    /// Output latch of port B.
    OutB,
    /// Pull-ups of port A.
    PupA,
    /// Pull-ups of port B.
    PupB,
    /// Input levels of port A.
    InpA,
    /// Input levels of port B.
    InpB,
}

/// The bus address of register `r`.
pub open spec fn reg_addr(r: Reg) -> u8 {
    match r {
        Reg::DirA => 0x00,
        Reg::DirB => 0x10,
        Reg::OutA => 0x0A,
        Reg::OutB => 0x1A,
        Reg::PupA => 0x06,
        Reg::PupB => 0x16,
        Reg::InpA => 0x09,
        Reg::InpB => 0x19,
    }
}

impl Reg {
    /// The bus address of this register.
    pub fn addr(&self) -> (r: u8)
        ensures
            r == reg_addr(*self),
    {
        match self {
            Reg::DirA => 0x00,
            Reg::DirB => 0x10,
            Reg::OutA => 0x0A,
            Reg::OutB => 0x1A,
            Reg::PupA => 0x06,
            Reg::PupB => 0x16,
            Reg::InpA => 0x09,
            Reg::InpB => 0x19,
        }
    }
}

/// One step of talking to the expander.
#[derive(Clone, Copy, Debug, PartialEq, Eq, Structural)]
pub enum BusOp {
    /// Write a value to the register at an address.
    Write(u8, u8),
    /// Wait a number of milliseconds.
    Pause(u64),
    /// Select the register at an address and read its byte, in one transaction.
    Read(u8),
}

/// A write of `val` to register `r`.
pub open spec fn write_reg(r: Reg, val: u8) -> BusOp {
    BusOp::Write(reg_addr(r), val)
}

/// The drive mask for `line`: that line's bit low, all others high.
pub open spec fn line_mask(line: int) -> u8 {
    !(1u8 << (line as u8))
}

/// Bring the expander into a known state after power-on: banked addressing
/// (written at both places the mode register can sit), output latch A and
/// interrupt control B cleared.
pub open spec fn open_sequence() -> Seq<BusOp> {
    seq![BusOp::Write(0x05, 0x80), BusOp::Write(0x0A, 0x80), BusOp::Write(0x0A, 0x00), BusOp::Write(0x12, 0x00)]
}

/// Before a scan: port B as input, port A driven high for 10 ms to charge the
/// lines, then port A back to input with pull-ups.
pub open spec fn prime_sequence() -> Seq<BusOp> {
    seq![
        write_reg(Reg::DirB, 0xFF),
        write_reg(Reg::DirA, 0x00),
        write_reg(Reg::OutA, 0xFF),
        BusOp::Pause(10),
        write_reg(Reg::DirA, 0xFF),
        write_reg(Reg::PupA, 0xFF),
    ]
}

/// Drive `line` alone low, let it settle for 5 ms, then read port A's inputs.
pub open spec fn select_sequence(line: int) -> Seq<BusOp> {
    seq![
        write_reg(Reg::DirB, line_mask(line)),
        write_reg(Reg::OutB, line_mask(line)),
        BusOp::Pause(5),
        BusOp::Read(reg_addr(Reg::InpA)),
    ]
}

/// After a read: drive port B high, drive port A high for 1 ms to drain what
/// is left on the sense lines, then port A back to input.
pub open spec fn recharge_sequence() -> Seq<BusOp> {
    seq![
        write_reg(Reg::OutB, 0xFF),
        write_reg(Reg::OutA, 0xFF),
        write_reg(Reg::DirA, 0x00),
        BusOp::Pause(1),
        write_reg(Reg::DirA, 0xFF),
    ]
}

/// The drive mask for `line`.
pub fn drive_mask(line: usize) -> (r: u8)
    requires
        line < LINES,
    ensures
        r == line_mask(line as int),
{
    !(1u8 << (line as u8))
}

/// Exactly the bit of the driven line is low in its mask.
pub proof fn lemma_drive_mask_one_low(line: int, j: u8)
    requires
        0 <= line < LINES,
        j < 8,
    ensures
        (line_mask(line) >> j) & 1 == 0 <==> j == line as u8,
{
    let l = line as u8;
    assert((!(1u8 << l) >> j) & 1 == 0 <==> j == l) by (bit_vector)
        requires
            l < 8,
            j < 8,
    ;
}

/// The steps that bring the expander into a known state.
pub fn open_ops() -> (r: Vec<BusOp>)
    ensures
        r@ == open_sequence(),
{
    let r = vec![BusOp::Write(0x05, 0x80), BusOp::Write(0x0A, 0x80), BusOp::Write(0x0A, 0x00), BusOp::Write(0x12, 0x00)];
    assert(r@ =~= open_sequence());
    r
}

/// The steps that prepare the lines before a scan.
pub fn prime_ops() -> (r: Vec<BusOp>)
    ensures
        r@ == prime_sequence(),
{
    let r = vec![
        BusOp::Write(Reg::DirB.addr(), 0xFF),
        BusOp::Write(Reg::DirA.addr(), 0x00),
        BusOp::Write(Reg::OutA.addr(), 0xFF),
        BusOp::Pause(10),
        BusOp::Write(Reg::DirA.addr(), 0xFF),
        BusOp::Write(Reg::PupA.addr(), 0xFF),
    ];
    assert(r@ =~= prime_sequence());
    r
}

/// The steps that drive `line` and read the sense lines; the last is the read.
pub fn select_ops(line: usize) -> (r: Vec<BusOp>)
    requires
        line < LINES,
    ensures
        r@ == select_sequence(line as int),
{
    let m = drive_mask(line);
    let r = vec![
        BusOp::Write(Reg::DirB.addr(), m),
        BusOp::Write(Reg::OutB.addr(), m),
        BusOp::Pause(5),
        BusOp::Read(Reg::InpA.addr()),
    ];
    assert(r@ =~= select_sequence(line as int));
    r
}

/// The steps that release the lines after a read.
pub fn recharge_ops() -> (r: Vec<BusOp>)
    ensures
        r@ == recharge_sequence(),
{
    let r = vec![
        BusOp::Write(Reg::OutB.addr(), 0xFF),
        BusOp::Write(Reg::OutA.addr(), 0xFF),
        BusOp::Write(Reg::DirA.addr(), 0x00),
        BusOp::Pause(1),
        BusOp::Write(Reg::DirA.addr(), 0xFF),
    ];
    assert(r@ =~= recharge_sequence());
    r
}

} // verus!
