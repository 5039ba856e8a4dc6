//! One handler per mnemonic, each specified against a pure function on
//! processor values. Two cross-cutting rules hold throughout and are
//! stated on every handler:
//!
//! * every operation that produces a result byte sets Zero exactly when
//!   the byte is zero and Negative exactly when its bit 7 is set;
//! * an instruction leaves every flag outside its documented set
//!   bit-for-bit unchanged.

use vstd::prelude::*;

use crate::addressing_modes::{spec_operand_addr, AddressingMode};
use crate::cpu::{CpuView, CPU};
use crate::memory::Mem;
use crate::opcodes::Mnemonic;
use crate::status::{
    set_mask, CARRY, DECIMAL_MODE, INTERRUPT_DISABLE, NEGATIV, OVERFLOW, ZERO,
};

verus! {

/// The status byte after the shared zero/negative rule for result byte
/// `r`: Zero set iff `r == 0`, Negative set iff bit 7 of `r` is set, all
/// other flags kept.
pub open spec fn update_zn(st: u8, r: u8) -> u8 {
    set_mask(set_mask(st, ZERO, r == 0), NEGATIV, r & 0x80 != 0)
}

/// The zero/negative rule sets exactly its two flags, by their defining
/// predicates, and keeps the other six.
pub proof fn lemma_update_zn(st: u8, r: u8)
    ensures
        (update_zn(st, r) & ZERO != 0) == (r == 0),
        (update_zn(st, r) & NEGATIV != 0) == (r & 0x80 != 0),
        update_zn(st, r) & !(ZERO | NEGATIV) == st & !(ZERO | NEGATIV),
{
    assert((update_zn(st, r) & ZERO != 0) == (r == 0) && (update_zn(st, r) & NEGATIV != 0) == (r
        & 0x80 != 0) && update_zn(st, r) & !(ZERO | NEGATIV) == st & !(ZERO | NEGATIV))
        by (bit_vector);
}

/// Clearing the bits of `mask` leaves them clear and keeps all others.
pub proof fn lemma_clear_mask(st: u8, mask: u8)
    ensures
        (st & !mask) & mask == 0,
        (st & !mask) & !mask == st & !mask,
{
    assert((st & !mask) & mask == 0 && (st & !mask) & !mask == st & !mask) by (bit_vector);
}

/// The carry coming into an addition: 1 when the Carry flag is set.
pub open spec fn carry_in(st: u8) -> int {
    if st & CARRY != 0 {
        1
    } else {
        0
    }
}

/// The widened intermediate sum of add-with-carry: accumulator plus
/// operand plus incoming carry, at most 511.
pub open spec fn adc_sum(st: u8, a: u8, m: u8) -> int {
    a + m + carry_in(st)
}

/// The result byte of add-with-carry: the intermediate sum truncated to
/// eight bits.
pub open spec fn adc_result(st: u8, a: u8, m: u8) -> u8 {
    (adc_sum(st, a, m) % 0x100) as u8
}

/// The standard two's-complement overflow test: the addends agree in
/// sign (bit 7) and differ in sign from the result.
pub open spec fn overflow_cond(a: u8, m: u8, r: u8) -> bool {
    (a ^ r) & (m ^ r) & 0x80 != 0
}

/// The status byte after add-with-carry: Carry from the widened sum,
/// Overflow from the sign test, then the zero/negative rule on the
/// result byte.
pub open spec fn adc_status(st: u8, a: u8, m: u8) -> u8 {
    let r = adc_result(st, a, m);
    update_zn(
        set_mask(set_mask(st, CARRY, adc_sum(st, a, m) > 0xFF), OVERFLOW, overflow_cond(a, m, r)),
        r,
    )
}

/// Add-with-carry drives exactly Carry, Overflow, Zero and Negative, by
/// their defining predicates, and keeps the other four flags.
pub proof fn lemma_adc_status(st: u8, a: u8, m: u8)
    ensures
        (adc_status(st, a, m) & CARRY != 0) == (adc_sum(st, a, m) > 0xFF),
        (adc_status(st, a, m) & OVERFLOW != 0) == overflow_cond(a, m, adc_result(st, a, m)),
        (adc_status(st, a, m) & ZERO != 0) == (adc_result(st, a, m) == 0),
        (adc_status(st, a, m) & NEGATIV != 0) == (adc_result(st, a, m) & 0x80 != 0),
        adc_status(st, a, m) & !(CARRY | OVERFLOW | ZERO | NEGATIV) == st & !(CARRY | OVERFLOW
            | ZERO | NEGATIV),
{
    assert((adc_status(st, a, m) & CARRY != 0) == (adc_sum(st, a, m) > 0xFF) && (adc_status(
        st,
        a,
        m,
    ) & OVERFLOW != 0) == overflow_cond(a, m, adc_result(st, a, m)) && (adc_status(st, a, m) & ZERO
        != 0) == (adc_result(st, a, m) == 0) && (adc_status(st, a, m) & NEGATIV != 0) == (
    adc_result(st, a, m) & 0x80 != 0) && adc_status(st, a, m) & !(CARRY | OVERFLOW | ZERO | NEGATIV)
        == st & !(CARRY | OVERFLOW | ZERO | NEGATIV)) by (bit_vector);
}

/// The result byte of an arithmetic shift left: bit 0 becomes 0, bit 7
/// is shifted out.
pub open spec fn asl_result(m: u8) -> u8 {
    m << 1
}

/// The status byte after an arithmetic shift left of `m`: Carry takes
/// the old bit 7, then the zero/negative rule on the shifted byte.
pub open spec fn asl_status(st: u8, m: u8) -> u8 {
    update_zn(set_mask(st, CARRY, m & 0x80 != 0), asl_result(m))
}

/// Shift left drives exactly Carry, Zero and Negative, by their defining
/// predicates, and keeps the other five flags.
pub proof fn lemma_asl_status(st: u8, m: u8)
    ensures
        (asl_status(st, m) & CARRY != 0) == (m & 0x80 != 0),
        (asl_status(st, m) & ZERO != 0) == (asl_result(m) == 0),
        (asl_status(st, m) & NEGATIV != 0) == (asl_result(m) & 0x80 != 0),
        asl_status(st, m) & !(CARRY | ZERO | NEGATIV) == st & !(CARRY | ZERO | NEGATIV),
{
    assert((asl_status(st, m) & CARRY != 0) == (m & 0x80 != 0) && (asl_status(st, m) & ZERO != 0)
        == (asl_result(m) == 0) && (asl_status(st, m) & NEGATIV != 0) == (asl_result(m) & 0x80 != 0)
        && asl_status(st, m) & !(CARRY | ZERO | NEGATIV) == st & !(CARRY | ZERO | NEGATIV))
        by (bit_vector);
}

/// The status byte after a bit test of memory byte `m` against
/// accumulator `a`: Zero from the masked test, Overflow and Negative
/// copied from bits 6 and 7 of the memory byte.
pub open spec fn bit_status(st: u8, a: u8, m: u8) -> u8 {
    set_mask(set_mask(set_mask(st, ZERO, a & m == 0), OVERFLOW, m & 0x40 != 0), NEGATIV, m & 0x80
        != 0)
}

/// The bit test drives exactly Zero, Overflow and Negative, by their
/// defining predicates, and keeps the other five flags.
pub proof fn lemma_bit_status(st: u8, a: u8, m: u8)
    ensures
        (bit_status(st, a, m) & ZERO != 0) == (a & m == 0),
        (bit_status(st, a, m) & OVERFLOW != 0) == (m & 0x40 != 0),
        (bit_status(st, a, m) & NEGATIV != 0) == (m & 0x80 != 0),
        bit_status(st, a, m) & !(ZERO | OVERFLOW | NEGATIV) == st & !(ZERO | OVERFLOW | NEGATIV),
{
    assert((bit_status(st, a, m) & ZERO != 0) == (a & m == 0) && (bit_status(st, a, m) & OVERFLOW
        != 0) == (m & 0x40 != 0) && (bit_status(st, a, m) & NEGATIV != 0) == (m & 0x80 != 0)
        && bit_status(st, a, m) & !(ZERO | OVERFLOW | NEGATIV) == st & !(ZERO | OVERFLOW | NEGATIV))
        by (bit_vector);
}

/// A branch offset byte sign-extended to sixteen bits.
pub open spec fn branch_offset(off: u8) -> u16 {
    if off < 0x80 {
        off as u16
    } else {
        (off + 0xFF00) as u16
    }
}

/// Loads the byte at `addr` into the accumulator.
pub open spec fn spec_lda(v: CpuView, addr: u16) -> CpuView {
    let m = v.mem[addr as int];
    CpuView { a: m, status: update_zn(v.status, m), ..v }
}

/// Stores the accumulator at `addr`.
pub open spec fn spec_sta(v: CpuView, addr: u16) -> CpuView {
    CpuView { mem: v.mem.update(addr as int, v.a), ..v }
}

/// Copies the accumulator into the X register.
pub open spec fn spec_tax(v: CpuView) -> CpuView {
    CpuView { x: v.a, status: update_zn(v.status, v.a), ..v }
}

/// Increments the X register with 8-bit wraparound.
pub open spec fn spec_inx(v: CpuView) -> CpuView {
    let r = v.x.wrapping_add(1);
    CpuView { x: r, status: update_zn(v.status, r), ..v }
}

/// Adds `m` and the incoming carry to the accumulator.
pub open spec fn spec_add_to_a(v: CpuView, m: u8) -> CpuView {
    CpuView { a: adc_result(v.status, v.a, m), status: adc_status(v.status, v.a, m), ..v }
}

/// Add-with-carry of the byte at `addr`.
pub open spec fn spec_adc(v: CpuView, addr: u16) -> CpuView {
    spec_add_to_a(v, v.mem[addr as int])
}

/// Bitwise and of the byte at `addr` into the accumulator.
pub open spec fn spec_and(v: CpuView, addr: u16) -> CpuView {
    let r = v.mem[addr as int] & v.a;
    CpuView { a: r, status: update_zn(v.status, r), ..v }
}

/// Shift left of the accumulator.
pub open spec fn spec_asl_acc(v: CpuView) -> CpuView {
    CpuView { a: asl_result(v.a), status: asl_status(v.status, v.a), ..v }
}

/// Shift left of the byte at `addr`, in place.
pub open spec fn spec_asl_mem(v: CpuView, addr: u16) -> CpuView {
    let m = v.mem[addr as int];
    CpuView { mem: v.mem.update(addr as int, asl_result(m)), status: asl_status(v.status, m), ..v }
}

/// Bit test of the byte at `addr` against the accumulator; the
/// accumulator itself is unchanged.
pub open spec fn spec_bit(v: CpuView, addr: u16) -> CpuView {
    CpuView { status: bit_status(v.status, v.a, v.mem[addr as int]), ..v }
}

/// A conditional relative branch. The program counter points at the
/// offset byte. When the condition holds, the counter moves past the
/// offset byte and then by the sign-extended offset, wrapping at 16
/// bits; when it does not, nothing changes here (the engine skips the
/// offset byte through the instruction length).
pub open spec fn spec_branch(v: CpuView, taken: bool) -> CpuView {
    if taken {
        let off = v.mem[v.pc as int];
        CpuView { pc: v.pc.wrapping_add(1).wrapping_add(branch_offset(off)), ..v }
    } else {
        v
    }
}

/// Clears the flag bits of `mask`.
pub open spec fn spec_clear(v: CpuView, mask: u8) -> CpuView {
    CpuView { status: v.status & !mask, ..v }
}

/// The effect of one instruction on processor value `v`, whose program
/// counter points at the first byte after the opcode. `BRK` never
/// reaches a handler — the engine halts on it — so it maps to the
/// identity here.
pub open spec fn spec_exec(m: Mnemonic, mode: AddressingMode, v: CpuView) -> CpuView {
    let addr = spec_operand_addr(mode, v);
    match m {
        Mnemonic::ADC => spec_adc(v, addr),
        Mnemonic::AND => spec_and(v, addr),
        Mnemonic::ASL => if mode is NoneAddressing {
            spec_asl_acc(v)
        } else {
            spec_asl_mem(v, addr)
        },
        Mnemonic::BCC => spec_branch(v, v.status & CARRY == 0),
        Mnemonic::BCS => spec_branch(v, v.status & CARRY != 0),
        Mnemonic::BEQ => spec_branch(v, v.status & ZERO != 0),
        Mnemonic::BIT => spec_bit(v, addr),
        Mnemonic::BMI => spec_branch(v, v.status & NEGATIV != 0),
        Mnemonic::BNE => spec_branch(v, v.status & ZERO == 0),
        Mnemonic::BPL => spec_branch(v, v.status & NEGATIV == 0),
        Mnemonic::BRK => v,
        Mnemonic::BVC => spec_branch(v, v.status & OVERFLOW == 0),
        Mnemonic::BVS => spec_branch(v, v.status & OVERFLOW != 0),
        Mnemonic::CLC => spec_clear(v, CARRY),
        Mnemonic::CLD => spec_clear(v, DECIMAL_MODE),
        Mnemonic::CLI => spec_clear(v, INTERRUPT_DISABLE),
        Mnemonic::CLV => spec_clear(v, OVERFLOW),
        Mnemonic::INX => spec_inx(v),
        Mnemonic::LDA => spec_lda(v, addr),
        Mnemonic::STA => spec_sta(v, addr),
        Mnemonic::TAX => spec_tax(v),
    }
}

impl CPU {
    /// The shared zero/negative rule: Zero iff the result byte is zero,
    /// Negative iff its bit 7 is set, every other flag untouched.
    fn update_zero_and_negative_flags(&mut self, result: u8)
        ensures
            final (self)@ == (CpuView { status: update_zn(old(self)@.status, result), ..old(
                self,
            )@ }),
            (final (self)@.status & ZERO != 0) == (result == 0),
            (final (self)@.status & NEGATIV != 0) == (result & 0x80 != 0),
            final (self)@.status & !(ZERO | NEGATIV) == old(self)@.status & !(ZERO | NEGATIV),
    {
        self.status.set_flag(ZERO, result == 0);
        self.status.set_flag(NEGATIV, (result & 0b1000_0000) != 0);
        proof {
            lemma_update_zn(old(self)@.status, result);
        }
    }

    /// Sets Overflow by the two's-complement overflow test on the two
    /// addends and the truncated result; no other flag moves.
    fn update_overflow_flag(&mut self, arg1: u8, arg2: u8, result: u8)
        ensures
            final (self)@ == (CpuView {
                status: set_mask(old(self)@.status, OVERFLOW, overflow_cond(arg1, arg2, result)),
                ..old(self)@
            }),
    {
        let condition = (arg1 ^ result) & (arg2 ^ result) & 0b1000_0000 != 0;
        self.status.set_flag(OVERFLOW, condition);
    }

    /// Adds `arg` and the incoming carry to the accumulator in a widened
    /// sum: Carry reports the sum exceeding 255, Overflow the signed
    /// test, Zero/Negative the result byte; the other four flags keep
    /// their values.
    fn add_to_reg_a(&mut self, arg: u8)
        ensures
            final (self)@ == spec_add_to_a(old(self)@, arg),
            (final (self)@.status & CARRY != 0) == (adc_sum(old(self)@.status, old(self)@.a, arg)
                > 0xFF),
            (final (self)@.status & OVERFLOW != 0) == overflow_cond(
                old(self)@.a,
                arg,
                final (self)@.a,
            ),
            (final (self)@.status & ZERO != 0) == (final (self)@.a == 0),
            (final (self)@.status & NEGATIV != 0) == (final (self)@.a & 0x80 != 0),
            final (self)@.status & !(CARRY | OVERFLOW | ZERO | NEGATIV) == old(self)@.status & !(
            CARRY | OVERFLOW | ZERO | NEGATIV),
    {
        let carry: u16 = if self.status.contains(CARRY) {
            1
        } else {
            0
        };
        let bigres: u16 = (arg as u16) + (self.register_a as u16) + carry;
        self.status.set_flag(CARRY, bigres > 0xff);
        let res = (bigres % 0x100) as u8;
        self.update_overflow_flag(self.register_a, arg, res);
        self.update_zero_and_negative_flags(res);
        self.register_a = res;
        proof {
            lemma_adc_status(old(self)@.status, old(self)@.a, arg);
        }
    }

    /// Add with carry: adds the operand byte and the carry bit to the
    /// accumulator.
    pub(crate) fn adc(&mut self, mode: &AddressingMode)
        requires
            old(self).wf(),
            *mode != AddressingMode::NoneAddressing,
        ensures
            final (self).wf(),
            final (self)@ == spec_adc(old(self)@, spec_operand_addr(*mode, old(self)@)),
    {
        let addr = self.get_operand_address(mode);
        let value = self.mem_read(addr);
        self.add_to_reg_a(value);
    }

    /// Bitwise and of the operand byte into the accumulator, with the
    /// zero/negative rule; no other flag moves.
    pub(crate) fn and(&mut self, mode: &AddressingMode)
        requires
            old(self).wf(),
            *mode != AddressingMode::NoneAddressing,
        ensures
            final (self).wf(),
            final (self)@ == spec_and(old(self)@, spec_operand_addr(*mode, old(self)@)),
            (final (self)@.status & ZERO != 0) == (final (self)@.a == 0),
            (final (self)@.status & NEGATIV != 0) == (final (self)@.a & 0x80 != 0),
            final (self)@.status & !(ZERO | NEGATIV) == old(self)@.status & !(ZERO | NEGATIV),
    {
        let addr = self.get_operand_address(mode);
        let value = self.mem_read(addr);
        self.register_a = value & self.register_a;
        let result = self.register_a;
        self.update_zero_and_negative_flags(result);
    }

    /// Shifts `value` one bit left, puts its old bit 7 into Carry and
    /// applies the zero/negative rule to the shifted byte.
    fn bit_shift_left_and_set_flags(&mut self, value: u8) -> (r: u8)
        ensures
            r == asl_result(value),
            final (self)@ == (CpuView { status: asl_status(old(self)@.status, value), ..old(
                self,
            )@ }),
    {
        self.status.set_flag(CARRY, (value & 0b1000_0000) != 0);
        let res = value << 1u8;
        self.update_zero_and_negative_flags(res);
        res
    }

    /// Arithmetic shift left of the accumulator (no addressing) or of
    /// the operand byte in place: Carry takes the old bit 7, Zero and
    /// Negative follow the shifted byte, the other five flags keep
    /// their values.
    pub(crate) fn asl(&mut self, mode: &AddressingMode)
        requires
            old(self).wf(),
        ensures
            final (self).wf(),
            final (self)@ == (if *mode is NoneAddressing {
                spec_asl_acc(old(self)@)
            } else {
                spec_asl_mem(old(self)@, spec_operand_addr(*mode, old(self)@))
            }),
            final (self)@.status & !(CARRY | ZERO | NEGATIV) == old(self)@.status & !(CARRY | ZERO
                | NEGATIV),
    {
        proof {
            if *mode is NoneAddressing {
                lemma_asl_status(old(self)@.status, old(self)@.a);
            } else {
                lemma_asl_status(
                    old(self)@.status,
                    old(self)@.mem[spec_operand_addr(*mode, old(self)@) as int],
                );
            }
        }
        if *mode == AddressingMode::NoneAddressing {
            self.register_a = self.bit_shift_left_and_set_flags(self.register_a);
        } else {
            let addr = self.get_operand_address(mode);
            let val = self.mem_read(addr);
            let res = self.bit_shift_left_and_set_flags(val);
            self.mem_write(addr, res);
        }
    }

    /// When `predicate` holds, adds one plus the sign-extended offset
    /// byte at the program counter to the program counter, wrapping at
    /// 16 bits; otherwise changes nothing. No flag moves either way.
    fn add_next_val_to_pc_if(&mut self, predicate: bool)
        requires
            old(self).wf(),
        ensures
            final (self).wf(),
            final (self)@ == spec_branch(old(self)@, predicate),
            final (self)@.status == old(self)@.status,
    {
        if predicate {
            let jmp = self.mem_read(self.program_counter);
            let offset: u16 = if jmp < 0x80 {
                jmp as u16
            } else {
                jmp as u16 + 0xFF00
            };
            self.program_counter = self.program_counter.wrapping_add(1).wrapping_add(offset);
        }
    }

    /// Branch if the carry flag is clear.
    pub(crate) fn bcc(&mut self)
        requires
            old(self).wf(),
        ensures
            final (self).wf(),
            final (self)@ == spec_branch(old(self)@, old(self)@.status & CARRY == 0),
            final (self)@.status == old(self)@.status,
    {
        let taken = !self.status.contains(CARRY);
        self.add_next_val_to_pc_if(taken);
    }

    /// Branch if the carry flag is set.
    pub(crate) fn bcs(&mut self)
        requires
            old(self).wf(),
        ensures
            final (self).wf(),
            final (self)@ == spec_branch(old(self)@, old(self)@.status & CARRY != 0),
            final (self)@.status == old(self)@.status,
    {
        let taken = self.status.contains(CARRY);
        self.add_next_val_to_pc_if(taken);
    }

    /// Branch if the zero flag is set.
    pub(crate) fn beq(&mut self)
        requires
            old(self).wf(),
        ensures
            final (self).wf(),
            final (self)@ == spec_branch(old(self)@, old(self)@.status & ZERO != 0),
            final (self)@.status == old(self)@.status,
    {
        let taken = self.status.contains(ZERO);
        self.add_next_val_to_pc_if(taken);
    }

    /// Branch if the negative flag is set.
    pub(crate) fn bmi(&mut self)
        requires
            old(self).wf(),
        ensures
            final (self).wf(),
            final (self)@ == spec_branch(old(self)@, old(self)@.status & NEGATIV != 0),
            final (self)@.status == old(self)@.status,
    {
        let taken = self.status.contains(NEGATIV);
        self.add_next_val_to_pc_if(taken);
    }

    /// Branch if the zero flag is clear.
    pub(crate) fn bne(&mut self)
        requires
            old(self).wf(),
        ensures
            final (self).wf(),
            final (self)@ == spec_branch(old(self)@, old(self)@.status & ZERO == 0),
            final (self)@.status == old(self)@.status,
    {
        let taken = !self.status.contains(ZERO);
        self.add_next_val_to_pc_if(taken);
    }

    /// Branch if the negative flag is clear.
    pub(crate) fn bpl(&mut self)
        requires
            old(self).wf(),
        ensures
            final (self).wf(),
            final (self)@ == spec_branch(old(self)@, old(self)@.status & NEGATIV == 0),
            final (self)@.status == old(self)@.status,
    {
        let taken = !self.status.contains(NEGATIV);
        self.add_next_val_to_pc_if(taken);
    }

    /// Branch if the overflow flag is clear.
    pub(crate) fn bvc(&mut self)
        requires
            old(self).wf(),
        ensures
            final (self).wf(),
            final (self)@ == spec_branch(old(self)@, old(self)@.status & OVERFLOW == 0),
            final (self)@.status == old(self)@.status,
    {
        let taken = !self.status.contains(OVERFLOW);
        self.add_next_val_to_pc_if(taken);
    }

    /// Branch if the overflow flag is set.
    pub(crate) fn bvs(&mut self)
        requires
            old(self).wf(),
        ensures
            final (self).wf(),
            final (self)@ == spec_branch(old(self)@, old(self)@.status & OVERFLOW != 0),
            final (self)@.status == old(self)@.status,
    {
        let taken = self.status.contains(OVERFLOW);
        self.add_next_val_to_pc_if(taken);
    }

    /// Bit test: Zero from the accumulator masked with the operand byte,
    /// Overflow and Negative copied from bits 6 and 7 of that byte. The
    /// accumulator and the other five flags keep their values.
    pub(crate) fn bit(&mut self, mode: &AddressingMode)
        requires
            old(self).wf(),
            *mode != AddressingMode::NoneAddressing,
        ensures
            final (self).wf(),
            final (self)@ == spec_bit(old(self)@, spec_operand_addr(*mode, old(self)@)),
            final (self)@.a == old(self)@.a,
            final (self)@.status & !(ZERO | OVERFLOW | NEGATIV) == old(self)@.status & !(ZERO
                | OVERFLOW | NEGATIV),
    {
        let addr = self.get_operand_address(mode);
        let value = self.mem_read(addr);
        if (self.register_a & value) == 0 {
            self.status.insert(ZERO);
        } else {
            self.status.remove(ZERO);
        }
        self.status.set_flag(OVERFLOW, (value & 0b0100_0000) != 0);
        self.status.set_flag(NEGATIV, (value & 0b1000_0000) != 0);
        proof {
            lemma_bit_status(old(self)@.status, old(self)@.a, value);
        }
    }

    /// Clear the carry flag; no other flag moves.
    pub(crate) fn clc(&mut self)
        ensures
            final (self)@ == spec_clear(old(self)@, CARRY),
            final (self)@.status & CARRY == 0,
            final (self)@.status & !CARRY == old(self)@.status & !CARRY,
    {
        self.status.remove(CARRY);
        proof {
            lemma_clear_mask(old(self)@.status, CARRY);
        }
    }

    /// Clear the decimal-mode flag; no other flag moves.
    pub(crate) fn cld(&mut self)
        ensures
            final (self)@ == spec_clear(old(self)@, DECIMAL_MODE),
            final (self)@.status & DECIMAL_MODE == 0,
            final (self)@.status & !DECIMAL_MODE == old(self)@.status & !DECIMAL_MODE,
    {
        self.status.remove(DECIMAL_MODE);
        proof {
            lemma_clear_mask(old(self)@.status, DECIMAL_MODE);
        }
    }

    /// Clear the interrupt-disable flag; no other flag moves.
    pub(crate) fn cli(&mut self)
        ensures
            final (self)@ == spec_clear(old(self)@, INTERRUPT_DISABLE),
            final (self)@.status & INTERRUPT_DISABLE == 0,
            final (self)@.status & !INTERRUPT_DISABLE == old(self)@.status & !INTERRUPT_DISABLE,
    {
        self.status.remove(INTERRUPT_DISABLE);
        proof {
            lemma_clear_mask(old(self)@.status, INTERRUPT_DISABLE);
        }
    }

    /// Clear the overflow flag; no other flag moves.
    pub(crate) fn clv(&mut self)
        ensures
            final (self)@ == spec_clear(old(self)@, OVERFLOW),
            final (self)@.status & OVERFLOW == 0,
            final (self)@.status & !OVERFLOW == old(self)@.status & !OVERFLOW,
    {
        self.status.remove(OVERFLOW);
        proof {
            lemma_clear_mask(old(self)@.status, OVERFLOW);
        }
    }

    /// Loads the operand byte into the accumulator, with the
    /// zero/negative rule; no other flag moves.
    pub(crate) fn lda(&mut self, mode: &AddressingMode)
        requires
            old(self).wf(),
            *mode != AddressingMode::NoneAddressing,
        ensures
            final (self).wf(),
            final (self)@ == spec_lda(old(self)@, spec_operand_addr(*mode, old(self)@)),
            (final (self)@.status & ZERO != 0) == (final (self)@.a == 0),
            (final (self)@.status & NEGATIV != 0) == (final (self)@.a & 0x80 != 0),
            final (self)@.status & !(ZERO | NEGATIV) == old(self)@.status & !(ZERO | NEGATIV),
    {
        let addr = self.get_operand_address(mode);
        let value = self.mem_read(addr);
        self.register_a = value;
        self.update_zero_and_negative_flags(value);
    }

    /// Stores the accumulator at the operand address; no register and no
    /// flag moves.
    pub(crate) fn sta(&mut self, mode: &AddressingMode)
        requires
            old(self).wf(),
            *mode != AddressingMode::NoneAddressing,
        ensures
            final (self).wf(),
            final (self)@ == spec_sta(old(self)@, spec_operand_addr(*mode, old(self)@)),
            final (self)@.status == old(self)@.status,
    {
        let addr = self.get_operand_address(mode);
        self.mem_write(addr, self.register_a);
    }

    /// Copies the accumulator into the X register, with the
    /// zero/negative rule; no other flag moves.
    pub(crate) fn tax(&mut self)
        ensures
            final (self)@ == spec_tax(old(self)@),
            (final (self)@.status & ZERO != 0) == (final (self)@.x == 0),
            (final (self)@.status & NEGATIV != 0) == (final (self)@.x & 0x80 != 0),
            final (self)@.status & !(ZERO | NEGATIV) == old(self)@.status & !(ZERO | NEGATIV),
    {
        self.register_x = self.register_a;
        let result = self.register_x;
        self.update_zero_and_negative_flags(result);
    }

    /// Adds one to the X register with 8-bit wraparound, with the
    /// zero/negative rule; no other flag moves.
    pub(crate) fn inx(&mut self)
        ensures
            final (self)@ == spec_inx(old(self)@),
            (final (self)@.status & ZERO != 0) == (final (self)@.x == 0),
            (final (self)@.status & NEGATIV != 0) == (final (self)@.x & 0x80 != 0),
            final (self)@.status & !(ZERO | NEGATIV) == old(self)@.status & !(ZERO | NEGATIV),
    {
        self.register_x = self.register_x.wrapping_add(1);
        let result = self.register_x;
        self.update_zero_and_negative_flags(result);
    }
}

} // verus!
