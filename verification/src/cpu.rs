//! The processor context: three 8-bit registers, the packed status
//! register, the 16-bit program counter, and the flat 64 KiB memory —
//! together with the fetch-decode-execute engine that drives it.

use vstd::prelude::*;

use crate::instructions::spec_exec;
use crate::memory::{spec_read16, spec_write16, Mem};
use crate::opcodes::{lookup, spec_lookup, Mnemonic};
use crate::status::{CPUFlags, POWER_ON_STATUS};

verus! {

/// The number of addressable memory cells: one for every 16-bit address.
pub const MEMORY_SIZE: usize = 0x10000;

/// The first address of the region that `load` fills with program bytes.
pub const ROM_START: u16 = 0x8000;

/// The address of the low byte of the little-endian reset vector.
pub const RESET_VECTOR: u16 = 0xFFFC;

/// The most instructions one call of `run` executes before it pauses.
/// Every loop here must provably terminate, so the engine runs on this
/// budget; at one instruction a nanosecond it lasts centuries, and a
/// paused engine picks up exactly where it stood when `run` is called
/// again.
pub const STEP_LIMIT: u64 = 0xFFFF_FFFF_FFFF_FFFF;

/// The mathematical value of a whole processor: every register, the raw
/// status byte, the program counter, and the memory as a sequence of
/// bytes indexed by address.
#[verifier::ext_equal]
pub ghost struct CpuView {
    pub a: u8,
    pub x: u8,
    pub y: u8,
    pub status: u8,
    pub pc: u16,
    pub mem: Seq<u8>,
}

impl CpuView {
    /// Well-formedness: the memory backs the full 16-bit address space.
    pub open spec fn wf(self) -> bool {
        self.mem.len() == MEMORY_SIZE
    }
}

/// The fatal conditions of the emulator: no error is recovered
/// internally.
#[derive(Clone, Copy, Debug, PartialEq, Eq, Structural)]
pub enum EmuError {
    /// The program handed to `load` is longer than the ROM region.
    ProgramTooLarge,
    /// Not a machine fault: the engine paused, still running, after
    /// `STEP_LIMIT` instructions; calling `run` again continues exactly
    /// where it stood.
    StepLimitReached,
    /// The engine fetched the byte `code` at address `addr` and the
    /// opcode table has no entry for it.
    UnrecognizedOpcode { code: u8, addr: u16 },
}

/// Where the engine stands after some number of instructions: still
/// running, halted by a break instruction, or aborted on an unrecognized
/// opcode byte at an address.
#[verifier::ext_equal]
pub ghost enum Outcome {
    Running(CpuView),
    Halted(CpuView),
    Failed(CpuView, u8, u16),
}

/// One fetch-decode-execute step from processor value `v`: fetch the
/// opcode byte at the program counter, advance the counter past it, look
/// the byte up; an unknown byte aborts, a break halts, and any other
/// instruction runs its handler and then, if the handler left the
/// counter alone, skips the operand bytes.
pub open spec fn spec_step(v: CpuView) -> Outcome {
    let code = v.mem[v.pc as int];
    let fetched = CpuView { pc: v.pc.wrapping_add(1), ..v };
    match spec_lookup(code) {
        None => Outcome::Failed(fetched, code, v.pc),
        Some(op) => {
            if op.assembly is BRK {
                Outcome::Halted(fetched)
            } else {
                let executed = spec_exec(op.assembly, op.mode, fetched);
                if executed.pc == fetched.pc {
                    Outcome::Running(
                        CpuView { pc: executed.pc.wrapping_add((op.len - 1) as u16), ..executed },
                    )
                } else {
                    Outcome::Running(executed)
                }
            }
        },
    }
}

/// The engine after `n` steps from `v`: stepping stops as soon as a halt
/// or a failure is reached.
pub open spec fn run_n(v: CpuView, n: nat) -> Outcome
    decreases n,
{
    if n == 0 {
        Outcome::Running(v)
    } else {
        match run_n(v, (n - 1) as nat) {
            Outcome::Running(w) => spec_step(w),
            done => done,
        }
    }
}

/// `v` after `reset`: accumulator, X register and flags return to their
/// power-on values, the Y register and memory stay, and the program
/// counter is loaded from the little-endian reset vector.
pub open spec fn spec_reset(v: CpuView) -> CpuView {
    CpuView {
        a: 0,
        x: 0,
        status: POWER_ON_STATUS,
        pc: spec_read16(v.mem, RESET_VECTOR),
        ..v
    }
}

/// `mem` with the bytes of `p` laid over the ROM region, byte `i` of the
/// program at address `ROM_START + i`.
pub open spec fn spec_load_mem(mem: Seq<u8>, p: Seq<u8>) -> Seq<u8> {
    Seq::new(
        mem.len(),
        |i: int|
            if ROM_START <= i < ROM_START + p.len() {
                p[i - ROM_START]
            } else {
                mem[i]
            },
    )
}

/// `v` after `load`: the program bytes fill the ROM region and the reset
/// vector points at its start; nothing else moves.
pub open spec fn spec_load(v: CpuView, p: Seq<u8>) -> CpuView {
    CpuView { mem: spec_write16(spec_load_mem(v.mem, p), RESET_VECTOR, ROM_START), ..v }
}

/// The reset signal is idempotent: resetting twice leaves the processor
/// exactly as one reset does, since memory — and with it the reset
/// vector — is untouched.
pub proof fn lemma_reset_idempotent(v: CpuView)
    ensures
        spec_reset(spec_reset(v)) == spec_reset(v),
{
}

/// Both registers, the status byte and the program counter agree between
/// the two processor values; only memory may differ.
pub open spec fn regs_unchanged(pre: CpuView, post: CpuView) -> bool {
    &&& post.a == pre.a
    &&& post.x == pre.x
    &&& post.y == pre.y
    &&& post.status == pre.status
    &&& post.pc == pre.pc
}

/// The CPU context. The fields are public so that a host or a test
/// harness can inspect them; during execution, memory is reached through
/// the `Mem` methods, which keep it well-formed.
pub struct CPU {
    pub register_a: u8,
    pub register_x: u8,
    pub register_y: u8,
    pub status: CPUFlags,
    pub program_counter: u16,
    pub memory: Vec<u8>,
}

impl View for CPU {
    type V = CpuView;

    open spec fn view(&self) -> CpuView {
        CpuView {
            a: self.register_a,
            x: self.register_x,
            y: self.register_y,
            status: self.status.bits,
            pc: self.program_counter,
            mem: self.memory@,
        }
    }
}

impl Default for CPU {
    /// The same powered-on processor that `new` constructs.
    fn default() -> (cpu: CPU)
        ensures
            cpu.wf(),
            cpu@.a == 0,
            cpu@.x == 0,
            cpu@.y == 0,
            cpu@.status == POWER_ON_STATUS,
            cpu@.pc == 0,
            forall|i: int| 0 <= i < MEMORY_SIZE ==> cpu@.mem[i] == 0,
    {
        CPU::new()
    }
}

impl CPU {
    /// Well-formedness of the whole context.
    pub open spec fn wf(&self) -> bool {
        self@.wf()
    }

    /// Constructs a powered-on processor: all registers and the program
    /// counter zero, the fixed power-on flag pattern, and memory cleared.
    pub fn new() -> (cpu: CPU)
        ensures
            cpu.wf(),
            cpu@.a == 0,
            cpu@.x == 0,
            cpu@.y == 0,
            cpu@.status == POWER_ON_STATUS,
            cpu@.pc == 0,
            forall|i: int| 0 <= i < MEMORY_SIZE ==> cpu@.mem[i] == 0,
    {
        let mut memory: Vec<u8> = Vec::new();
        while memory.len() < MEMORY_SIZE
            invariant
                memory.len() <= MEMORY_SIZE,
                forall|i: int| 0 <= i < memory.len() ==> memory[i] == 0,
            decreases MEMORY_SIZE - memory.len(),
        {
            memory.push(0);
        }
        CPU {
            register_a: 0,
            register_x: 0,
            register_y: 0,
            status: CPUFlags::from_bits_truncate(POWER_ON_STATUS),
            program_counter: 0,
            memory,
        }
    }

    /// The reset signal: accumulator, X register and flags return to
    /// their power-on values and the program counter is loaded from the
    /// reset vector. Idempotent, and callable at any time.
    pub fn reset(&mut self)
        requires
            old(self).wf(),
        ensures
            final (self).wf(),
            final (self)@ == spec_reset(old(self)@),
    {
        self.register_a = 0;
        self.register_x = 0;
        self.status = CPUFlags::from_bits_truncate(POWER_ON_STATUS);
        self.program_counter = self.mem_read_u16(RESET_VECTOR);
    }

    /// Installs a program in the ROM region, byte `i` at address
    /// `ROM_START + i`, and points the reset vector at `ROM_START`. A
    /// program longer than the region is rejected before anything is
    /// written.
    pub fn load(&mut self, program: Vec<u8>) -> (r: Result<(), EmuError>)
        requires
            old(self).wf(),
        ensures
            final (self).wf(),
            program@.len() <= 0x8000 ==> (r matches Ok(()) && final (self)@ == spec_load(
                old(self)@,
                program@,
            )),
            program@.len() > 0x8000 ==> (r matches Err(EmuError::ProgramTooLarge)
                && final (self)@ == old(self)@),
    {
        if program.len() > 0x8000 {
            return Err(EmuError::ProgramTooLarge);
        }
        let ghost init = self@;
        let mut i: usize = 0;
        while i < program.len()
            invariant
                self.wf(),
                init.wf(),
                i <= program@.len() <= 0x8000,
                regs_unchanged(init, self@),
                self@.mem == spec_load_mem(init.mem, program@.take(i as int)),
            decreases program@.len() - i,
        {
            self.mem_write(ROM_START + i as u16, program[i]);
            proof {
                assert(self@.mem =~= spec_load_mem(init.mem, program@.take(i + 1)));
            }
            i = i + 1;
        }
        proof {
            assert(program@.take(program@.len() as int) =~= program@);
        }
        self.mem_write_u16(RESET_VECTOR, ROM_START);
        Ok(())
    }

    /// Runs the fetch-decode-execute loop until a break instruction
    /// halts it, an unrecognized opcode aborts it, or the step budget
    /// pauses it. On return the final processor value is exactly what
    /// stepping the small-step semantics from the entry value some
    /// number of times yields — halted for `Ok`, aborted with the
    /// offending byte and its address on an unrecognized opcode, and on
    /// the pause exactly the state that `STEP_LIMIT` steps reach, still
    /// running. Halted and failed outcomes absorb, so the pause arm also
    /// owes the halt of every program that halts within the budget and
    /// the abort of every stream that goes bad within it.
    pub fn run(&mut self) -> (r: Result<(), EmuError>)
        requires
            old(self).wf(),
        ensures
            final (self).wf(),
            r matches Ok(()) ==> exists|n: nat|
                run_n(old(self)@, n) == Outcome::Halted(final (self)@),
            r matches Err(e) ==> (match e {
                EmuError::UnrecognizedOpcode { code, addr } => exists|n: nat|
                    run_n(old(self)@, n) == Outcome::Failed(final (self)@, code, addr),
                EmuError::StepLimitReached => run_n(old(self)@, STEP_LIMIT as nat)
                    == Outcome::Running(final (self)@),
                EmuError::ProgramTooLarge => false,
            }),
    {
        let ghost init = self@;
        proof {
            assert(run_n(init, 0) == Outcome::Running(init));
        }
        let mut fuel: u64 = STEP_LIMIT;
        while fuel > 0
            invariant
                self.wf(),
                init == old(self)@,
                fuel <= STEP_LIMIT,
                run_n(init, (STEP_LIMIT - fuel) as nat) == Outcome::Running(self@),
            decreases fuel,
        {
            let ghost w0 = self@;
            let ghost n0 = (STEP_LIMIT - fuel) as nat;
            fuel = fuel - 1;
            let code = self.mem_read(self.program_counter);
            let pc_fetch = self.program_counter;
            self.program_counter = self.program_counter.wrapping_add(1);
            let program_counter_state = self.program_counter;
            let ghost fetched = self@;
            match lookup(code) {
                None => {
                    proof {
                        assert(spec_step(w0) == Outcome::Failed(fetched, code, pc_fetch));
                        assert(run_n(init, n0 + 1) == Outcome::Failed(self@, code, pc_fetch));
                    }
                    return Err(EmuError::UnrecognizedOpcode { code, addr: pc_fetch });
                },
                Some(op) => {
                    match op.assembly {
                        Mnemonic::BRK => {
                            proof {
                                assert(spec_step(w0) == Outcome::Halted(fetched));
                                assert(run_n(init, n0 + 1) == Outcome::Halted(self@));
                            }
                            return Ok(());
                        },
                        Mnemonic::ADC => self.adc(&op.mode),
                        Mnemonic::AND => self.and(&op.mode),
                        Mnemonic::ASL => self.asl(&op.mode),
                        Mnemonic::BCC => self.bcc(),
                        Mnemonic::BCS => self.bcs(),
                        Mnemonic::BEQ => self.beq(),
                        Mnemonic::BMI => self.bmi(),
                        Mnemonic::BNE => self.bne(),
                        Mnemonic::BPL => self.bpl(),
                        Mnemonic::BVC => self.bvc(),
                        Mnemonic::BVS => self.bvs(),
                        Mnemonic::BIT => self.bit(&op.mode),
                        Mnemonic::CLC => self.clc(),
                        Mnemonic::CLD => self.cld(),
                        Mnemonic::CLI => self.cli(),
                        Mnemonic::CLV => self.clv(),
                        Mnemonic::LDA => self.lda(&op.mode),
                        Mnemonic::STA => self.sta(&op.mode),
                        Mnemonic::TAX => self.tax(),
                        Mnemonic::INX => self.inx(),
                    }
                    proof {
                        assert(self@ == spec_exec(op.assembly, op.mode, fetched));
                    }
                    if program_counter_state == self.program_counter {
                        self.program_counter = self.program_counter.wrapping_add(
                            (op.len - 1) as u16,
                        );
                    }
                    proof {
                        assert(spec_step(w0) == Outcome::Running(self@));
                        assert(run_n(init, n0 + 1) == Outcome::Running(self@));
                    }
                },
            }
        }
        Err(EmuError::StepLimitReached)
    }

    /// Installs `program`, resets, and runs until a break halts it, an
    /// unrecognized opcode aborts it, or the step budget pauses it: the
    /// composition of `load`, `reset` and `run`.
    pub fn load_and_run(&mut self, program: Vec<u8>) -> (r: Result<(), EmuError>)
        requires
            old(self).wf(),
        ensures
            final (self).wf(),
            program@.len() > 0x8000 ==> (r matches Err(EmuError::ProgramTooLarge)
                && final (self)@ == old(self)@),
            program@.len() <= 0x8000 ==> ({
                let started = spec_reset(spec_load(old(self)@, program@));
                &&& (r matches Ok(()) ==> exists|n: nat|
                    run_n(started, n) == Outcome::Halted(final (self)@))
                &&& (r matches Err(e) ==> (match e {
                    EmuError::UnrecognizedOpcode { code, addr } => exists|n: nat|
                        run_n(started, n) == Outcome::Failed(final (self)@, code, addr),
                    EmuError::StepLimitReached => run_n(started, STEP_LIMIT as nat)
                        == Outcome::Running(final (self)@),
                    EmuError::ProgramTooLarge => false,
                }))
            }),
    {
        match self.load(program) {
            Ok(()) => {},
            Err(e) => {
                return Err(e);
            },
        }
        self.reset();
        self.run()
    }
}

} // verus!
