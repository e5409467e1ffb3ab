//! The fetch-decode-execute engine.  A `Computer` owns the register file,
//! the condition flags, the program counter, the memory, one IO value and
//! one Observer value, and drives the step loop: fetch the word at PC,
//! decode, execute, advance PC, until the IO reports halted or the
//! instruction budget runs out.
//!
//! The effect of every instruction on the core state (registers, memory,
//! PC, flags) is given by the specification function `step_core`, with the
//! engine's trailing PC increment applied on top; TRAP effects depend on the
//! IO value and are stated by `trap_core_effect`.

use vstd::prelude::*;
use crate::error::Error;
use crate::io::IO;
use crate::isa::{
    cond_intersects, sext5_spec, sext6_spec, sext8_spec, sext9_spec, sext11_spec, AddInstruction,
    AndInstruction, Condition, Immediate4, Instruction, PCOffset11, PCOffset6, PCOffset9,
    Register, XorInstruction, Bit,
};
use crate::memory::{load_words_spec, Memory};
use crate::observer::Observer;
use crate::USER_PROGRAM_START;

verus! {

/// The machine state an instruction acts on: registers, memory, program
/// counter and condition flags.  IO and Observer stand outside it.
#[verifier::ext_equal]
pub ghost struct CoreState {
    pub regs: Seq<u16>,
    pub mem: Seq<u16>,
    pub pc: u16,
    pub cond: Condition,
}

/// 16-bit wraparound increment.
pub open spec fn wrap_inc(x: u16) -> u16 {
    if x + 1 > 0xFFFF {
        0u16
    } else {
        (x + 1) as u16
    }
}

/// 16-bit wraparound decrement.
pub open spec fn wrap_dec(x: u16) -> u16 {
    if x == 0 {
        0xFFFFu16
    } else {
        (x - 1) as u16
    }
}

/// 16-bit wraparound addition.
pub open spec fn wrap_add16(a: u16, b: u16) -> u16 {
    if a + b > 0xFFFF {
        (a + b - 0x10000) as u16
    } else {
        (a + b) as u16
    }
}

/// The condition flags computed from the signed interpretation of a result:
/// negative, zero or positive, exactly one of them.
pub open spec fn flags_for(v: u16) -> Condition {
    Condition { n: v >= 0x8000, z: v == 0, p: 0 < v < 0x8000 }
}

/// The flag law: the flags computed from any 16-bit result are exactly
/// (n: signed < 0, z: result == 0, p: signed > 0), and exactly one of the
/// three is true.
pub proof fn lemma_flag_law(v: u16)
    ensures
        flags_for(v).n <==> (v as i16) < 0,
        flags_for(v).z <==> v == 0,
        flags_for(v).p <==> (v as i16) > 0,
        (flags_for(v).n && !flags_for(v).z && !flags_for(v).p) || (!flags_for(v).n && flags_for(
            v,
        ).z && !flags_for(v).p) || (!flags_for(v).n && !flags_for(v).z && flags_for(v).p),
{
    assert(((v as i16) < 0 <==> v >= 0x8000) && ((v as i16) == 0 <==> v == 0) && ((v as i16) > 0
        <==> (0 < v && v < 0x8000))) by (bit_vector);
}

/// The byte LDB reads: the word at the halved address, low half for an even
/// byte address, high half for an odd one, sign-extended to 16 bits.
pub open spec fn ldb_spec(mem: Seq<u16>, byte_addr: u16) -> u16 {
    let w = mem[(byte_addr >> 1) as int];
    let b = if byte_addr & 1 == 0 {
        w & 0xFF
    } else {
        (w >> 8) & 0xFF
    };
    sext8_spec(b)
}

/// The word STB writes back: the low byte of the source merged into the
/// selected half, the other half untouched.
pub open spec fn stb_spec(w: u16, byte_addr: u16, v: u16) -> u16 {
    if byte_addr & 1 == 0 {
        (w & 0xFF00) | (v & 0xFF)
    } else {
        (w & 0x00FF) | ((v & 0xFF) << 8)
    }
}

/// The SHF result: left shift zero-fills, right shift zero-fills or
/// sign-fills depending on the arithmetic bit.
pub open spec fn shf_spec(v: u16, dir: bool, arith: bool, k: u16) -> u16 {
    if !dir {
        v << k
    } else if !arith {
        v >> k
    } else {
        ((v as i16) >> k) as u16
    }
}

/// The effect of executing one decoded instruction on the core state,
/// before the engine's trailing PC increment.  Branch and jump targets are
/// therefore stored decremented, so that the trailing increment lands on
/// the target; this mirrors the step algorithm exactly.  TRAP and RTI are
/// not core-state transforms (one involves IO, the other faults) and are
/// left as the identity here; the engine states their effect separately.
pub open spec fn step_core(s: CoreState, i: Instruction) -> CoreState
    recommends
        s.regs.len() == 8,
{
    match i {
        Instruction::AddInstruction(AddInstruction::AddReg(dr, sr1, sr2)) => {
            let v = wrap_add16(s.regs[sr1.index_spec() as int], s.regs[sr2.index_spec() as int]);
            CoreState { regs: s.regs.update(dr.index_spec() as int, v), cond: flags_for(v), ..s }
        },
        Instruction::AddInstruction(AddInstruction::AddImm(dr, sr1, imm5)) => {
            let v = wrap_add16(s.regs[sr1.index_spec() as int], sext5_spec(imm5.spec_value() as u16));
            CoreState { regs: s.regs.update(dr.index_spec() as int, v), cond: flags_for(v), ..s }
        },
        Instruction::AndInstruction(AndInstruction::AndReg(dr, sr1, sr2)) => {
            let v = s.regs[sr1.index_spec() as int] & s.regs[sr2.index_spec() as int];
            CoreState { regs: s.regs.update(dr.index_spec() as int, v), cond: flags_for(v), ..s }
        },
        Instruction::AndInstruction(AndInstruction::AndImm(dr, sr1, imm5)) => {
            let v = s.regs[sr1.index_spec() as int] & sext5_spec(imm5.spec_value() as u16);
            CoreState { regs: s.regs.update(dr.index_spec() as int, v), cond: flags_for(v), ..s }
        },
        Instruction::XorInstruction(XorInstruction::XorReg(dr, sr1, sr2)) => {
            let v = s.regs[sr1.index_spec() as int] ^ s.regs[sr2.index_spec() as int];
            CoreState { regs: s.regs.update(dr.index_spec() as int, v), cond: flags_for(v), ..s }
        },
        Instruction::XorInstruction(XorInstruction::XorImm(dr, sr1, imm5)) => {
            let v = s.regs[sr1.index_spec() as int] ^ sext5_spec(imm5.spec_value() as u16);
            CoreState { regs: s.regs.update(dr.index_spec() as int, v), cond: flags_for(v), ..s }
        },
        Instruction::Br(cond, offset) => {
            if cond_intersects(cond, s.cond) {
                CoreState { pc: wrap_add16(s.pc, sext9_spec(offset.spec_value())), ..s }
            } else {
                s
            }
        },
        Instruction::Jmp(base) => {
            CoreState { pc: wrap_dec(s.regs[base.index_spec() as int]), ..s }
        },
        Instruction::Jsr(offset) => {
            CoreState {
                regs: s.regs.update(7, wrap_inc(s.pc)),
                pc: wrap_add16(s.pc, sext11_spec(offset.spec_value()) << 1),
                ..s
            }
        },
        Instruction::Jsrr(base) => {
            let t = s.regs[base.index_spec() as int];
            CoreState { regs: s.regs.update(7, wrap_inc(s.pc)), pc: wrap_dec(t), ..s }
        },
        Instruction::Ldb(dr, base, offset) => {
            let ba = wrap_add16(s.regs[base.index_spec() as int], sext6_spec(offset.spec_value() as u16));
            let v = ldb_spec(s.mem, ba);
            CoreState { regs: s.regs.update(dr.index_spec() as int, v), cond: flags_for(v), ..s }
        },
        Instruction::Ldi(dr, base, offset) => {
            let addr = wrap_add16(
                s.regs[base.index_spec() as int],
                sext6_spec(offset.spec_value() as u16) << 1,
            );
            let v = s.mem[s.mem[addr as int] as int];
            CoreState { regs: s.regs.update(dr.index_spec() as int, v), cond: flags_for(v), ..s }
        },
        Instruction::Ldr(dr, base, offset) => {
            let addr = wrap_add16(
                s.regs[base.index_spec() as int],
                sext6_spec(offset.spec_value() as u16) << 1,
            );
            let v = s.mem[addr as int];
            CoreState { regs: s.regs.update(dr.index_spec() as int, v), cond: flags_for(v), ..s }
        },
        Instruction::Lea(dr, offset) => {
            let v = wrap_add16(wrap_inc(s.pc), sext9_spec(offset.spec_value()) << 1);
            CoreState { regs: s.regs.update(dr.index_spec() as int, v), cond: flags_for(v), ..s }
        },
        Instruction::Ret => {
            CoreState { pc: wrap_dec(s.regs[7]), ..s }
        },
        Instruction::Shf(dr, sr, d, a, amount) => {
            let v = shf_spec(s.regs[sr.index_spec() as int], d.spec_value(), a.spec_value(), amount.spec_value() as u16);
            CoreState { regs: s.regs.update(dr.index_spec() as int, v), cond: flags_for(v), ..s }
        },
        Instruction::Stb(sr, base, offset) => {
            let ba = wrap_add16(s.regs[base.index_spec() as int], sext6_spec(offset.spec_value() as u16));
            let wa = ba >> 1;
            CoreState {
                mem: s.mem.update(
                    wa as int,
                    stb_spec(s.mem[wa as int], ba, s.regs[sr.index_spec() as int]),
                ),
                ..s
            }
        },
        Instruction::Sti(sr, base, offset) => {
            let addr = wrap_add16(
                s.regs[base.index_spec() as int],
                sext6_spec(offset.spec_value() as u16) << 1,
            );
            let t = s.mem[addr as int];
            CoreState { mem: s.mem.update(t as int, s.regs[sr.index_spec() as int]), ..s }
        },
        Instruction::Stw(sr, base, offset) => {
            let addr = wrap_add16(
                s.regs[base.index_spec() as int],
                sext6_spec(offset.spec_value() as u16) << 1,
            );
            CoreState { mem: s.mem.update(addr as int, s.regs[sr.index_spec() as int]), ..s }
        },
        Instruction::Trap(_) => s,
        Instruction::Rti => s,
    }
}

/// The core state after a full engine step of a non-TRAP, non-RTI
/// instruction: the instruction's effect, then the trailing PC increment.
pub open spec fn full_step(s: CoreState, i: Instruction) -> CoreState {
    let s2 = step_core(s, i);
    CoreState { pc: wrap_inc(s2.pc), ..s2 }
}

/// The characters PUTS writes: the low byte of successive words from
/// `addr`, stopping at the first zero word.  `budget` bounds the sweep at
/// one pass over the address space.
pub open spec fn puts_chars(mem: Seq<u16>, addr: u16, budget: nat) -> Seq<char>
    decreases budget,
{
    if budget == 0 {
        Seq::empty()
    } else {
        let w = mem[addr as int];
        if w == 0 {
            Seq::empty()
        } else {
            seq![((w & 0xFF) as u8) as char] + puts_chars(mem, wrap_inc(addr), (budget - 1) as nat)
        }
    }
}

/// The characters PUTSP writes: the low byte then the high byte of
/// successive words from `addr`, stopping at the first zero word or the
/// first zero byte in either position; the zero itself is not written.
pub open spec fn putsp_chars(mem: Seq<u16>, addr: u16, budget: nat) -> Seq<char>
    decreases budget,
{
    if budget == 0 {
        Seq::empty()
    } else {
        let w = mem[addr as int];
        if w == 0 || w & 0xFF == 0 {
            Seq::empty()
        } else if (w >> 8) & 0xFF == 0 {
            seq![((w & 0xFF) as u8) as char]
        } else {
            seq![((w & 0xFF) as u8) as char, (((w >> 8) & 0xFF) as u8) as char] + putsp_chars(
                mem,
                wrap_inc(addr),
                (budget - 1) as nat,
            )
        }
    }
}

/// What a TRAP does to the core state and to the IO.  Memory and flags are
/// never touched.  GETC and IN move the front of the input into R0 when
/// input is available and leave R0 alone otherwise; OUT writes the low byte
/// of R0; PUTS and PUTSP write their character sequences; HALT sets the
/// latch; unmapped vectors change nothing at all.  Only IN's output is left
/// open, since the prompt and echo are the IO value's own.
pub open spec fn trap_effect<I: IO>(
    s: CoreState,
    io0: I,
    s2: CoreState,
    io1: I,
    vector: u8,
) -> bool {
    &&& s2.mem == s.mem
    &&& s2.cond == s.cond
    &&& s2.regs.len() == s.regs.len()
    &&& if vector == 0x20 || vector == 0x23 {
        &&& (io0.spec_input().len() == 0 ==> s2.regs == s.regs && io1.spec_input() == io0.spec_input())
        &&& (io0.spec_input().len() > 0 ==> s2.regs == s.regs.update(
            0,
            io0.spec_input()[0] as u16,
        ) && io1.spec_input() == io0.spec_input().drop_first())
        &&& (vector == 0x20 ==> io1.spec_output() == io0.spec_output())
        &&& io1.spec_halted() == io0.spec_halted()
    } else {
        &&& s2.regs == s.regs
        &&& if vector == 0x21 {
            &&& io1.spec_output() == io0.spec_output().push(((s.regs[0] & 0xFF) as u8) as char)
            &&& io1.spec_input() == io0.spec_input()
            &&& io1.spec_halted() == io0.spec_halted()
        } else if vector == 0x22 {
            &&& io1.spec_output() == io0.spec_output() + puts_chars(s.mem, s.regs[0], 65536)
            &&& io1.spec_input() == io0.spec_input()
            &&& io1.spec_halted() == io0.spec_halted()
        } else if vector == 0x24 {
            &&& io1.spec_output() == io0.spec_output() + putsp_chars(s.mem, s.regs[0], 65536)
            &&& io1.spec_input() == io0.spec_input()
            &&& io1.spec_halted() == io0.spec_halted()
        } else if vector == 0x25 {
            &&& io1.spec_halted()
            &&& io1.spec_output() == io0.spec_output()
            &&& io1.spec_input() == io0.spec_input()
        } else {
            io1 == io0
        }
    }
}

/// The effect of one successful engine step on a machine that is not
/// halted: exactly what `next_instruction` promises when the fetched word
/// is not RTI.
#[verifier::opaque]
pub open spec fn step_ok_effect<I: IO>(s: CoreState, io0: I, s2: CoreState, io1: I) -> bool {
    let inst = Instruction::decode_spec(s.mem[s.pc as int]);
    &&& inst != Instruction::Rti
    &&& match inst {
        Instruction::Trap(v) => trap_effect(s, io0, s2, io1, v.spec_value()) && s2.pc == wrap_inc(s.pc),
        _ => s2 == full_step(s, inst) && io1 == io0,
    }
}

/// A run trace: at every position but the last, the machine is not halted
/// and one successful step leads to the next position.
#[verifier::opaque]
pub open spec fn trace_ok<I: IO>(trace: Seq<(CoreState, I)>) -> bool {
    forall|k: int|
        0 <= k < trace.len() - 1 ==> !(#[trigger] trace[k]).1.spec_halted() && step_ok_effect(
            trace[k].0,
            trace[k].1,
            trace[k + 1].0,
            trace[k + 1].1,
        )
}

/// `n` successful engine steps in sequence, each taken while the IO was
/// not halted: some trace of n + 1 machine states links the two ends.
/// This is what a successful `run` performs.
pub open spec fn steps_effect<I: IO>(s0: CoreState, io0: I, n: nat, s1: CoreState, io1: I) -> bool {
    exists|trace: Seq<(CoreState, I)>|
        #[trigger] trace_ok(trace) && trace.len() == n + 1 && trace[0] == (s0, io0) && trace[
            n as int
        ] == (s1, io1)
}

/// The empty chain: zero steps lead from a state to itself.
#[verifier::rlimit(100)]
pub proof fn lemma_steps_effect_zero<I: IO>(s0: CoreState, io0: I)
    ensures
        steps_effect(s0, io0, 0, s0, io0),
{
    let tr: Seq<(CoreState, I)> = seq![(s0, io0)];
    assert(trace_ok(tr)) by {
        reveal(trace_ok);
    }
    assert(tr.len() == 1 && tr[0] == (s0, io0));
}

/// A chain of steps grows by one at the end.
pub proof fn lemma_steps_effect_extend<I: IO>(
    s0: CoreState,
    io0: I,
    n: nat,
    sm: CoreState,
    iom: I,
    s1: CoreState,
    io1: I,
)
    requires
        steps_effect(s0, io0, n, sm, iom),
        !iom.spec_halted(),
        step_ok_effect(sm, iom, s1, io1),
    ensures
        steps_effect(s0, io0, n + 1, s1, io1),
{
    let tr = choose|trace: Seq<(CoreState, I)>|
        #[trigger] trace_ok(trace) && trace.len() == n + 1 && trace[0] == (s0, io0) && trace[
            n as int
        ] == (sm, iom);
    let tr2 = tr.push((s1, io1));
    assert(trace_ok(tr2)) by {
        reveal(trace_ok);
        assert(forall|k: int| 0 <= k < tr2.len() - 1 ==> tr2[k] == if k < tr.len() {
            tr[k]
        } else {
            (s1, io1)
        });
        assert(tr2[n as int] == (sm, iom));
    }
    assert(tr2.len() == n + 2 && tr2[0] == (s0, io0) && tr2[n as int + 1] == (s1, io1));
}

/// The machine: register file, condition flags, PC, memory, one IO value
/// and one Observer value.  Multiple independent machines can coexist; all
/// state is owned here.
pub struct Computer<I: IO, O: Observer> {
    program_counter: u16,
    condition: Condition,
    registers: [u16; 8],
    memory: Memory,
    io: I,
    observer: O,
}

impl<I: IO> Computer<I, ()> {
    /// A computer with I/O but no observer.
    pub fn new(io: I) -> (r: Computer<I, ()>)
        ensures
            r.core_state().pc == USER_PROGRAM_START,
            r.core_state().cond == (Condition { n: false, z: false, p: false }),
            r.core_state().regs =~= Seq::new(8, |i: int| 0u16),
            r.core_state().mem.len() == 65536,
            forall|i: int| 0 <= i < 65536 ==> r.core_state().mem[i] == 0u16,
            r.io_view() == io,
    {
        Self::with_observer(io, ())
    }
}

impl<I: IO, O: Observer> Computer<I, O> {
    /// The register file as a sequence of eight words.
    pub closed spec fn regs_view(&self) -> Seq<u16> {
        self.registers@
    }

    /// The memory as a sequence of 65536 words.
    pub closed spec fn mem_view(&self) -> Seq<u16> {
        self.memory@
    }

    /// The program counter.
    pub closed spec fn pc_view(&self) -> u16 {
        self.program_counter
    }

    /// The condition flags.
    pub closed spec fn cond_view(&self) -> Condition {
        self.condition
    }

    /// The IO value.
    pub closed spec fn io_view(&self) -> I {
        self.io
    }

    /// The observer value.
    pub closed spec fn obs_view(&self) -> O {
        self.observer
    }

    /// The core state: registers, memory, PC and flags together.
    pub open spec fn core_state(&self) -> CoreState {
        CoreState {
            regs: self.regs_view(),
            mem: self.mem_view(),
            pc: self.pc_view(),
            cond: self.cond_view(),
        }
    }

    /// The core state is well-formed: eight registers, 65536 memory words.
    pub proof fn lemma_shape(&self)
        ensures
            self.regs_view().len() == 8,
            self.mem_view().len() == 65536,
    {
        crate::memory::lemma_memory_len(&self.memory);
    }

    /// A computer with I/O and an observer.  PC starts at the user program
    /// origin; registers, flags and memory start zeroed.
    pub fn with_observer(io: I, observer: O) -> (r: Computer<I, O>)
        ensures
            r.core_state().pc == USER_PROGRAM_START,
            r.core_state().cond == (Condition { n: false, z: false, p: false }),
            r.core_state().regs =~= Seq::new(8, |i: int| 0u16),
            r.core_state().mem.len() == 65536,
            forall|i: int| 0 <= i < 65536 ==> r.core_state().mem[i] == 0u16,
            r.io_view() == io,
            r.obs_view() == observer,
    {
        let c = Computer {
            program_counter: USER_PROGRAM_START,
            condition: Condition { n: false, z: false, p: false },
            registers: [0u16; 8],
            memory: Memory::default(),
            io,
            observer,
        };
        proof {
            assert(c.core_state().regs =~= Seq::new(8, |i: int| 0u16));
        }
        c
    }

    /// The IO value, shared.
    pub fn io(&self) -> (r: &I)
        ensures
            r == self.io_view(),
    {
        &self.io
    }

    /// The IO value, exclusive: hosts queue input or drain output through
    /// this.
    pub fn io_mut(&mut self) -> (r: &mut I)
        ensures
            *r == old(self).io_view(),
            final(self).io_view() == *final(r),
            final(self).core_state() == old(self).core_state(),
            final(self).obs_view() == old(self).obs_view(),
    {
        &mut self.io
    }

    /// The observer, shared.
    pub fn observer(&self) -> (r: &O)
        ensures
            r == self.obs_view(),
    {
        &self.observer
    }

    /// The observer, exclusive.
    pub fn observer_mut(&mut self) -> (r: &mut O)
        ensures
            *r == old(self).obs_view(),
            final(self).obs_view() == *final(r),
            final(self).core_state() == old(self).core_state(),
            final(self).io_view() == old(self).io_view(),
    {
        &mut self.observer
    }

    /// The address of the next instruction to fetch.
    pub fn program_counter(&self) -> (r: u16)
        ensures
            r == self.pc_view(),
    {
        self.program_counter
    }

    /// The condition flags.
    pub fn condition(&self) -> (r: Condition)
        ensures
            r == self.cond_view(),
    {
        self.condition
    }

    pub fn condition_n(&self) -> (r: bool)
        ensures
            r == self.cond_view().n,
    {
        self.condition.n
    }

    pub fn condition_z(&self) -> (r: bool)
        ensures
            r == self.cond_view().z,
    {
        self.condition.z
    }

    pub fn condition_p(&self) -> (r: bool)
        ensures
            r == self.cond_view().p,
    {
        self.condition.p
    }

    /// One register, by index.
    pub fn register(&self, index: u8) -> (r: u16)
        requires
            index < 8,
        ensures
            r == self.regs_view()[index as int],
    {
        self.registers[index as usize]
    }

    /// The whole register file.
    pub fn registers(&self) -> (r: &[u16; 8])
        ensures
            r@ == self.regs_view(),
    {
        &self.registers
    }

    /// Loads a program: bulk memory write starting at `start_addr`, then
    /// PC := `start_addr`.
    pub fn load_program(&mut self, words: &[u16], start_addr: u16)
        ensures
            final(self).mem_view() == load_words_spec(old(self).mem_view(), start_addr, words@),
            final(self).pc_view() == start_addr,
            final(self).regs_view() == old(self).regs_view(),
            final(self).cond_view() == old(self).cond_view(),
            final(self).io_view() == old(self).io_view(),
    {
        self.memory.load_words(start_addr, words);
        self.set_pc(start_addr);
    }

    /// Reads a memory word directly.
    pub fn read_memory(&self, addr: u16) -> (r: u16)
        ensures
            r == self.mem_view()[addr as int],
    {
        self.memory.read_word(addr)
    }

    /// Writes a memory word directly: the debug-style external mutation.
    pub fn write_memory(&mut self, addr: u16, value: u16)
        ensures
            final(self).mem_view() == old(self).mem_view().update(addr as int, value),
            final(self).pc_view() == old(self).pc_view(),
            final(self).regs_view() == old(self).regs_view(),
            final(self).cond_view() == old(self).cond_view(),
            final(self).io_view() == old(self).io_view(),
    {
        let old_value = self.memory.read_word(addr);
        self.memory.write_word(addr, value);
        self.observer.on_memory_write(addr, old_value, value);
    }

    /// Reads a register through its typed name.
    fn load_register(&self, register: Register) -> (r: u16)
        ensures
            r == self.regs_view()[register.index_spec() as int],
    {
        self.registers[register.to_index()]
    }

    /// Writes a register and notifies the observer.
    fn store_register(&mut self, register: Register, value: u16)
        ensures
            final(self).regs_view() == old(self).regs_view().update(
                register.index_spec() as int,
                value,
            ),
            final(self).mem_view() == old(self).mem_view(),
            final(self).pc_view() == old(self).pc_view(),
            final(self).cond_view() == old(self).cond_view(),
            final(self).io_view() == old(self).io_view(),
    {
        let index = register.to_index();
        let old_value = self.registers[index];
        self.registers[index] = value;
        self.observer.on_register_write(index as u8, old_value, value);
    }

    /// Recomputes the flags from the signed interpretation of `value`; the
    /// observer hears of it only when the tuple actually changed.
    fn set_condition_codes(&mut self, value: u16)
        ensures
            final(self).cond_view() == flags_for(value),
            final(self).regs_view() == old(self).regs_view(),
            final(self).mem_view() == old(self).mem_view(),
            final(self).pc_view() == old(self).pc_view(),
            final(self).io_view() == old(self).io_view(),
    {
        let signed_value = #[verifier::truncate] (value as i16);
        let new_cond = Condition { n: signed_value < 0, z: signed_value == 0, p: signed_value > 0 };
        proof {
            assert((((value as i16) < 0) <==> value >= 0x8000) && (((value as i16) == 0) <==> value
                == 0) && (((value as i16) > 0) <==> (0 < value && value < 0x8000))) by (bit_vector);
        }
        if new_cond != self.condition {
            self.condition = new_cond;
            self.observer.on_condition_change(new_cond);
        }
    }

    /// Moves the PC; the observer hears of it only when the value differs.
    fn set_pc(&mut self, new_pc: u16)
        ensures
            final(self).pc_view() == new_pc,
            final(self).regs_view() == old(self).regs_view(),
            final(self).mem_view() == old(self).mem_view(),
            final(self).cond_view() == old(self).cond_view(),
            final(self).io_view() == old(self).io_view(),
    {
        let old_pc = self.program_counter;
        self.program_counter = new_pc;
        if old_pc != new_pc {
            self.observer.on_pc_change(old_pc, new_pc);
        }
    }

    /// One engine step.  If the IO reports halted, the step is a no-op
    /// success, which makes `run` idempotent after HALT.  Otherwise the word
    /// at PC is fetched and decoded (decoding is total today), the
    /// instruction executes, and PC advances by one with 16-bit wraparound.
    /// RTI is decodable but not executable: it returns a fatal error and
    /// leaves the whole core state, PC included, untouched.
    pub fn next_instruction(&mut self) -> (r: Result<(), Error>)
        ensures
            old(self).io_view().spec_halted() ==> r is Ok && final(self).core_state() == old(self).core_state() && final(self).io_view() == old(self).io_view() && final(self).obs_view()
                == old(self).obs_view(),
            !old(self).io_view().spec_halted() ==> {
                let inst = Instruction::decode_spec(
                    old(self).core_state().mem[old(self).core_state().pc as int],
                );
                &&& (inst == Instruction::Rti ==> r is Err && (r->Err_0 matches Error::UnimplementedInstruction(m)
                    && m@ == "RTI"@) && final(self).core_state() == old(self).core_state()
                    && final(self).io_view() == old(self).io_view())
                &&& (inst matches Instruction::Trap(v) ==> r is Ok && trap_effect(
                    old(self).core_state(),
                    old(self).io_view(),
                    final(self).core_state(),
                    final(self).io_view(),
                    v.spec_value(),
                ) && final(self).core_state().pc == wrap_inc(old(self).core_state().pc))
                &&& (!(inst is Rti) && !(inst is Trap) ==> r is Ok && final(self).core_state()
                    == full_step(old(self).core_state(), inst) && final(self).io_view() == old(self).io_view())
            },
    {
        if self.io.is_halted() {
            return Ok(());
        }
        let pc = self.program_counter;
        let word = self.memory.read_word(pc);
        proof {
            crate::isa::lemma_decode_spec_wf(word);
        }
        match Instruction::try_from(word) {
            Ok(inst) => {
                self.observer.on_instruction_start(pc, &inst);
                match self.execute(inst) {
                    Ok(()) => {},
                    Err(e) => {
                        return Err(e);
                    },
                }
                self.observer.on_instruction_end(pc, &inst);
                self.set_pc(self.program_counter.wrapping_add(1));
                Ok(())
            },
            Err(e) => Err(Error::InstructionDecode { address: pc, reason: e.reason }),
        }
    }

    /// Steps until the IO halts, the budget is exhausted, or a fatal step
    /// failure propagates; returns the number of instructions actually
    /// executed.  A success performs exactly that many chained engine
    /// steps; stopping under budget means the IO halted; the only failure
    /// is the RTI fault, which leaves the PC on the faulting word.  Once
    /// halted, further calls execute nothing and change nothing.
    pub fn run(&mut self, max_instructions: usize) -> (r: Result<usize, Error>)
        ensures
            r is Ok ==> r->Ok_0 <= max_instructions,
            r is Ok ==> steps_effect(
                old(self).core_state(),
                old(self).io_view(),
                r->Ok_0 as nat,
                final(self).core_state(),
                final(self).io_view(),
            ),
            r is Ok && r->Ok_0 < max_instructions ==> final(self).io_view().spec_halted(),
            r is Err ==> (r->Err_0 matches Error::UnimplementedInstruction(m) && m@ == "RTI"@)
                && Instruction::decode_spec(
                final(self).core_state().mem[final(self).core_state().pc as int],
            ) == Instruction::Rti && !final(self).io_view().spec_halted(),
            max_instructions == 0 ==> r == Ok::<usize, Error>(0) && final(self).core_state()
                == old(self).core_state() && final(self).io_view() == old(self).io_view() && final(self).obs_view() == old(self).obs_view(),
            old(self).io_view().spec_halted() ==> r == Ok::<usize, Error>(0) && final(self).core_state() == old(self).core_state() && final(self).io_view() == old(self).io_view() && final(self).obs_view() == old(self).obs_view(),
    {
        let mut count: usize = 0;
        proof {
            lemma_steps_effect_zero(self.core_state(), self.io_view());
        }
        let halted_at_entry = self.io.is_halted();
        if halted_at_entry {
            return Ok(0);
        }
        while count < max_instructions
            invariant
                count <= max_instructions,
                !old(self).io_view().spec_halted(),
                steps_effect(
                    old(self).core_state(),
                    old(self).io_view(),
                    count as nat,
                    self.core_state(),
                    self.io_view(),
                ),
                count == 0 ==> self.core_state() == old(self).core_state() && self.io_view()
                    == old(self).io_view() && self.obs_view() == old(self).obs_view(),
            decreases max_instructions - count,
        {
            if self.io.is_halted() {
                return Ok(count);
            }
            let ghost prev_core = self.core_state();
            let ghost prev_io = self.io_view();
            match self.next_instruction() {
                Ok(()) => {},
                Err(e) => {
                    return Err(e);
                },
            }
            proof {
                assert(step_ok_effect(prev_core, prev_io, self.core_state(), self.io_view())) by {
                    reveal(step_ok_effect);
                }
                lemma_steps_effect_extend(
                    old(self).core_state(),
                    old(self).io_view(),
                    count as nat,
                    prev_core,
                    prev_io,
                    self.core_state(),
                    self.io_view(),
                );
            }
            count = count + 1;
        }
        Ok(count)
    }

    /// Dispatches one decoded instruction.  RTI raises the fatal
    /// unimplemented-instruction error; everything else succeeds.
    fn execute(&mut self, instruction: Instruction) -> (r: Result<(), Error>)
        requires
            instruction.wf(),
        ensures
            instruction == Instruction::Rti ==> r is Err && (r->Err_0 matches Error::UnimplementedInstruction(m)
                && m@ == "RTI"@) && final(self).core_state() == old(self).core_state() && final(self).io_view() == old(self).io_view(),
            instruction matches Instruction::Trap(v) ==> r is Ok && trap_effect(
                old(self).core_state(),
                old(self).io_view(),
                final(self).core_state(),
                final(self).io_view(),
                v.spec_value(),
            ) && final(self).core_state().pc == old(self).core_state().pc,
            !(instruction is Rti) && !(instruction is Trap) ==> r is Ok && final(self).core_state()
                == step_core(old(self).core_state(), instruction) && final(self).io_view() == old(self).io_view(),
    {
        proof {
            self.lemma_shape();
        }
        match instruction {
            Instruction::AddInstruction(add_instruction) => {
                self.perform_add_instruction(add_instruction);
            },
            Instruction::AndInstruction(and_instruction) => {
                self.perform_and_instruction(and_instruction);
            },
            Instruction::XorInstruction(xor_instruction) => {
                self.perform_xor_instruction(xor_instruction);
            },
            Instruction::Br(condition, pcoffset9) => {
                self.perform_br_instruction(condition, pcoffset9);
            },
            Instruction::Jmp(base) => {
                self.perform_jmp_instruction(base);
            },
            Instruction::Jsr(pcoffset11) => {
                self.perform_jsr_instruction(pcoffset11);
            },
            Instruction::Jsrr(register) => {
                self.perform_jsrr_instruction(register);
            },
            Instruction::Ldb(dr, base, offset) => {
                self.perform_ldb_instruction(dr, base, offset);
            },
            Instruction::Ldi(dr, base, offset) => {
                self.perform_ldi_instruction(dr, base, offset);
            },
            Instruction::Ldr(dr, base, offset) => {
                self.perform_ldr_instruction(dr, base, offset);
            },
            Instruction::Lea(dr, pcoffset9) => {
                self.perform_lea_instruction(dr, pcoffset9);
            },
            Instruction::Ret => {
                self.perform_jmp_instruction(Register::Register7);
                proof {
                    assert(step_core(old(self).core_state(), Instruction::Ret) =~= step_core(
                        old(self).core_state(),
                        Instruction::Jmp(Register::Register7),
                    ));
                }
            },
            Instruction::Rti => {
                return Err(Error::UnimplementedInstruction("RTI".to_owned()));
            },
            Instruction::Shf(dr, sr, d, a, amount) => {
                self.perform_shf_instruction(dr, sr, d, a, amount);
            },
            Instruction::Stb(sr, base, offset) => {
                self.perform_stb_instruction(sr, base, offset);
            },
            Instruction::Sti(sr, base, offset) => {
                self.perform_sti_instruction(sr, base, offset);
            },
            Instruction::Stw(sr, base, offset) => {
                self.perform_stw_instruction(sr, base, offset);
            },
            Instruction::Trap(trap_vect8) => {
                self.perform_trap(trap_vect8.value());
            },
        }
        Ok(())
    }

    /// ADD: destination := source plus register or sign-extended immediate,
    /// with 16-bit wraparound; flags recomputed from the result.
    pub fn perform_add_instruction(&mut self, add_instruction: AddInstruction)
        ensures
            final(self).core_state() == step_core(
                old(self).core_state(),
                Instruction::AddInstruction(add_instruction),
            ),
            final(self).io_view() == old(self).io_view(),
    {
        match add_instruction {
            AddInstruction::AddReg(dr, sr1, sr2) => {
                let value1 = self.load_register(sr1);
                let value2 = self.load_register(sr2);
                let result = value1.wrapping_add(value2);
                self.store_register(dr, result);
                self.set_condition_codes(result);
            },
            AddInstruction::AddImm(dr, sr1, immediate5) => {
                let value1 = self.load_register(sr1);
                let imm5 = immediate5.value();
                let value2 = if imm5 & 0x10 != 0 {
                    (imm5 as u16) | 0xFFE0
                } else {
                    imm5 as u16
                };
                let result = value1.wrapping_add(value2);
                self.store_register(dr, result);
                self.set_condition_codes(result);
            },
        }
    }

    /// AND: destination := source AND register or sign-extended immediate;
    /// flags recomputed.
    pub fn perform_and_instruction(&mut self, and_instruction: AndInstruction)
        ensures
            final(self).core_state() == step_core(
                old(self).core_state(),
                Instruction::AndInstruction(and_instruction),
            ),
            final(self).io_view() == old(self).io_view(),
    {
        match and_instruction {
            AndInstruction::AndReg(dr, sr1, sr2) => {
                let value1 = self.load_register(sr1);
                let value2 = self.load_register(sr2);
                let result = value1 & value2;
                self.store_register(dr, result);
                self.set_condition_codes(result);
            },
            AndInstruction::AndImm(dr, sr1, immediate5) => {
                let value1 = self.load_register(sr1);
                let imm5 = immediate5.value();
                let value2 = if imm5 & 0x10 != 0 {
                    (imm5 as u16) | 0xFFE0
                } else {
                    imm5 as u16
                };
                let result = value1 & value2;
                self.store_register(dr, result);
                self.set_condition_codes(result);
            },
        }
    }

    /// XOR: destination := source XOR register or sign-extended immediate;
    /// NOT is the all-ones-immediate special case; flags recomputed.
    pub fn perform_xor_instruction(&mut self, xor_instruction: XorInstruction)
        ensures
            final(self).core_state() == step_core(
                old(self).core_state(),
                Instruction::XorInstruction(xor_instruction),
            ),
            final(self).io_view() == old(self).io_view(),
    {
        match xor_instruction {
            XorInstruction::XorReg(dr, sr1, sr2) => {
                let value1 = self.load_register(sr1);
                let value2 = self.load_register(sr2);
                let result = value1 ^ value2;
                self.store_register(dr, result);
                self.set_condition_codes(result);
            },
            XorInstruction::XorImm(dr, sr1, immediate5) => {
                let value1 = self.load_register(sr1);
                let imm5 = immediate5.value();
                let value2 = if imm5 & 0x10 != 0 {
                    (imm5 as u16) | 0xFFE0
                } else {
                    imm5 as u16
                };
                let result = value1 ^ value2;
                self.store_register(dr, result);
                self.set_condition_codes(result);
            },
        }
    }

    /// BR: taken when the decoded flag set intersects the current flags;
    /// the offset is relative to PC+1, with the engine's trailing increment
    /// supplying the +1.
    pub fn perform_br_instruction(&mut self, condition: Condition, offset: PCOffset9)
        ensures
            final(self).core_state() == step_core(
                old(self).core_state(),
                Instruction::Br(condition, offset),
            ),
            final(self).io_view() == old(self).io_view(),
    {
        if condition.intersects(&self.condition) {
            let signed_offset = offset.sign_extend();
            let target = self.program_counter.wrapping_add(
                #[verifier::truncate] (signed_offset as u16),
            );
            self.set_pc(target);
        }
    }

    /// JSR: R7 := PC+1, then PC moves by the sign-extended offset shifted
    /// left one bit (word alignment), compensated for the trailing
    /// increment.
    pub fn perform_jsr_instruction(&mut self, offset: PCOffset11)
        ensures
            final(self).core_state() == step_core(
                old(self).core_state(),
                Instruction::Jsr(offset),
            ),
            final(self).io_view() == old(self).io_view(),
    {
        let return_addr = self.program_counter.wrapping_add(1);
        self.store_register(Register::Register7, return_addr);
        let signed_offset = offset.sign_extend();
        let shifted: u16 = (#[verifier::truncate] (signed_offset as u16)) << 1u16;
        let target = self.program_counter.wrapping_add(shifted);
        self.set_pc(target);
    }

    /// JSRR: R7 := PC+1; PC := base register (read before R7 is written, in
    /// case base is R7), compensated for the trailing increment.
    pub fn perform_jsrr_instruction(&mut self, base: Register)
        ensures
            final(self).core_state() == step_core(
                old(self).core_state(),
                Instruction::Jsrr(base),
            ),
            final(self).io_view() == old(self).io_view(),
    {
        let return_addr = self.program_counter.wrapping_add(1);
        let target = self.load_register(base);
        self.store_register(Register::Register7, return_addr);
        self.set_pc(target.wrapping_sub(1));
    }

    /// JMP: PC := base register, compensated for the trailing increment.
    /// RET is JMP through R7.
    pub fn perform_jmp_instruction(&mut self, base: Register)
        ensures
            final(self).core_state() == step_core(old(self).core_state(), Instruction::Jmp(base)),
            final(self).io_view() == old(self).io_view(),
    {
        let target = self.load_register(base);
        self.set_pc(target.wrapping_sub(1));
    }

    /// LEA: destination := PC+1 plus the sign-extended offset shifted left
    /// one bit; flags recomputed.
    pub fn perform_lea_instruction(&mut self, dr: Register, offset: PCOffset9)
        ensures
            final(self).core_state() == step_core(
                old(self).core_state(),
                Instruction::Lea(dr, offset),
            ),
            final(self).io_view() == old(self).io_view(),
    {
        let pc_plus_1 = self.program_counter.wrapping_add(1);
        let signed_offset = offset.sign_extend();
        let shifted: u16 = (#[verifier::truncate] (signed_offset as u16)) << 1u16;
        let result = pc_plus_1.wrapping_add(shifted);
        self.store_register(dr, result);
        self.set_condition_codes(result);
    }

    /// STW: the word at base plus the doubled sign-extended offset :=
    /// source register; no flags.
    pub fn perform_stw_instruction(&mut self, sr: Register, base: Register, offset: PCOffset6)
        ensures
            final(self).core_state() == step_core(
                old(self).core_state(),
                Instruction::Stw(sr, base, offset),
            ),
            final(self).io_view() == old(self).io_view(),
    {
        let base_val = self.load_register(base);
        let signed_offset = offset.sign_extend();
        let shifted: u16 = (#[verifier::truncate] (signed_offset as u16)) << 1u16;
        let address = base_val.wrapping_add(shifted);
        let value = self.load_register(sr);
        let old_value = self.memory.read_word(address);
        self.memory.write_word(address, value);
        self.observer.on_memory_write(address, old_value, value);
    }

    /// LDB: byte address = base plus sign-extended offset, unshifted; the
    /// addressed half-word, sign-extended, goes to the destination; flags
    /// recomputed.
    pub fn perform_ldb_instruction(&mut self, dr: Register, base: Register, offset: PCOffset6)
        ensures
            final(self).core_state() == step_core(
                old(self).core_state(),
                Instruction::Ldb(dr, base, offset),
            ),
            final(self).io_view() == old(self).io_view(),
    {
        let base_val = self.load_register(base);
        let signed_offset = offset.sign_extend();
        let byte_address = base_val.wrapping_add(#[verifier::truncate] (signed_offset as u16));
        let word_address = byte_address >> 1u16;
        let word = self.memory.read_word(word_address);
        let byte = if byte_address & 1 == 0 {
            word & 0xFF
        } else {
            (word >> 8u16) & 0xFF
        };
        let result = if byte & 0x80 != 0 {
            byte | 0xFF00
        } else {
            byte
        };
        self.store_register(dr, result);
        self.set_condition_codes(result);
    }

    /// LDI: double-dereference: read through the pointer word stored at
    /// base plus the doubled offset; flags recomputed.
    pub fn perform_ldi_instruction(&mut self, dr: Register, base: Register, offset: PCOffset6)
        ensures
            final(self).core_state() == step_core(
                old(self).core_state(),
                Instruction::Ldi(dr, base, offset),
            ),
            final(self).io_view() == old(self).io_view(),
    {
        let base_val = self.load_register(base);
        let signed_offset = offset.sign_extend();
        let shifted: u16 = (#[verifier::truncate] (signed_offset as u16)) << 1u16;
        let pointer_address = base_val.wrapping_add(shifted);
        let target_address = self.memory.read_word(pointer_address);
        let result = self.memory.read_word(target_address);
        self.store_register(dr, result);
        self.set_condition_codes(result);
    }

    /// LDR: destination := the word at base plus the doubled sign-extended
    /// offset; flags recomputed.
    pub fn perform_ldr_instruction(&mut self, dr: Register, base: Register, offset: PCOffset6)
        ensures
            final(self).core_state() == step_core(
                old(self).core_state(),
                Instruction::Ldr(dr, base, offset),
            ),
            final(self).io_view() == old(self).io_view(),
    {
        let base_val = self.load_register(base);
        let signed_offset = offset.sign_extend();
        let shifted: u16 = (#[verifier::truncate] (signed_offset as u16)) << 1u16;
        let address = base_val.wrapping_add(shifted);
        let result = self.memory.read_word(address);
        self.store_register(dr, result);
        self.set_condition_codes(result);
    }

    /// STB: merges the low byte of the source into the addressed half-word,
    /// leaving the other half untouched; no flags.
    pub fn perform_stb_instruction(&mut self, sr: Register, base: Register, offset: PCOffset6)
        ensures
            final(self).core_state() == step_core(
                old(self).core_state(),
                Instruction::Stb(sr, base, offset),
            ),
            final(self).io_view() == old(self).io_view(),
    {
        let base_val = self.load_register(base);
        let signed_offset = offset.sign_extend();
        let byte_address = base_val.wrapping_add(#[verifier::truncate] (signed_offset as u16));
        let byte_value = self.load_register(sr) & 0xFF;
        let word_address = byte_address >> 1u16;
        let existing_word = self.memory.read_word(word_address);
        let new_word = if byte_address & 1 == 0 {
            (existing_word & 0xFF00) | byte_value
        } else {
            (existing_word & 0x00FF) | (byte_value << 8u16)
        };
        self.memory.write_word(word_address, new_word);
        self.observer.on_memory_write(word_address, existing_word, new_word);
    }

    /// STI: double-dereference: write through the pointer word stored at
    /// base plus the doubled offset; no flags.
    pub fn perform_sti_instruction(&mut self, sr: Register, base: Register, offset: PCOffset6)
        ensures
            final(self).core_state() == step_core(
                old(self).core_state(),
                Instruction::Sti(sr, base, offset),
            ),
            final(self).io_view() == old(self).io_view(),
    {
        let base_val = self.load_register(base);
        let signed_offset = offset.sign_extend();
        let shifted: u16 = (#[verifier::truncate] (signed_offset as u16)) << 1u16;
        let pointer_address = base_val.wrapping_add(shifted);
        let target_address = self.memory.read_word(pointer_address);
        let value = self.load_register(sr);
        let old_value = self.memory.read_word(target_address);
        self.memory.write_word(target_address, value);
        self.observer.on_memory_write(target_address, old_value, value);
    }

    /// SHF: left shift zero-fills; right shift zero-fills or sign-fills per
    /// the arithmetic bit; flags recomputed.
    pub fn perform_shf_instruction(
        &mut self,
        dr: Register,
        sr: Register,
        d: Bit,
        a: Bit,
        amount: Immediate4,
    )
        requires
            amount.wf(),
        ensures
            final(self).core_state() == step_core(
                old(self).core_state(),
                Instruction::Shf(dr, sr, d, a, amount),
            ),
            final(self).io_view() == old(self).io_view(),
    {
        let value = self.load_register(sr);
        let shift_amount = amount.value() as u16;
        let result = if !d.value() {
            value << shift_amount
        } else if !a.value() {
            value >> shift_amount
        } else {
            #[verifier::truncate] (((#[verifier::truncate] (value as i16)) >> shift_amount) as u16)
        };
        self.store_register(dr, result);
        self.set_condition_codes(result);
    }

    /// TRAP dispatch.  GETC and IN read a character into R0 when one is
    /// available, and leave R0 unmodified otherwise; OUT writes the low
    /// byte of R0; PUTS and PUTSP write from memory until a zero; HALT sets
    /// the latch; unmapped vectors are a deliberate, silent no-op.
    fn perform_trap(&mut self, vector: u8)
        ensures
            trap_effect(
                old(self).core_state(),
                old(self).io_view(),
                final(self).core_state(),
                final(self).io_view(),
                vector,
            ),
            final(self).pc_view() == old(self).pc_view(),
    {
        proof {
            self.lemma_shape();
        }
        if vector == 0x20 {
            match self.io.read_char() {
                Some(ch) => {
                    self.store_register(Register::Register0, #[verifier::truncate] (ch as u16));
                },
                None => {},
            }
        } else if vector == 0x21 {
            let b = (self.registers[0] & 0xFF) as u8;
            self.io.write_char(b as char);
        } else if vector == 0x22 {
            self.write_string_from(self.registers[0]);
        } else if vector == 0x23 {
            match self.io.read_char_with_echo() {
                Some(ch) => {
                    self.store_register(Register::Register0, #[verifier::truncate] (ch as u16));
                },
                None => {},
            }
        } else if vector == 0x24 {
            self.write_packed_string_from(self.registers[0]);
        } else if vector == 0x25 {
            self.io.halt();
        } else {
            // Unknown trap vector: deliberately ignored.
        }
    }

    /// PUTS: writes the low byte of successive words starting at `start`
    /// until a zero word.  A program whose memory holds no zero word would
    /// never stop in hardware; this engine gives up after one full sweep of
    /// the address space.
    fn write_string_from(&mut self, start: u16)
        ensures
            final(self).core_state() == old(self).core_state(),
            final(self).io_view().spec_output() == old(self).io_view().spec_output() + puts_chars(
                old(self).mem_view(),
                start,
                65536,
            ),
            final(self).io_view().spec_input() == old(self).io_view().spec_input(),
            final(self).io_view().spec_halted() == old(self).io_view().spec_halted(),
    {
        let mut addr = start;
        let mut steps: u32 = 0;
        while steps < 65536
            invariant
                steps <= 65536,
                self.core_state() == old(self).core_state(),
                self.io_view().spec_input() == old(self).io_view().spec_input(),
                self.io_view().spec_halted() == old(self).io_view().spec_halted(),
                old(self).io_view().spec_output() + puts_chars(old(self).mem_view(), start, 65536)
                    == self.io_view().spec_output() + puts_chars(
                    old(self).mem_view(),
                    addr,
                    (65536 - steps) as nat,
                ),
            ensures
                self.core_state() == old(self).core_state(),
                self.io_view().spec_input() == old(self).io_view().spec_input(),
                self.io_view().spec_halted() == old(self).io_view().spec_halted(),
                self.io_view().spec_output() == old(self).io_view().spec_output() + puts_chars(
                    old(self).mem_view(),
                    start,
                    65536,
                ),
            decreases 65536 - steps,
        {
            let word = self.memory.read_word(addr);
            if word == 0 {
                proof {
                    assert(puts_chars(old(self).mem_view(), addr, (65536 - steps) as nat)
                        =~= Seq::<char>::empty());
                    assert(self.io_view().spec_output() + Seq::<char>::empty()
                        =~= self.io_view().spec_output());
                }
                break ;
            }
            let b = (word & 0xFF) as u8;
            proof {
                let ghost k = (65536 - steps) as nat;
                assert(puts_chars(old(self).mem_view(), addr, k) =~= seq![(b as char)]
                    + puts_chars(old(self).mem_view(), wrap_inc(addr), (k - 1) as nat));
            }
            self.io.write_char(b as char);
            proof {
                assert(self.io_view().spec_output() + puts_chars(
                    old(self).mem_view(),
                    wrap_inc(addr),
                    (65536 - steps - 1) as nat,
                ) =~= old(self).io_view().spec_output() + puts_chars(
                    old(self).mem_view(),
                    start,
                    65536,
                ));
            }
            addr = addr.wrapping_add(1);
            steps = steps + 1;
        }
        proof {
            assert(puts_chars(old(self).mem_view(), addr, 0) =~= Seq::<char>::empty());
        }
    }

    /// PUTSP: writes two packed characters per word, low byte then high
    /// byte, stopping at the first zero byte in either position or at a
    /// zero word.  As with PUTS, the sweep is bounded by the address space.
    fn write_packed_string_from(&mut self, start: u16)
        ensures
            final(self).core_state() == old(self).core_state(),
            final(self).io_view().spec_output() == old(self).io_view().spec_output() + putsp_chars(
                old(self).mem_view(),
                start,
                65536,
            ),
            final(self).io_view().spec_input() == old(self).io_view().spec_input(),
            final(self).io_view().spec_halted() == old(self).io_view().spec_halted(),
    {
        let mut addr = start;
        let mut steps: u32 = 0;
        while steps < 65536
            invariant_except_break
                old(self).io_view().spec_output() + putsp_chars(old(self).mem_view(), start, 65536)
                    == self.io_view().spec_output() + putsp_chars(
                    old(self).mem_view(),
                    addr,
                    (65536 - steps) as nat,
                ),
            invariant
                steps <= 65536,
                self.core_state() == old(self).core_state(),
                self.io_view().spec_input() == old(self).io_view().spec_input(),
                self.io_view().spec_halted() == old(self).io_view().spec_halted(),
            ensures
                self.core_state() == old(self).core_state(),
                self.io_view().spec_input() == old(self).io_view().spec_input(),
                self.io_view().spec_halted() == old(self).io_view().spec_halted(),
                self.io_view().spec_output() == old(self).io_view().spec_output() + putsp_chars(
                    old(self).mem_view(),
                    start,
                    65536,
                ),
            decreases 65536 - steps,
        {
            let word = self.memory.read_word(addr);
            proof {
                assert((word & 0xFF) < 256 && ((word >> 8) & 0xFF) < 256) by (bit_vector);
            }
            if word == 0 {
                proof {
                    assert(putsp_chars(old(self).mem_view(), addr, (65536 - steps) as nat)
                        =~= Seq::<char>::empty());
                    assert(self.io_view().spec_output() + Seq::<char>::empty()
                        =~= self.io_view().spec_output());
                }
                break ;
            }
            let ch1 = (word & 0xFF) as u8;
            if ch1 == 0 {
                proof {
                    assert(putsp_chars(old(self).mem_view(), addr, (65536 - steps) as nat)
                        =~= Seq::<char>::empty());
                    assert(self.io_view().spec_output() + Seq::<char>::empty()
                        =~= self.io_view().spec_output());
                }
                break ;
            }
            self.io.write_char(ch1 as char);
            let ch2 = ((word >> 8u16) & 0xFF) as u8;
            if ch2 == 0 {
                proof {
                    assert(putsp_chars(old(self).mem_view(), addr, (65536 - steps) as nat)
                        =~= seq![(ch1 as char)]);
                    assert(self.io_view().spec_output() =~= old(self).io_view().spec_output()
                        + putsp_chars(old(self).mem_view(), start, 65536));
                }
                break ;
            }
            proof {
                let ghost k = (65536 - steps) as nat;
                assert(putsp_chars(old(self).mem_view(), addr, k) =~= seq![
                    (ch1 as char),
                    (ch2 as char),
                ] + putsp_chars(old(self).mem_view(), wrap_inc(addr), (k - 1) as nat));
            }
            self.io.write_char(ch2 as char);
            proof {
                assert(self.io_view().spec_output() + putsp_chars(
                    old(self).mem_view(),
                    wrap_inc(addr),
                    (65536 - steps - 1) as nat,
                ) =~= old(self).io_view().spec_output() + putsp_chars(
                    old(self).mem_view(),
                    start,
                    65536,
                ));
            }
            addr = addr.wrapping_add(1);
            steps = steps + 1;
        }
    }
}

} // verus!

