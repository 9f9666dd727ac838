//! Laws of the machine: what holds of every state and every instruction
//! word.

use crate::decode::{dr, fl, lemma_sext_widens, poff11, poff9, signed16, signed_field, sr1, trp};
use crate::dispatch::{Opcode, Trap};
use crate::model::{low_byte, wrap, Effect, Machine};
use crate::registers::{Flag, Register, MEMORY_SIZE, TRAP_OFFSET};
use crate::text::{as_chars, lemma_decimal_reads_back};
use vstd::prelude::*;

verus! {

/// Whether the operation redefines its destination register and with it the
/// flags: the arithmetic and logic operations, every load, and LEA.
pub open spec fn sets_flags(op: Opcode) -> bool {
    op is Add || op is And || op is Not || op is Ld || op is Ldi || op is Ldr || op is Lea
}

/// Whether exactly one of the three flag bits is set in `cond`, and no other
/// bit.
pub open spec fn one_hot(cond: u16) -> bool {
    cond == Flag::FP.bits() || cond == Flag::FZ.bits() || cond == Flag::FN.bits()
}

/// Every step leaves a machine that covers all of memory and all registers.
pub proof fn lemma_step_keeps_wf(m: Machine)
    requires
        m.wf(),
    ensures
        m.advance().wf(),
        forall|i: u16| (#[trigger] m.execute(i)).0.wf(),
        m.step().0.wf(),
{
}

/// After an instruction that redefines its destination register, exactly
/// one flag bit is set in the flags register, and it is the one that
/// classifies the value just written: zero, negative or positive.
pub proof fn lemma_flags_follow_destination(m: Machine, i: u16)
    requires
        m.wf(),
        sets_flags(Opcode::of(i)),
    ensures
        one_hot(m.execute(i).0.cond()),
        m.execute(i).0.cond() == Flag::of(m.execute(i).0.reg(dr(i))).bits(),
        m.execute(i).0.cond() == Flag::FZ.bits() <==> m.execute(i).0.reg(dr(i)) == 0,
        m.execute(i).0.cond() == Flag::FN.bits() <==> signed16(m.execute(i).0.reg(dr(i))) < 0,
        m.execute(i).0.cond() == Flag::FP.bits() <==> signed16(m.execute(i).0.reg(dr(i))) > 0,
{
}

/// The same holds of a whole step: where the word at the program counter
/// is such an instruction, the step leaves exactly one flag set, the one
/// that classifies the destination register.
pub proof fn lemma_step_sets_flags(m: Machine)
    requires
        m.wf(),
        sets_flags(Opcode::of(m.fetch())),
    ensures
        one_hot(m.step().0.cond()),
        m.step().0.cond() == Flag::of(m.step().0.reg(dr(m.fetch()))).bits(),
{
    lemma_flags_follow_destination(m.advance(), m.fetch());
}

/// An instruction that does not redefine a destination register leaves the
/// flags register as it is.
pub proof fn lemma_other_operations_keep_flags(m: Machine, i: u16)
    requires
        m.wf(),
        !sets_flags(Opcode::of(i)),
    ensures
        m.execute(i).0.cond() == m.cond(),
{
}

/// ADD wraps: the destination gets the sum of the two operands modulo
/// `2^16`, so a sum of exactly `2^16` gives zero and the zero flag.
pub proof fn lemma_add_wraps(m: Machine, i: u16)
    requires
        m.wf(),
    ensures
        m.add(i).reg(dr(i)) as int == (m.reg(sr1(i)) + m.operand(i)) % 0x10000,
        m.reg(sr1(i)) + m.operand(i) == 0x10000 ==> m.add(i).reg(dr(i)) == 0
            && m.add(i).cond() == Flag::FZ.bits(),
{
}

/// An address relative to the program counter is counted from the word
/// after the instruction: in a step, the offset is added to the program
/// counter as it stands after the fetch.
pub proof fn lemma_offsets_count_from_next_word(m: Machine, offset: u16)
    requires
        m.wf(),
    ensures
        m.advance().pc() == wrap(m.pc() + 1),
        m.advance().pc_relative(offset) == wrap(m.pc() + 1 + signed16(offset)),
{
}

/// A step that executes LD reads the word at the 9-bit offset, taken as a
/// signed number, from the address after the instruction.
pub proof fn lemma_ld_reads_from_next_word(m: Machine)
    requires
        m.wf(),
        Opcode::of(m.fetch()) is Ld,
    ensures
        m.step().0.reg(dr(m.fetch())) == m.mem(
            wrap(m.pc() + 1 + signed_field((m.fetch() % 0x200) as u16, 9)),
        ),
        m.step().1 is Continue,
{
    let i = m.fetch();
    let field = (i % 0x200) as u16;
    lemma_sext_widens(field, 9);
    lemma_offsets_count_from_next_word(m, poff9(i));
}

/// The other instructions that address relative to the program counter
/// count from the word after the instruction too: LEA gives that address,
/// ST stores at it, a branch that is taken and a long subroutine call jump
/// to it, and the call links to the word after the instruction.
pub proof fn lemma_step_counts_from_next_word(m: Machine)
    requires
        m.wf(),
    ensures
        Opcode::of(m.fetch()) is Lea ==> m.step().0.reg(dr(m.fetch())) == wrap(
            m.pc() + 1 + signed_field((m.fetch() % 0x200) as u16, 9),
        ),
        Opcode::of(m.fetch()) is St ==> m.step().0.mem(
            wrap(m.pc() + 1 + signed_field((m.fetch() % 0x200) as u16, 9)),
        ) == m.reg(dr(m.fetch())),
        Opcode::of(m.fetch()) is Br && m.branches(m.fetch()) ==> m.step().0.pc() == wrap(
            m.pc() + 1 + signed_field((m.fetch() % 0x200) as u16, 9),
        ),
        Opcode::of(m.fetch()) is Br && !m.branches(m.fetch()) ==> m.step().0.pc() == wrap(
            m.pc() + 1,
        ),
        Opcode::of(m.fetch()) is Jsr ==> m.step().0.reg(Register::R7.index()) == wrap(m.pc() + 1),
        Opcode::of(m.fetch()) is Jsr && fl(m.fetch()) == 1 ==> m.step().0.pc() == wrap(
            m.pc() + 1 + signed_field((m.fetch() % 0x800) as u16, 11),
        ),
{
    let i = m.fetch();
    lemma_sext_widens((i % 0x200) as u16, 9);
    lemma_sext_widens((i % 0x800) as u16, 11);
    lemma_offsets_count_from_next_word(m, poff9(i));
    lemma_offsets_count_from_next_word(m, poff11(i));
}

/// Indirect load reads back what was stored through the pointer: with `x`
/// at `addr` and `addr` at `ptr`, LDI whose effective address is `ptr`
/// puts `x` in its destination. Where `addr` and `ptr` are the same word,
/// that word holds `addr`, so this is stated for `x == addr` only.
pub proof fn lemma_ldi_reads_through_pointer(m: Machine, i: u16, addr: u16, ptr: u16, x: u16)
    requires
        m.wf(),
        m.pc_relative(poff9(i)) == ptr,
        addr != ptr || x == addr,
    ensures
        m.set_mem(addr, x).set_mem(ptr, addr).ldi(i).reg(dr(i)) == x,
{
}

/// A step that executes the HALT trap stops the machine and touches nothing
/// but the program counter, and the execution loop then takes exactly that
/// one step, whatever budget it has left.
pub proof fn lemma_halt_stops(m: Machine, budget: nat)
    requires
        m.wf(),
        Opcode::of(m.fetch()) is Trap,
        trp(m.fetch()) == TRAP_OFFSET + 5,
    ensures
        m.step() == (m.advance().thalt(), Effect::Continue),
        !m.step().0.running,
        m.step().0.memory == m.memory,
        forall|slot: u16|
            slot < 10 && slot != Register::RPC.index() ==> m.step().0.reg(slot) == m.reg(slot),
        m.running && budget >= 1 ==> m.run(budget) == m.step(),
{
    let (next, effect) = m.step();
    assert(Trap::of(trp(m.fetch())) == Some(Trap::Halt));
    if m.running && budget >= 1 {
        assert(next.run((budget - 1) as nat) == (next, Effect::Continue));
    }
}

/// A halted machine takes no step.
pub proof fn lemma_halted_stays(m: Machine, budget: nat)
    requires
        !m.running,
    ensures
        m.run(budget) == (m, Effect::Continue),
{
}

/// The execution loop leaves a machine that covers all of memory and all
/// registers.
pub proof fn lemma_run_keeps_wf(m: Machine, budget: nat)
    requires
        m.wf(),
    ensures
        m.run(budget).0.wf(),
    decreases budget,
{
    if m.running && budget > 0 {
        lemma_step_keeps_wf(m);
        if m.step().1 is Continue {
            lemma_run_keeps_wf(m.step().0, (budget - 1) as nat);
        }
    }
}

/// Once exactly one flag is set, it stays so: no step and no run of the
/// execution loop leaves the flags register with none or several.
pub proof fn lemma_one_hot_is_kept(m: Machine, budget: nat)
    requires
        m.wf(),
        one_hot(m.cond()),
    ensures
        one_hot(m.step().0.cond()),
        one_hot(m.run(budget).0.cond()),
    decreases budget,
{
    let i = m.fetch();
    let fetched = m.advance();
    if sets_flags(Opcode::of(i)) {
        lemma_flags_follow_destination(fetched, i);
    } else {
        lemma_other_operations_keep_flags(fetched, i);
    }
    if m.running && budget > 0 && m.step().1 is Continue {
        lemma_step_keeps_wf(m);
        lemma_one_hot_is_kept(m.step().0, (budget - 1) as nat);
    }
}

/// The word at distance `k` from the address after `address` is the word
/// at distance `k + 1` from `address`.
proof fn lemma_word_from_next(m: Machine, address: u16, k: int)
    requires
        0 <= k < MEMORY_SIZE,
    ensures
        m.word_from(wrap(address + 1), k) == m.word_from(address, k + 1),
{
    assert(wrap(wrap(address + 1) + k) == wrap(address + (k + 1)));
}

/// The count of words that are not zero, from `address` on: it stays
/// within the limit, every word it counts is not zero, and where it stops
/// short of the limit the next word is zero.
proof fn lemma_text_len(m: Machine, address: u16, limit: nat)
    requires
        limit <= MEMORY_SIZE,
    ensures
        m.text_len(address, limit) <= limit,
        forall|k: int|
            0 <= k < m.text_len(address, limit) ==> #[trigger] m.word_from(address, k) != 0,
        m.text_len(address, limit) < limit ==> m.word_from(
            address,
            m.text_len(address, limit) as int,
        ) == 0,
    decreases limit,
{
    if limit == 0 {
    } else if m.mem(address) == 0 {
        assert(m.word_from(address, 0) == m.mem(address));
    } else {
        let next = wrap(address + 1);
        let rest = m.text_len(next, (limit - 1) as nat);
        lemma_text_len(m, next, (limit - 1) as nat);
        assert(m.text_len(address, limit) == rest + 1);
        assert forall|k: int| 0 <= k < rest + 1 implies #[trigger] m.word_from(address, k)
            != 0 by {
            if k == 0 {
                assert(m.word_from(address, 0) == m.mem(address));
            } else {
                lemma_word_from_next(m, address, k - 1);
            }
        }
        if rest + 1 < limit {
            lemma_word_from_next(m, address, rest as int);
        }
    }
}

/// The string at an address ends at the first zero word: each of its
/// characters is the low byte of a word that is not zero, and the word
/// after its last is zero. It has as many characters as memory has words
/// exactly where no word of memory is zero.
pub proof fn lemma_text_ends_at_first_zero(m: Machine, address: u16)
    requires
        m.wf(),
    ensures
        m.text_at(address).len() <= MEMORY_SIZE,
        forall|k: int|
            0 <= k < m.text_at(address).len() ==> m.word_from(address, k) != 0 && #[trigger] m.text_at(
                address,
            )[k] == low_byte(m.word_from(address, k)),
        m.text_at(address).len() < MEMORY_SIZE ==> m.word_from(
            address,
            m.text_at(address).len() as int,
        ) == 0,
        m.text_at(address).len() == MEMORY_SIZE <==> (forall|a: u16| #[trigger] m.mem(a) != 0),
{
    let n = m.text_len(address, MEMORY_SIZE as nat);
    lemma_text_len(m, address, MEMORY_SIZE as nat);
    if n == MEMORY_SIZE {
        assert forall|a: u16| #[trigger] m.mem(a) != 0 by {
            let k = (a - address + 0x10000) % 0x10000;
            assert(m.word_from(address, k) == m.mem(a));
        }
    } else {
        assert(m.mem(wrap(address + n)) == 0);
    }
}

/// A program that was loaded is where the machine starts: after loading an
/// image of at least two bytes and starting at the same offset, the first
/// word fetched is made of the first two bytes, the low byte first.
pub proof fn lemma_start_fetches_what_was_loaded(m: Machine, image: Seq<u8>, offset: u16)
    requires
        m.wf(),
        m.origin + offset <= 0xFFFF,
        image.len() >= 2,
    ensures
        m.load(image, offset).wf(),
        m.load(image, offset).registers == m.registers,
        m.load(image, offset).start(offset).fetch() == image[0] + 0x100 * image[1],
{
}

/// What OUTU16 writes, INU16 reads back: handing the machine the line that
/// it wrote for `R0` leaves it as it is.
pub proof fn lemma_number_written_reads_back(m: Machine)
    requires
        m.wf(),
    ensures
        m.tinu16(Some(as_chars(m.toutu16()))) == m,
{
    lemma_decimal_reads_back(m.reg(Register::R0.index()));
    assert(m.registers.update(0, m.registers[0]) =~= m.registers);
}

} // verus!
