use vstd::prelude::*;

use crate::instruction::{fields_of, instruction_of};
use crate::machine::{can_fetch, run_spec, step_spec, word_at, CpuError, CpuModel, Status};

verus! {

/// A CALL followed, at its target, by a RETURN comes back to the word after
/// the CALL: the first cycle jumps to `nnn` with `p + 2` on top of the
/// stack, the second restores the program counter to `p + 2` and the stack
/// to what it was; registers and memory are untouched.
pub proof fn lemma_call_then_return(m: CpuModel)
    requires
        m.wf(),
        can_fetch(m.pc),
        m.stack.len() < 16,
        fields_of(word_at(m.memory, m.pc)).c == 2,
        can_fetch(fields_of(word_at(m.memory, m.pc)).nnn),
        word_at(m.memory, fields_of(word_at(m.memory, m.pc)).nnn) == 0x00EE,
    ensures
        ({
            let (r1, m1) = step_spec(m);
            let (r2, m2) = step_spec(m1);
            &&& r1 == Ok::<Status, CpuError>(Status::Running)
            &&& m1.pc == fields_of(word_at(m.memory, m.pc)).nnn
            &&& m1.stack == m.stack.push((m.pc + 2) as u16)
            &&& m1.stack.last() == m.pc + 2
            &&& m1.registers == m.registers
            &&& m1.memory == m.memory
            &&& r2 == Ok::<Status, CpuError>(Status::Running)
            &&& m2.pc == m.pc + 2
            &&& m2.stack == m.stack
            &&& m2.registers == m.registers
            &&& m2.memory == m.memory
        }),
{
    let (r1, m1) = step_spec(m);
    assert(m1.stack.drop_last() =~= m.stack);
}

/// Every byte of `memory` lies in `0x20..=0x2F`, so every word that can be
/// fetched from it is a CALL whose target can be fetched too.
pub open spec fn only_calls(memory: Seq<u8>) -> bool {
    &&& memory.len() == 0x1000
    &&& forall|a: int| 0 <= a < 0x1000 ==> 0x20 <= #[trigger] memory[a] <= 0x2F
}

/// One cycle on a memory of nothing but CALLs pushes one return address and
/// jumps to a fetchable address, while the stack has room.
proof fn lemma_call_cycle(m: CpuModel)
    requires
        m.wf(),
        only_calls(m.memory),
        can_fetch(m.pc),
        m.stack.len() < 16,
    ensures
        step_spec(m).0 == Ok::<Status, CpuError>(Status::Running),
        step_spec(m).1.wf(),
        step_spec(m).1.memory == m.memory,
        step_spec(m).1.stack.len() == m.stack.len() + 1,
        can_fetch(step_spec(m).1.pc),
{
    let hi = m.memory[m.pc as int];
    let lo = m.memory[m.pc + 1];
    let op = word_at(m.memory, m.pc);
    assert(0x20 <= hi <= 0x2F && 0x20 <= lo <= 0x2F);
    assert(op == hi * 256 + lo);
    assert(fields_of(op).c == 2);
    assert(fields_of(op).nnn == op - 0x2000);
}

/// With `k` free slots left on the stack, `k` cycles over a memory of CALLs
/// all go on and fill the stack, and cycle `k + 1` overflows it.
proof fn lemma_calls_fill_stack(m: CpuModel, k: nat)
    requires
        m.wf(),
        only_calls(m.memory),
        can_fetch(m.pc),
        m.stack.len() + k == 16,
    ensures
        run_spec(m, k).0 == Ok::<Status, CpuError>(Status::Running),
        run_spec(m, k).1.stack.len() == 16,
        run_spec(m, k + 1).0 == Err::<Status, CpuError>(CpuError::StackOverflow),
    decreases k,
{
    if k > 0 {
        lemma_call_cycle(m);
        let n = step_spec(m).1;
        lemma_calls_fill_stack(n, (k - 1) as nat);
        assert(run_spec(m, k) == run_spec(n, (k - 1) as nat));
        assert(run_spec(m, k + 1) == run_spec(n, k));
    }
}

/// Sixteen nested CALLs without a RETURN all succeed, starting from an empty
/// stack, and the seventeenth fails with a stack overflow.
pub proof fn lemma_seventeenth_call_overflows(m: CpuModel)
    requires
        m.wf(),
        m.stack.len() == 0,
        only_calls(m.memory),
        can_fetch(m.pc),
    ensures
        run_spec(m, 16).0 == Ok::<Status, CpuError>(Status::Running),
        run_spec(m, 16).1.stack.len() == 16,
        run_spec(m, 17).0 == Err::<Status, CpuError>(CpuError::StackOverflow),
{
    lemma_calls_fill_stack(m, 16);
}

/// A word whose nibbles match none of the instruction patterns stops the
/// machine with `UnimplementedOpcode` carrying that word, in the cycle that
/// fetches it; it is never skipped.
pub proof fn lemma_unimplemented_opcode(m: CpuModel, fuel: nat)
    requires
        can_fetch(m.pc),
        fuel > 0,
        ({
            let f = fields_of(word_at(m.memory, m.pc));
            &&& !(f.c == 0 && f.x == 0 && f.y == 0 && f.d == 0)
            &&& !(f.c == 0 && f.x == 0 && f.y == 0xE && f.d == 0xE)
            &&& f.c != 2
            &&& !(f.c == 8 && f.d == 4)
        }),
    ensures
        instruction_of(word_at(m.memory, m.pc)) is None,
        step_spec(m).0 == Err::<Status, CpuError>(
            CpuError::UnimplementedOpcode(word_at(m.memory, m.pc)),
        ),
        run_spec(m, fuel).0 == Err::<Status, CpuError>(
            CpuError::UnimplementedOpcode(word_at(m.memory, m.pc)),
        ),
{
}

} // verus!
