use vstd::prelude::*;

use crate::instruction::{decode_instruction, fields_of, instruction_of, lemma_masks_match_arithmetic, Instruction};

verus! {

/// Number of addressable bytes of memory.
pub const MEMORY_SIZE: usize = 0x1000;

/// Number of general-purpose registers.
pub const REGISTER_COUNT: usize = 16;

/// Number of return addresses the call stack can hold.
pub const STACK_CAPACITY: usize = 16;

/// The register that arithmetic writes its carry into.
pub const FLAG_REGISTER: usize = 0xF;

/// Why the machine stopped without reaching a halt instruction.
#[derive(Clone, Copy, Debug, PartialEq, Eq, Structural)]
pub enum CpuError {
    /// A call was made while the call stack was full.
    StackOverflow,
    /// A return was made while the call stack was empty.
    StackUnderflow,
    /// The word fetched matches no instruction; it is carried for diagnosis.
    UnimplementedOpcode(u16),
    /// The program counter leaves no room for a two-byte fetch.
    ProgramCounterOutOfRange(u16),
    /// A load would write past the end of memory.
    LoadOutOfRange,
}

/// Whether the machine stopped at a halt instruction or can go on.
#[derive(Clone, Copy, Debug, PartialEq, Eq, Structural)]
pub enum Status {
    Halted,
    Running,
}

/// The machine's state as mathematical values: the stack holds only the
/// return addresses in use, oldest first.
pub struct CpuModel {
    pub registers: Seq<u8>,
    pub memory: Seq<u8>,
    pub stack: Seq<u16>,
    pub pc: u16,
}

impl CpuModel {
    /// Sizes that every reachable state has.
    pub open spec fn wf(self) -> bool {
        &&& self.registers.len() == REGISTER_COUNT
        &&& self.memory.len() == MEMORY_SIZE
        &&& self.stack.len() <= STACK_CAPACITY
    }

    /// The same state with the program counter set to `pc`.
    pub open spec fn with_pc(self, pc: u16) -> CpuModel {
        CpuModel { pc, ..self }
    }
}

/// Whether a two-byte fetch at `pc` stays inside memory.
pub open spec fn can_fetch(pc: u16) -> bool {
    pc + 1 < MEMORY_SIZE
}

/// The big-endian word at `pc`.
pub open spec fn word_at(memory: Seq<u8>, pc: u16) -> u16 {
    (memory[pc as int] * 256 + memory[pc + 1]) as u16
}

/// `memory` with `bytes` written from address `at` on.
pub open spec fn loaded(memory: Seq<u8>, at: int, bytes: Seq<u8>) -> Seq<u8> {
    Seq::new(
        memory.len(),
        |i: int|
            if at <= i < at + bytes.len() {
                bytes[i - at]
            } else {
                memory[i]
            },
    )
}

/// Register `x` gets `reg[x] + reg[y]` modulo 256, then the flag register gets
/// 1 where the sum exceeded 255 and 0 otherwise.
pub open spec fn add_spec(m: CpuModel, x: u8, y: u8) -> CpuModel {
    let sum = m.registers[x as int] + m.registers[y as int];
    let regs = m.registers.update(x as int, (sum % 256) as u8);
    CpuModel {
        registers: regs.update(FLAG_REGISTER as int, if sum > 255 { 1u8 } else { 0u8 }),
        ..m
    }
}

/// Pushes the program counter and jumps to `addr`; fails on a full stack.
pub open spec fn call_spec(m: CpuModel, addr: u16) -> Result<CpuModel, CpuError> {
    if m.stack.len() >= STACK_CAPACITY {
        Err(CpuError::StackOverflow)
    } else {
        Ok(CpuModel { stack: m.stack.push(m.pc), pc: addr, ..m })
    }
}

/// Pops the newest return address into the program counter; fails on an
/// empty stack.
pub open spec fn ret_spec(m: CpuModel) -> Result<CpuModel, CpuError> {
    if m.stack.len() == 0 {
        Err(CpuError::StackUnderflow)
    } else {
        Ok(CpuModel { stack: m.stack.drop_last(), pc: m.stack.last(), ..m })
    }
}

/// One fetch-decode-execute cycle: the result and the state after it. The
/// program counter moves past the word before the instruction runs; on a
/// failed handler the state is left as it was after that move.
pub open spec fn step_spec(m: CpuModel) -> (Result<Status, CpuError>, CpuModel) {
    if !can_fetch(m.pc) {
        (Err(CpuError::ProgramCounterOutOfRange(m.pc)), m)
    } else {
        let op = word_at(m.memory, m.pc);
        let next = m.with_pc((m.pc + 2) as u16);
        match instruction_of(op) {
            None => (Err(CpuError::UnimplementedOpcode(op)), next),
            Some(Instruction::Halt) => (Ok(Status::Halted), next),
            Some(Instruction::Return) => match ret_spec(next) {
                Ok(n) => (Ok(Status::Running), n),
                Err(e) => (Err(e), next),
            },
            Some(Instruction::Call { addr }) => match call_spec(next, addr) {
                Ok(n) => (Ok(Status::Running), n),
                Err(e) => (Err(e), next),
            },
            Some(Instruction::AddXY { x, y }) => (Ok(Status::Running), add_spec(next, x, y)),
        }
    }
}

/// Up to `fuel` cycles: stops at the first cycle that halts or fails, and
/// reports `Running` if every one of them went on.
pub open spec fn run_spec(m: CpuModel, fuel: nat) -> (Result<Status, CpuError>, CpuModel)
    decreases fuel,
{
    if fuel == 0 {
        (Ok(Status::Running), m)
    } else {
        let (r, n) = step_spec(m);
        match r {
            Ok(Status::Running) => run_spec(n, (fuel - 1) as nat),
            _ => (r, n),
        }
    }
}

/// The machine: registers, memory, call stack and program counter.
pub struct CPU {
    registers: [u8; 16],
    memory: [u8; 0x1000],
    stack: [u16; 16],
    stack_pointer: usize,
    program_counter: u16,
}

impl View for CPU {
    type V = CpuModel;

    closed spec fn view(&self) -> CpuModel {
        CpuModel {
            registers: self.registers@,
            memory: self.memory@,
            stack: self.stack@.subrange(0, self.stack_pointer as int),
            pc: self.program_counter,
        }
    }
}

impl CPU {
    #[verifier::type_invariant]
    spec fn inv(self) -> bool {
        self.stack_pointer <= STACK_CAPACITY
    }

    /// A machine with every register, byte and stack slot zero.
    pub fn new() -> (r: CPU)
        ensures
            r@.registers == Seq::new(16, |i: int| 0u8),
            r@.memory == Seq::new(0x1000, |i: int| 0u8),
            r@.stack == Seq::<u16>::empty(),
            r@.pc == 0,
    {
        let r = CPU {
            registers: [0u8; 16],
            memory: [0u8; 0x1000],
            stack: [0u16; 16],
            stack_pointer: 0,
            program_counter: 0,
        };
        assert(r@.registers =~= Seq::new(16, |i: int| 0u8));
        assert(r@.memory =~= Seq::new(0x1000, |i: int| 0u8));
        assert(r@.stack =~= Seq::<u16>::empty());
        r
    }

    /// Splits an instruction word into its four nibbles `(c, x, y, d)`, high
    /// nibble first.
    pub fn decoding_opcode(opcode: u16) -> (r: (u8, u8, u8, u8))
        ensures
            r.0 == fields_of(opcode).c && r.0 == (opcode & 0xF000) >> 12,
            r.1 == fields_of(opcode).x && r.1 == (opcode & 0x0F00) >> 8,
            r.2 == fields_of(opcode).y && r.2 == (opcode & 0x00F0) >> 4,
            r.3 == fields_of(opcode).d && r.3 == opcode & 0x000F,
    {
        proof {
            lemma_masks_match_arithmetic(opcode);
        }
        let c = ((opcode & 0xF000) >> 12) as u8;
        let x = ((opcode & 0x0F00) >> 8) as u8;
        let y = ((opcode & 0x00F0) >> 4) as u8;
        let d = (opcode & 0x000F) as u8;
        (c, x, y, d)
    }

    /// Adds register `y` into register `x` modulo 256 and writes the carry
    /// into the flag register.
    pub fn add_xy(&mut self, x: u8, y: u8)
        requires
            x < 16,
            y < 16,
        ensures
            final(self)@ == add_spec(old(self)@, x, y),
    {
        proof {
            use_type_invariant(&*self);
        }
        let a = self.registers[x as usize];
        let b = self.registers[y as usize];
        let val = a.wrapping_add(b);
        let overflow = a as u16 + b as u16 > 255;
        self.registers[x as usize] = val;
        if overflow {
            self.registers[FLAG_REGISTER] = 1;
        } else {
            self.registers[FLAG_REGISTER] = 0;
        }
        assert(self@.registers =~= add_spec(old(self)@, x, y).registers);
    }

    /// Pushes the program counter onto the call stack and jumps to `addr`.
    /// On a full stack nothing changes and `StackOverflow` comes back.
    pub fn call(&mut self, addr: u16) -> (r: Result<(), CpuError>)
        ensures
            match call_spec(old(self)@, addr) {
                Ok(n) => r == Ok::<(), CpuError>(()) && final(self)@ == n,
                Err(e) => r == Err::<(), CpuError>(e) && final(self)@ == old(self)@,
            },
    {
        proof {
            use_type_invariant(&*self);
        }
        let sp = self.stack_pointer;
        if sp >= STACK_CAPACITY {
            return Err(CpuError::StackOverflow);
        }
        self.stack[sp] = self.program_counter;
        self.stack_pointer = sp + 1;
        self.program_counter = addr;
        assert(self@.stack =~= old(self)@.stack.push(old(self)@.pc));
        Ok(())
    }

    /// Pops the newest return address into the program counter. On an empty
    /// stack nothing changes and `StackUnderflow` comes back.
    pub fn ret(&mut self) -> (r: Result<(), CpuError>)
        ensures
            match ret_spec(old(self)@) {
                Ok(n) => r == Ok::<(), CpuError>(()) && final(self)@ == n,
                Err(e) => r == Err::<(), CpuError>(e) && final(self)@ == old(self)@,
            },
    {
        proof {
            use_type_invariant(&*self);
        }
        if self.stack_pointer == 0 {
            return Err(CpuError::StackUnderflow);
        }
        let sp = self.stack_pointer - 1;
        self.stack_pointer = sp;
        self.program_counter = self.stack[sp];
        assert(self@.stack =~= old(self)@.stack.drop_last());
        Ok(())
    }

    /// The big-endian word at the program counter, high byte first.
    pub fn read_opcode(&self) -> (op: u16)
        requires
            can_fetch(self@.pc),
        ensures
            op == word_at(self@.memory, self@.pc),
    {
        let p = self.program_counter as usize;
        let hi = self.memory[p];
        let lo = self.memory[p + 1];
        assert(((hi as u16) << 8) | (lo as u16) == hi * 256 + lo) by (bit_vector);
        ((hi as u16) << 8) | (lo as u16)
    }

    /// One fetch-decode-execute cycle: fetches the word at the program
    /// counter, moves the counter past it, then runs the matching handler.
    pub fn step(&mut self) -> (r: Result<Status, CpuError>)
        ensures
            (r, final(self)@) == step_spec(old(self)@),
    {
        proof {
            use_type_invariant(&*self);
        }
        let pc = self.program_counter;
        if pc as usize + 1 >= MEMORY_SIZE {
            return Err(CpuError::ProgramCounterOutOfRange(pc));
        }
        let op = self.read_opcode();
        self.program_counter = pc + 2;
        match decode_instruction(op) {
            None => Err(CpuError::UnimplementedOpcode(op)),
            Some(Instruction::Halt) => Ok(Status::Halted),
            Some(Instruction::Return) => match self.ret() {
                Ok(()) => Ok(Status::Running),
                Err(e) => Err(e),
            },
            Some(Instruction::Call { addr }) => match self.call(addr) {
                Ok(()) => Ok(Status::Running),
                Err(e) => Err(e),
            },
            Some(Instruction::AddXY { x, y }) => {
                self.add_xy(x, y);
                Ok(Status::Running)
            },
        }
    }

    /// Runs cycles until one halts or fails, or until `max_steps` cycles have
    /// run; `Running` means the budget ran out first.
    pub fn run_steps(&mut self, max_steps: u64) -> (r: Result<Status, CpuError>)
        ensures
            (r, final(self)@) == run_spec(old(self)@, max_steps as nat),
    {
        let mut done: u64 = 0;
        while done < max_steps
            invariant
                done <= max_steps,
                run_spec(old(self)@, max_steps as nat) == run_spec(self@, (max_steps - done) as nat),
            decreases max_steps - done,
        {
            let r = self.step();
            match r {
                Ok(Status::Running) => {},
                _ => {
                    return r;
                },
            }
            done = done + 1;
        }
        Ok(Status::Running)
    }

    /// Runs the program until it halts or fails. The cycle budget is
    /// `u64::MAX`, beyond any run that completes in practice; `Running` comes
    /// back only once it is spent.
    pub fn run(&mut self) -> (r: Result<Status, CpuError>)
        ensures
            (r, final(self)@) == run_spec(old(self)@, u64::MAX as nat),
    {
        self.run_steps(u64::MAX)
    }

    /// Writes `bytes` into memory from address `at` on. Where they would not
    /// fit, nothing changes and `LoadOutOfRange` comes back.
    pub fn load(&mut self, at: usize, bytes: &[u8]) -> (r: Result<(), CpuError>)
        ensures
            at + bytes@.len() <= MEMORY_SIZE ==> r == Ok::<(), CpuError>(()) && final(self)@
                == (CpuModel { memory: loaded(old(self)@.memory, at as int, bytes@), ..old(self)@ }),
            at + bytes@.len() > MEMORY_SIZE ==> r == Err::<(), CpuError>(CpuError::LoadOutOfRange)
                && final(self)@ == old(self)@,
    {
        proof {
            use_type_invariant(&*self);
        }
        let n = bytes.len();
        if at > MEMORY_SIZE || n > MEMORY_SIZE - at {
            return Err(CpuError::LoadOutOfRange);
        }
        let mut i: usize = 0;
        while i < n
            invariant
                n == bytes@.len(),
                at + n <= MEMORY_SIZE,
                i <= n,
                self.stack_pointer <= STACK_CAPACITY,
                self@.registers == old(self)@.registers,
                self@.stack == old(self)@.stack,
                self@.pc == old(self)@.pc,
                self@.memory.len() == MEMORY_SIZE,
                forall|j: int|
                    0 <= j < MEMORY_SIZE ==> #[trigger] self@.memory[j] == if at <= j < at + i {
                        bytes@[j - at]
                    } else {
                        old(self)@.memory[j]
                    },
            decreases n - i,
        {
            self.memory[at + i] = bytes[i];
            i = i + 1;
        }
        assert(self@.memory =~= loaded(old(self)@.memory, at as int, bytes@));
        Ok(())
    }

    /// Register `i`.
    pub fn register(&self, i: usize) -> (r: u8)
        requires
            i < REGISTER_COUNT,
        ensures
            r == self@.registers[i as int],
    {
        self.registers[i]
    }

    /// Sets register `i` to `value`; nothing else changes.
    pub fn set_register(&mut self, i: usize, value: u8)
        requires
            i < REGISTER_COUNT,
        ensures
            final(self)@ == (CpuModel {
                registers: old(self)@.registers.update(i as int, value),
                ..old(self)@
            }),
    {
        proof {
            use_type_invariant(&*self);
        }
        self.registers[i] = value;
    }

    /// The byte at address `addr`.
    pub fn memory_byte(&self, addr: usize) -> (r: u8)
        requires
            addr < MEMORY_SIZE,
        ensures
            r == self@.memory[addr as int],
    {
        self.memory[addr]
    }

    /// The address of the next instruction to fetch.
    pub fn program_counter(&self) -> (r: u16)
        ensures
            r == self@.pc,
    {
        self.program_counter
    }

    /// Moves the program counter to `pc`; nothing else changes.
    pub fn set_program_counter(&mut self, pc: u16)
        ensures
            final(self)@ == old(self)@.with_pc(pc),
    {
        proof {
            use_type_invariant(&*self);
        }
        self.program_counter = pc;
    }

    /// The number of return addresses on the call stack.
    pub fn stack_depth(&self) -> (r: usize)
        ensures
            r == self@.stack.len(),
    {
        proof {
            use_type_invariant(self);
        }
        self.stack_pointer
    }

    /// The return address at depth `i`, the oldest at 0.
    pub fn stack_entry(&self, i: usize) -> (r: u16)
        requires
            i < self@.stack.len(),
        ensures
            r == self@.stack[i as int],
    {
        proof {
            use_type_invariant(self);
        }
        self.stack[i]
    }
}

impl Default for CPU {
    /// The same machine as [`CPU::new`].
    fn default() -> (r: CPU)
        ensures
            r@.registers == Seq::new(16, |i: int| 0u8),
            r@.memory == Seq::new(0x1000, |i: int| 0u8),
            r@.stack == Seq::<u16>::empty(),
            r@.pc == 0,
    {
        CPU::new()
    }
}

} // verus!
