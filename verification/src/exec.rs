//! The executable machine.
//!
//! An `Executor` owns the running program, the registers, the memory, the file
//! store and the text printed so far. `step` carries out one instruction and
//! `run` a bounded number of them; both do to the executor exactly what the
//! model in `machine` does to its view.

use crate::decode::{opcode_of, operand_slot_of, resolve_operand};
use crate::laws::law_run_goes_on_after_skipped_fault;
use crate::machine::{
    arithmetic, comment_close, dump_memory, dump_name, dump_register, dump_registers, dump_text, Caller,
    Fault, Machine, Opcode, Operand, Outcome, Register, Slot, Trap, DEFAULT_MAX_DEPTH, MEM_SIZE,
    RESERVED_MIN_MEM_ADDR,
};
use crate::text::{decode_lossy, push_decimal};
use crate::tokenizer::{texts, try_parse_asm, Assembly, LabelTable, Program};
use crate::vfs::VFS;
use vstd::prelude::*;
use vstd::string::StringExecFns;

verus! {

/// A suspended program and where it goes on.
struct Frame {
    tokens: Vec<String>,
    label_table: LabelTable,
    resume: usize,
}

impl View for Frame {
    type V = Caller;

    closed spec fn view(&self) -> Caller {
        Caller {
            program: Program { tokens: texts(self.tokens@), labels: self.label_table@ },
            resume: self.resume as int,
        }
    }
}

/// The name a register goes by in a dump.
fn dump_name_of(r: usize) -> (name: &'static str)
    ensures
        name@ == dump_name(r as int),
{
    if r == 0 {
        "RAX"
    } else if r == 1 {
        "RBX"
    } else if r == 2 {
        "RCX"
    } else {
        "RDX"
    }
}

/// Appends the dump of the registers and the memory to `out`.
pub fn push_dump(out: &mut String, registers: &[u8; 4], mem: &[u8; MEM_SIZE])
    ensures
        final(out)@ == old(out)@ + dump_text(registers@, mem@),
{
    out.append("!!! DUMPED !!!\n  Registers:\n");
    let ghost head = old(out)@ + "!!! DUMPED !!!\n  Registers:\n"@;
    let mut r: usize = 0;
    while r < 4
        invariant
            r <= 4,
            out@ == head + dump_registers(registers@, mem@, r as int),
        decreases 4 - r,
    {
        let value = registers[r];
        let cell = mem[value as usize];
        out.append("    ");
        out.append(dump_name_of(r));
        out.append(": ");
        push_decimal(out, value as usize);
        out.append("\n      *");
        out.append(dump_name_of(r));
        out.append(": ");
        push_decimal(out, cell as usize);
        out.append("\n");
        r += 1;
    }
    out.append("  Memory:\n");
    let ghost mid = head + dump_registers(registers@, mem@, 4) + "  Memory:\n"@;
    let mut i: usize = 0;
    while i < MEM_SIZE
        invariant
            i <= MEM_SIZE,
            out@ == mid + dump_memory(mem@, i as int),
        decreases MEM_SIZE - i,
    {
        out.append("    ");
        push_decimal(out, i);
        out.append(": ");
        push_decimal(out, mem[i] as usize);
        out.append("\n");
        i += 1;
    }
}

/// Copies `bytes` into `mem`, first byte at `start`.
fn copy_into(mem: &mut [u8; MEM_SIZE], start: usize, bytes: &Vec<u8>)
    requires
        start + bytes.len() <= MEM_SIZE,
    ensures
        final(mem)@ == old(mem)@.take(start as int) + bytes@ + old(mem)@.skip(start + bytes.len()),
{
    let mut i: usize = 0;
    while i < bytes.len()
        invariant
            i <= bytes.len(),
            start + bytes.len() <= MEM_SIZE,
            mem@ == old(mem)@.take(start as int) + bytes@.take(i as int) + old(mem)@.skip(start + i),
        decreases bytes.len() - i,
    {
        mem[start + i] = bytes[i];
        i += 1;
    }
}

/// The machine.
pub struct Executor {
    index: usize,
    tokens: Vec<String>,
    label_table: LabelTable,
    vfs: VFS,
    registers: [u8; 4],
    mem: [u8; MEM_SIZE],
    frames: Vec<Frame>,
    output: String,
    continue_after_fault: bool,
    max_depth: usize,
}

impl View for Executor {
    type V = Machine;

    closed spec fn view(&self) -> Machine {
        Machine {
            program: Program { tokens: texts(self.tokens@), labels: self.label_table@ },
            pointer: self.index as int,
            registers: self.registers@,
            memory: self.mem@,
            callers: self.frames@.map_values(|f: Frame| f@),
            vfs: self.vfs@,
            output: self.output@,
            continue_after_fault: self.continue_after_fault,
            max_depth: self.max_depth as int,
        }
    }
}

impl Executor {
    /// A machine about to run `vasm`, with the strict fault policy and the
    /// default limit on nesting.
    pub fn new(vasm: Assembly, vfs: VFS) -> (exec: Self)
        ensures
            exec@ == Machine::boot(vasm@, vfs@, false, DEFAULT_MAX_DEPTH as int),
    {
        Self::with_policy(vasm, vfs, false, DEFAULT_MAX_DEPTH)
    }

    /// A machine about to run `vasm` under the given fault policy, with room
    /// for `max_depth` suspended programs.
    pub fn with_policy(vasm: Assembly, vfs: VFS, continue_after_fault: bool, max_depth: usize) -> (exec:
        Self)
        ensures
            exec@ == Machine::boot(vasm@, vfs@, continue_after_fault, max_depth as int),
    {
        let exec = Executor {
            index: 0,
            tokens: vasm.tokens,
            label_table: vasm.label_table,
            vfs,
            registers: [0u8; 4],
            mem: [0u8; MEM_SIZE],
            frames: Vec::new(),
            output: String::new(),
            continue_after_fault,
            max_depth,
        };
        assert(exec@.registers =~= Seq::new(4, |i: int| 0u8));
        assert(exec@.memory =~= Seq::new(MEM_SIZE as nat, |i: int| 0u8));
        assert(exec@.callers =~= Seq::empty());
        exec
    }

    /// Every executor's state is well formed.
    pub proof fn law_state_is_well_formed(&self)
        ensures
            self@.wf(),
    {
    }

    /// The instruction pointer.
    pub fn pointer(&self) -> (p: usize)
        ensures
            p == self@.pointer,
    {
        self.index
    }

    /// The value of a register.
    pub fn register(&self, r: Register) -> (value: u8)
        ensures
            value == self@.registers[r.index()],
    {
        self.registers[r.position()]
    }

    /// The whole memory.
    pub fn memory(&self) -> (mem: &[u8; MEM_SIZE])
        ensures
            mem@ == self@.memory,
    {
        &self.mem
    }

    /// The text printed and not yet taken.
    pub fn output(&self) -> (text: &str)
        ensures
            text@ == self@.output,
    {
        self.output.as_str()
    }

    /// Takes the text printed so far, leaving none.
    pub fn take_output(&mut self) -> (text: String)
        ensures
            text@ == old(self)@.output,
            final(self)@ == (Machine { output: Seq::empty(), ..old(self)@ }),
    {
        let mut text = String::new();
        std::mem::swap(&mut self.output, &mut text);
        text
    }

    /// The number of programs suspended by `vrlx`.
    pub fn depth(&self) -> (n: usize)
        ensures
            n == self@.callers.len(),
    {
        self.frames.len()
    }

    /// The most programs that may be suspended at once.
    pub fn max_depth(&self) -> (n: usize)
        ensures
            n == self@.max_depth,
    {
        self.max_depth
    }

    /// The file store.
    pub fn vfs(&self) -> (vfs: &VFS)
        ensures
            vfs@ == self@.vfs,
    {
        &self.vfs
    }

    /// Whether a fault is reported and skipped rather than stopping the
    /// machine.
    pub fn continues_after_fault(&self) -> (on: bool)
        ensures
            on == self@.continue_after_fault,
    {
        self.continue_after_fault
    }

    /// Sets the fault policy.
    pub fn set_continue_after_fault(&mut self, on: bool)
        ensures
            final(self)@ == (Machine { continue_after_fault: on, ..old(self)@ }),
    {
        self.continue_after_fault = on;
    }

    /// Whether nothing is left to do.
    pub fn is_finished(&self) -> (done: bool)
        ensures
            done == self@.finished(),
    {
        self.index >= self.tokens.len() && self.frames.len() == 0
    }

    /// The operand `k` tokens after the opcode, as `slot` reads it.
    fn operand(&self, k: usize, slot: Slot) -> (r: Result<Operand, Trap>)
        requires
            self@.pointer < self@.len(),
        ensures
            r == self@.operand(k as int, slot),
    {
        let left: usize = self.tokens.len() - self.index;
        if k < left {
            resolve_operand(self.tokens[self.index + k].as_str(), slot, &self.label_table)
        } else {
            Err(Trap::Truncated)
        }
    }

    /// The byte in the cell at `address`.
    pub fn peek(&self, address: usize) -> (r: Result<u8, Fault>)
        ensures
            r == self@.peek(address as int),
    {
        if address >= RESERVED_MIN_MEM_ADDR && address < MEM_SIZE {
            Ok(self.mem[address])
        } else {
            Err(Fault::OutOfBounds { address })
        }
    }

    /// Puts `value` in the cell at `address`.
    fn poke(&mut self, address: usize, value: u8) -> (r: Result<(), Fault>)
        ensures
            match old(self)@.poke(address as int, value) {
                Ok(m) => r is Ok && final(self)@ == m,
                Err(f) => r == Err::<(), Fault>(f) && final(self)@ == old(self)@,
            },
    {
        if address >= RESERVED_MIN_MEM_ADDR && address < MEM_SIZE {
            self.mem[address] = value;
            Ok(())
        } else {
            Err(Fault::OutOfBounds { address })
        }
    }

    /// The byte an operand stands for.
    fn load(&self, operand: Operand) -> (r: Result<u8, Fault>)
        ensures
            r == self@.load(operand),
    {
        match operand {
            Operand::Register(r) => Ok(self.registers[r.position()]),
            Operand::MemoryDirect(a) => self.peek(a),
            Operand::MemoryIndirect(r) => self.peek(self.registers[r.position()] as usize),
            Operand::Immediate(b) => Ok(b),
            Operand::Label(_) => Ok(0),
        }
    }

    /// Puts `value` where an operand points.
    fn store(&mut self, operand: Operand, value: u8) -> (r: Result<(), Fault>)
        ensures
            match old(self)@.store(operand, value) {
                Ok(m) => r is Ok && final(self)@ == m,
                Err(f) => r == Err::<(), Fault>(f) && final(self)@ == old(self)@,
            },
    {
        match operand {
            Operand::Register(r) => {
                self.registers[r.position()] = value;
                Ok(())
            },
            Operand::MemoryDirect(a) => self.poke(a, value),
            Operand::MemoryIndirect(r) => {
                let a = self.registers[r.position()] as usize;
                self.poke(a, value)
            },
            _ => Ok(()),
        }
    }
    /// Moves the pointer to `target`.
    fn jump(&mut self, target: usize) -> (o: Outcome)
        ensures
            final(self)@ == old(self)@.jump(target as int).0,
            o == old(self)@.jump(target as int).1,
    {
        self.index = target;
        Outcome::Running
    }

    /// Moves the pointer past an instruction of `n` tokens.
    fn advance(&mut self, n: usize) -> (o: Outcome)
        requires
            old(self)@.pointer + n <= old(self)@.len(),
        ensures
            final(self)@ == old(self)@.advance(n as int).0,
            o == old(self)@.advance(n as int).1,
    {
        assert(self.index + n <= self.tokens.len());
        self.index += n;
        Outcome::Running
    }

    /// Moves the pointer past `n` tokens, or to the end if fewer are left.
    fn skip(&mut self, n: usize) -> (o: Outcome)
        requires
            old(self)@.pointer <= old(self)@.len(),
        ensures
            final(self)@ == old(self)@.skip(n as int).0,
            o == old(self)@.skip(n as int).1,
    {
        let left: usize = self.tokens.len() - self.index;
        if n <= left {
            self.index += n;
        } else {
            self.index = self.tokens.len();
        }
        Outcome::Running
    }

    /// What the machine says of a fault raised by the current instruction.
    pub fn fault_cause(&self, fault: Fault) -> (cause: String)
        ensures
            cause@ == self@.fault_cause(fault),
    {
        let mut s = String::new();
        match fault {
            Fault::Requested => {
                s.append("Fault requested by instr #");
                push_decimal(&mut s, self.index);
                s.append(".");
            },
            Fault::OutOfBounds { address } => {
                s.append("Segmentation fault - Accessed memory out of bounds. Address: ");
                push_decimal(&mut s, address);
                s.append(". Instr #");
                push_decimal(&mut s, self.index);
            },
            Fault::UnknownInstruction => {
                s.append("Unrecognized instruction `");
                if self.index < self.tokens.len() {
                    s.append(self.tokens[self.index].as_str());
                }
                s.append("` at instr #");
                push_decimal(&mut s, self.index);
            },
            Fault::CopyOverflow => {
                s.append("SEGMENTATION FAULT - FAILED TO READ FILE INTO INVALID MEMORY");
            },
        }
        s
    }

    /// The index of the first operand token of `op`, from the `k`-th on, that
    /// is none of the forms its position admits.
    fn culprit(&self, op: Opcode) -> (r: Option<usize>)
        requires
            self@.pointer < self@.len(),
        ensures
            match r {
                Some(i) => i < self@.len() && self@.culprit(op, 1) == self@.program.tokens[i as int],
                None => self@.culprit(op, 1) == Seq::<char>::empty(),
            },
    {
        let mut k: usize = 1;
        while k <= 3
            invariant
                1 <= k <= 4,
                self@.pointer < self@.len(),
                self@.culprit(op, 1) == self@.culprit(op, k as int),
            decreases 4 - k,
        {
            match operand_slot_of(op, k) {
                None => {
                    return None;
                },
                Some(slot) => match self.operand(k, slot) {
                    Ok(_) => {},
                    Err(Trap::Truncated) => {
                        return None;
                    },
                    Err(_) => {
                        assert(self.index + k < self.tokens.len());
                        return Some(self.index + k);
                    },
                },
            }
            k += 1;
        }
        None
    }

    /// What the machine says of a trap in the current instruction.
    pub fn trap_cause(&self, trap: Trap) -> (cause: String)
        ensures
            cause@ == self@.trap_cause(trap),
    {
        let mut s = String::new();
        let mut token = String::new();
        let mut opcode = String::new();
        if self.index < self.tokens.len() {
            opcode.append(self.tokens[self.index].as_str());
            if let Some(op) = opcode_of(self.tokens[self.index].as_str()) {
                if let Some(i) = self.culprit(op) {
                    token.append(self.tokens[i].as_str());
                }
            }
        }
        assert(opcode@ =~= self@.opcode_text());
        assert(token@ =~= match self@.opcode() {
            Some(op) => self@.culprit(op, 1),
            None => Seq::empty(),
        });
        match trap {
            Trap::Requested => {
                s.append("Panic requested by instruction set at instr #");
                push_decimal(&mut s, self.index);
            },
            Trap::Truncated => {
                s.append("Instruction `");
                s.append(opcode.as_str());
                s.append("` at instr #");
                push_decimal(&mut s, self.index);
                s.append(" lacks an operand.");
            },
            Trap::MalformedOperand => {
                s.append("Invalid token `");
                s.append(token.as_str());
                s.append("` after ");
                s.append(opcode.as_str());
                s.append(" instruction at instr #");
                push_decimal(&mut s, self.index);
            },
            Trap::UnknownRegister | Trap::NonRegisterOperand => {
                s.append("Unrecognized register `");
                s.append(token.as_str());
                s.append("` at instr #");
                push_decimal(&mut s, self.index);
            },
            Trap::UndefinedLabel => {
                s.append("Invalid label ");
                s.append(token.as_str());
                s.append(" at instr #");
                push_decimal(&mut s, self.index);
                s.append(".");
            },
            Trap::UnterminatedComment => {
                s.append("EOF after comment without closing.");
            },
            Trap::DivisionByZero => {
                s.append("Division by zero at instr #");
                push_decimal(&mut s, self.index);
                s.append(".");
            },
            Trap::MissingFile => {
                s.append("Failed to read file at instr #");
                push_decimal(&mut s, self.index);
                s.append(".");
            },
            Trap::BadProgram(_) => {
                s.append("Failed to parse label table - corrupted binary?");
            },
            Trap::NestingTooDeep => {
                s.append("Too many nested programs at instr #");
                push_decimal(&mut s, self.index);
                s.append(".");
            },
        }
        assert(s@ =~= self@.trap_cause(trap));
        s
    }

    /// Raises a fault in an instruction of `n` tokens.
    fn raise(&mut self, fault: Fault, n: usize) -> (o: Outcome)
        requires
            old(self)@.pointer + n <= old(self)@.len(),
        ensures
            final(self)@ == old(self)@.raise(fault, n as int).0,
            o == old(self)@.raise(fault, n as int).1,
    {
        if self.continue_after_fault {
            let cause = self.fault_cause(fault);
            self.output.append("!!! FAULTED !!!\n  Cause: ");
            self.output.append(cause.as_str());
            self.output.append("\n");
            assert(self.index + n <= self.tokens.len());
            self.index += n;
            assert(self@.output =~= old(self)@.output + old(self)@.fault_report(fault));
            Outcome::Recovered(fault)
        } else {
            Outcome::Faulted(fault)
        }
    }

    /// `memset` and `mov`.
    fn step_move(&mut self, dest: Slot, src: Slot) -> (o: Outcome)
        requires
            old(self)@.pointer < old(self)@.len(),
        ensures
            final(self)@ == old(self)@.step_move(dest, src).0,
            o == old(self)@.step_move(dest, src).1,
    {
        let to = match self.operand(1, dest) {
            Ok(x) => x,
            Err(t) => {
                return Outcome::Panicked(t);
            },
        };
        let from = match self.operand(2, src) {
            Ok(x) => x,
            Err(t) => {
                return Outcome::Panicked(t);
            },
        };
        let value = match self.load(from) {
            Ok(v) => v,
            Err(f) => {
                return self.raise(f, 3);
            },
        };
        match self.store(to, value) {
            Ok(()) => self.advance(3),
            Err(f) => self.raise(f, 3),
        }
    }

    /// `add`, `sub`, `mul`, `div`.
    fn step_arithmetic(&mut self, op: Opcode) -> (o: Outcome)
        requires
            old(self)@.pointer < old(self)@.len(),
        ensures
            final(self)@ == old(self)@.step_arithmetic(op).0,
            o == old(self)@.step_arithmetic(op).1,
    {
        let first = match self.operand(1, Slot::Arithmetic) {
            Ok(x) => x,
            Err(t) => {
                return Outcome::Panicked(t);
            },
        };
        let second = match self.operand(2, Slot::Arithmetic) {
            Ok(x) => x,
            Err(t) => {
                return Outcome::Panicked(t);
            },
        };
        let to = match self.operand(3, Slot::Arithmetic) {
            Ok(x) => x,
            Err(t) => {
                return Outcome::Panicked(t);
            },
        };
        let a = match self.load(first) {
            Ok(v) => v,
            Err(f) => {
                return self.raise(f, 4);
            },
        };
        let b = match self.load(second) {
            Ok(v) => v,
            Err(f) => {
                return self.raise(f, 4);
            },
        };
        let value = match compute(op, a, b) {
            Some(v) => v,
            None => {
                return Outcome::Panicked(Trap::DivisionByZero);
            },
        };
        match self.store(to, value) {
            Ok(()) => self.advance(4),
            Err(f) => self.raise(f, 4),
        }
    }

    /// `grt`, `lt`, `eq`.
    fn step_compare(&mut self, op: Opcode, slot: Slot) -> (o: Outcome)
        requires
            old(self)@.pointer < old(self)@.len(),
        ensures
            final(self)@ == old(self)@.step_compare(op, slot).0,
            o == old(self)@.step_compare(op, slot).1,
    {
        let to = match self.operand(1, slot) {
            Ok(x) => x,
            Err(t) => {
                return Outcome::Panicked(t);
            },
        };
        let left = match self.operand(2, slot) {
            Ok(x) => x,
            Err(t) => {
                return Outcome::Panicked(t);
            },
        };
        let right = match self.operand(3, slot) {
            Ok(x) => x,
            Err(t) => {
                return Outcome::Panicked(t);
            },
        };
        let lhs = match self.load(left) {
            Ok(v) => v,
            Err(f) => {
                return self.raise(f, 4);
            },
        };
        let rhs = match self.load(right) {
            Ok(v) => v,
            Err(f) => {
                return self.raise(f, 4);
            },
        };
        let holds = match op {
            Opcode::Grt => rhs > lhs,
            Opcode::Lt => rhs < lhs,
            _ => rhs == lhs,
        };
        let value: u8 = if holds {
            1
        } else {
            0
        };
        match self.store(to, value) {
            Ok(()) => self.advance(4),
            Err(f) => self.raise(f, 4),
        }
    }

    /// `goto`.
    fn step_goto(&mut self) -> (o: Outcome)
        requires
            old(self)@.pointer < old(self)@.len(),
        ensures
            final(self)@ == old(self)@.step_goto().0,
            o == old(self)@.step_goto().1,
    {
        match self.operand(1, Slot::Target) {
            Err(t) => Outcome::Panicked(t),
            Ok(Operand::Label(target)) => self.jump(target),
            Ok(target) => match self.load(target) {
                Err(f) => self.raise(f, 2),
                Ok(index) => self.jump(index as usize),
            },
        }
    }

    /// `cgt`.
    fn step_cgt(&mut self) -> (o: Outcome)
        requires
            old(self)@.pointer < old(self)@.len(),
        ensures
            final(self)@ == old(self)@.step_cgt().0,
            o == old(self)@.step_cgt().1,
    {
        let condition = match self.operand(1, Slot::Register) {
            Ok(x) => x,
            Err(t) => {
                return Outcome::Panicked(t);
            },
        };
        let value = match self.load(condition) {
            Ok(v) => v,
            Err(f) => {
                return self.raise(f, 3);
            },
        };
        if value > 0 {
            match self.operand(2, Slot::Label) {
                Ok(Operand::Label(target)) => self.jump(target),
                Ok(_) => Outcome::Panicked(Trap::UndefinedLabel),
                Err(t) => Outcome::Panicked(t),
            }
        } else {
            self.skip(3)
        }
    }

    /// `inv`.
    fn step_inv(&mut self) -> (o: Outcome)
        requires
            old(self)@.pointer < old(self)@.len(),
        ensures
            final(self)@ == old(self)@.step_inv().0,
            o == old(self)@.step_inv().1,
    {
        let r = match self.operand(1, Slot::Register) {
            Ok(x) => x,
            Err(t) => {
                return Outcome::Panicked(t);
            },
        };
        let value = match self.load(r) {
            Ok(v) => v,
            Err(f) => {
                return self.raise(f, 2);
            },
        };
        let inverted: u8 = if value == 0 {
            1
        } else {
            0
        };
        match self.store(r, inverted) {
            Ok(()) => self.advance(2),
            Err(f) => self.raise(f, 2),
        }
    }

    /// `outstr` and `outbyte`.
    fn step_out(&mut self, as_number: bool) -> (o: Outcome)
        requires
            old(self)@.pointer < old(self)@.len(),
        ensures
            final(self)@ == old(self)@.step_out(as_number).0,
            o == old(self)@.step_out(as_number).1,
    {
        let what = match self.operand(1, Slot::Value) {
            Ok(x) => x,
            Err(t) => {
                return Outcome::Panicked(t);
            },
        };
        let byte = match self.load(what) {
            Ok(v) => v,
            Err(f) => {
                return self.raise(f, 2);
            },
        };
        if as_number {
            push_decimal(&mut self.output, byte as usize);
        } else {
            let one: [u8; 1] = [byte];
            let text = decode_lossy(one.as_slice());
            self.output.append(text.as_str());
        }
        self.advance(2)
    }

    /// `vfsr`.
    fn step_vfsr(&mut self) -> (o: Outcome)
        requires
            old(self)@.pointer < old(self)@.len(),
        ensures
            final(self)@ == old(self)@.step_vfsr().0,
            o == old(self)@.step_vfsr().1,
    {
        let pointer = match self.operand(1, Slot::Pointer) {
            Ok(x) => x,
            Err(t) => {
                return Outcome::Panicked(t);
            },
        };
        let file = match self.operand(2, Slot::Byte) {
            Ok(x) => x,
            Err(t) => {
                return Outcome::Panicked(t);
            },
        };
        let start: usize = match pointer {
            Operand::Register(r) => self.registers[r.position()] as usize,
            Operand::MemoryDirect(a) => a,
            _ => 0,
        };
        let id: u8 = match file {
            Operand::Immediate(b) => b,
            _ => 0,
        };
        let fits = match self.vfs.read_file(id) {
            Err(_) => {
                return Outcome::Panicked(Trap::MissingFile);
            },
            Ok(f) => {
                if start < RESERVED_MIN_MEM_ADDR || start > MEM_SIZE || f.contents.len() > MEM_SIZE
                    - start {
                    false
                } else {
                    copy_into(&mut self.mem, start, &f.contents);
                    true
                }
            },
        };
        if fits {
            self.advance(3)
        } else {
            self.raise(Fault::CopyOverflow, 3)
        }
    }

    /// `vrlx`.
    fn step_vrlx(&mut self) -> (o: Outcome)
        requires
            old(self)@.pointer < old(self)@.len(),
        ensures
            final(self)@ == old(self)@.step_vrlx().0,
            o == old(self)@.step_vrlx().1,
    {
        let file = match self.operand(1, Slot::Byte) {
            Ok(x) => x,
            Err(t) => {
                return Outcome::Panicked(t);
            },
        };
        let id: u8 = match file {
            Operand::Immediate(b) => b,
            _ => 0,
        };
        let text = match self.vfs.read_file(id) {
            Err(_) => {
                return Outcome::Panicked(Trap::MissingFile);
            },
            Ok(f) => {
                if self.frames.len() >= self.max_depth {
                    return Outcome::Panicked(Trap::NestingTooDeep);
                }
                decode_lossy(f.contents.as_slice())
            },
        };
        match try_parse_asm(text.as_str()) {
            Err(e) => Outcome::Panicked(Trap::BadProgram(e)),
            Ok(program) => {
                assert(self.index + 2 <= self.tokens.len());
                let resume: usize = self.index + 2;
                let mut tokens = program.tokens;
                let mut label_table = program.label_table;
                std::mem::swap(&mut self.tokens, &mut tokens);
                std::mem::swap(&mut self.label_table, &mut label_table);
                let frame = Frame { tokens, label_table, resume };
                self.frames.push(frame);
                self.index = 0;
                assert(self@.callers =~= old(self)@.callers.push(frame@));
                Outcome::Running
            },
        }
    }

    /// The index of the `//` that closes a comment, looking from `from` on.
    fn find_comment_close(&self, from: usize) -> (r: Option<usize>)
        ensures
            match r {
                Some(j) => comment_close(self@.program.tokens, from as int) == Some(j as int) && j
                    < self@.len(),
                None => comment_close(self@.program.tokens, from as int) is None,
            },
    {
        let mut j: usize = from;
        while j < self.tokens.len()
            invariant
                from <= j,
                comment_close(self@.program.tokens, from as int) == comment_close(
                    self@.program.tokens,
                    j as int,
                ),
            decreases self.tokens.len() - j,
        {
            if self.tokens[j].as_str().eq("//") {
                return Some(j);
            }
            j += 1;
        }
        None
    }

    /// `//`.
    fn step_comment(&mut self) -> (o: Outcome)
        requires
            old(self)@.pointer < old(self)@.len(),
        ensures
            final(self)@ == old(self)@.step_comment().0,
            o == old(self)@.step_comment().1,
    {
        assert(self.index < self.tokens.len());
        match self.find_comment_close(self.index + 1) {
            None => Outcome::Panicked(Trap::UnterminatedComment),
            Some(close) => self.jump(close + 1),
        }
    }

    /// The end of a program started by `vrlx`.
    fn step_return(&mut self) -> (o: Outcome)
        requires
            old(self)@.callers.len() > 0,
        ensures
            final(self)@ == old(self)@.step_return().0,
            o == old(self)@.step_return().1,
    {
        let frame = self.frames.pop().unwrap();
        self.tokens = frame.tokens;
        self.label_table = frame.label_table;
        self.index = frame.resume;
        assert(self@.callers =~= old(self)@.callers.drop_last());
        Outcome::Running
    }

    /// Carries out one instruction.
    pub fn step(&mut self) -> (o: Outcome)
        ensures
            final(self)@ == old(self)@.step().0,
            o == old(self)@.step().1,
    {
        if self.index >= self.tokens.len() {
            if self.frames.len() > 0 {
                return self.step_return();
            } else {
                return Outcome::Finished;
            }
        }
        match opcode_of(self.tokens[self.index].as_str()) {
            None => self.raise(Fault::UnknownInstruction, 1),
            Some(op) => match op {
                Opcode::Label => self.skip(2),
                Opcode::Dmp => {
                    push_dump(&mut self.output, &self.registers, &self.mem);
                    self.advance(1)
                },
                Opcode::Panic => Outcome::Panicked(Trap::Requested),
                Opcode::Fault => self.raise(Fault::Requested, 1),
                Opcode::Memset => self.step_move(Slot::Address, Slot::Byte),
                Opcode::Mov => self.step_move(Slot::Place, Slot::Place),
                Opcode::Add | Opcode::Sub | Opcode::Mul | Opcode::Div => self.step_arithmetic(op),
                Opcode::Goto => self.step_goto(),
                Opcode::Cgt => self.step_cgt(),
                Opcode::Grt | Opcode::Lt => self.step_compare(op, Slot::Register),
                Opcode::Eq => self.step_compare(op, Slot::Cell),
                Opcode::Outstr => self.step_out(false),
                Opcode::Outbyte => self.step_out(true),
                Opcode::Vfsr => self.step_vfsr(),
                Opcode::Comment => self.step_comment(),
                Opcode::Vrlx => self.step_vrlx(),
                Opcode::Inv => self.step_inv(),
            },
        }
    }

    /// Carries out up to `budget` instructions, stopping early when the
    /// machine finishes or stops. `Running` means the budget was spent first;
    /// call again to go on.
    ///
    /// A program may loop forever, and the machine does not look for that:
    /// such a program spends every budget and is `Running` after each call.
    pub fn run(&mut self, budget: u64) -> (o: Outcome)
        ensures
            final(self)@ == old(self)@.run(budget as nat).0,
            o == old(self)@.run(budget as nat).1,
            !(o is Recovered),
    {
        proof {
            law_run_goes_on_after_skipped_fault(old(self)@, budget as nat);
        }
        let mut left: u64 = budget;
        while left > 0
            invariant
                old(self)@.run(budget as nat) == self@.run(left as nat),
            decreases left,
        {
            let o = self.step();
            match o {
                Outcome::Running | Outcome::Recovered(_) => {},
                _ => {
                    return o;
                },
            }
            left -= 1;
        }
        Outcome::Running
    }
}

/// The arithmetic opcodes on bytes; `None` for a zero divisor.
pub fn compute(op: Opcode, a: u8, b: u8) -> (r: Option<u8>)
    ensures
        r == arithmetic(op, a, b),
{
    match op {
        Opcode::Add => Some(a.wrapping_add(b)),
        Opcode::Sub => Some(a.wrapping_sub(b)),
        Opcode::Mul => Some(a.wrapping_mul(b)),
        Opcode::Div => if b == 0 {
            None
        } else {
            Some(a / b)
        },
        _ => None,
    }
}

} // verus!
