//! The machine as a mathematical object: its state, the meaning of every
//! instruction, and what it is to run.
//!
//! A program is a sequence of tokens. The instruction pointer selects a token,
//! the token names an opcode, and the tokens that follow it are its operands.
//! Every operand passes through one resolver, `resolve`, which is told by a
//! `Slot` which forms the position admits.
//!
//! Two kinds of error exist. A `Trap` means the program itself is broken and
//! always stops the machine. A `Fault` is a run-time violation; the machine's
//! policy decides whether it stops the machine or is reported and skipped.

use crate::text::{byte_text, decimal, unsigned_literal, utf8_lossy};
use crate::tokenizer::{assemble, AsmError, Program};
use crate::vfs::VfsView;
use vstd::prelude::*;

verus! {

/// Number of byte cells in memory.
pub const MEM_SIZE: usize = 512;

/// Lowest address a program may touch. Addresses below it are reserved.
pub const RESERVED_MIN_MEM_ADDR: usize = 0;

/// How many programs may be suspended at once unless configured otherwise.
pub const DEFAULT_MAX_DEPTH: usize = 64;

/// The four registers. Programs write them `rax`, `rbx`, `rcx`, `rdx` or,
/// equivalently, `R0`, `R1`, `R2`, `R3`.
#[derive(Clone, Copy, Debug, PartialEq, Eq, Structural)]
pub enum Register {
    R0,
    R1,
    R2,
    R3,
}

impl Register {
    /// The register's place in the register file.
    pub open spec fn index(self) -> int {
        match self {
            Register::R0 => 0,
            Register::R1 => 1,
            Register::R2 => 2,
            Register::R3 => 3,
        }
    }
}

/// The instruction set.
#[derive(Clone, Copy, Debug, PartialEq, Eq, Structural)]
pub enum Opcode {
    Label,
    Dmp,
    Panic,
    Fault,
    Memset,
    Mov,
    Add,
    Sub,
    Mul,
    Div,
    Goto,
    Cgt,
    Grt,
    Lt,
    Eq,
    Outstr,
    Outbyte,
    Vfsr,
    Comment,
    Vrlx,
    Inv,
}

/// A run-time violation. Whether it stops the machine is a matter of policy.
#[derive(Clone, Copy, Debug, PartialEq, Eq, Structural)]
pub enum Fault {
    /// The program executed `fault`.
    Requested,
    /// A memory access outside `[RESERVED_MIN_MEM_ADDR, MEM_SIZE)`.
    OutOfBounds { address: usize },
    /// The token under the instruction pointer is no opcode.
    UnknownInstruction,
    /// `vfsr` was asked to copy a file to where it does not fit in memory.
    CopyOverflow,
}

/// A defect of the program. It always stops the machine.
#[derive(Clone, Copy, Debug, PartialEq, Eq, Structural)]
pub enum Trap {
    /// The program executed `panic`.
    Requested,
    /// The token stream ends where an operand is due.
    Truncated,
    /// An operand is neither of the forms its position admits.
    MalformedOperand,
    /// A register is due and the token names none.
    UnknownRegister,
    /// An arithmetic operand is not a plain register.
    NonRegisterOperand,
    /// A jump names a label that the label table lacks.
    UndefinedLabel,
    /// A comment is still open where the token stream ends.
    UnterminatedComment,
    /// `div` with a zero divisor.
    DivisionByZero,
    /// `vfsr` or `vrlx` names a file that the store lacks.
    MissingFile,
    /// `vrlx` names a file that does not assemble.
    BadProgram(AsmError),
    /// `vrlx` would suspend more programs than the machine allows.
    NestingTooDeep,
}

/// What one step, or a run, came to.
#[derive(Clone, Copy, Debug, PartialEq, Eq, Structural)]
pub enum Outcome {
    /// The machine moved on and has not reported the end.
    Running,
    /// A fault was raised, reported on the output and the faulting instruction
    /// skipped.
    Recovered(Fault),
    /// The instruction pointer is past the last token and no program is
    /// suspended. The state is as it was.
    Finished,
    /// A fault stopped the machine. The state is as it was.
    Faulted(Fault),
    /// A trap stopped the machine. The state is as it was.
    Panicked(Trap),
}

/// The forms an operand may take.
#[derive(Clone, Copy, Debug, PartialEq, Eq, Structural)]
pub enum Operand {
    /// A named register: the operand is the register itself.
    Register(Register),
    /// A literal address: the operand is that memory cell.
    MemoryDirect(usize),
    /// `*` before a register name: the operand is the memory cell whose
    /// address the register holds.
    MemoryIndirect(Register),
    /// A literal byte.
    Immediate(u8),
    /// A label, resolved to the token index it stands for.
    Label(usize),
}

/// How a token that is not taken as a register is read.
#[derive(Clone, Copy, Debug, PartialEq, Eq, Structural)]
pub enum Reading {
    /// It is not read at all: the position admits registers only.
    Nothing,
    /// As a literal address.
    Address,
    /// As a literal byte.
    Byte,
    /// As a label name.
    Label,
}

/// An operand position, by what it admits.
#[derive(Clone, Copy, Debug, PartialEq, Eq, Structural)]
pub enum Slot {
    /// A plain register (`cgt`, `grt`, `lt`, `inv`).
    Register,
    /// A plain register, as arithmetic demands.
    Arithmetic,
    /// A register or a register-indirect cell (`eq`).
    Cell,
    /// A register, a register-indirect cell or a literal address (`mov`).
    Place,
    /// A register, a register-indirect cell or a literal byte (`outstr`,
    /// `outbyte`).
    Value,
    /// A literal address (`memset`).
    Address,
    /// A literal byte (`memset`, file identifiers).
    Byte,
    /// A register or a literal address (`vfsr`).
    Pointer,
    /// A register or a label (`goto`).
    Target,
    /// A label (`cgt`).
    Label,
}

impl Slot {
    /// Whether a register name is taken as a register here.
    pub open spec fn takes_register(self) -> bool {
        !(self is Address || self is Byte || self is Label)
    }

    /// Whether `*` and a register name is taken as a register-indirect cell.
    pub open spec fn takes_indirect(self) -> bool {
        self is Cell || self is Place || self is Value
    }

    /// How any other token is read.
    pub open spec fn reading(self) -> Reading {
        match self {
            Slot::Place | Slot::Address | Slot::Pointer => Reading::Address,
            Slot::Value | Slot::Byte => Reading::Byte,
            Slot::Target | Slot::Label => Reading::Label,
            Slot::Register | Slot::Arithmetic | Slot::Cell => Reading::Nothing,
        }
    }

    /// The trap for a token that is none of the admitted forms.
    pub open spec fn refusal(self) -> Trap {
        match self {
            Slot::Register | Slot::Cell => Trap::UnknownRegister,
            Slot::Arithmetic => Trap::NonRegisterOperand,
            Slot::Target | Slot::Label => Trap::UndefinedLabel,
            _ => Trap::MalformedOperand,
        }
    }
}

/// The register that `t` names.
pub open spec fn register_named(t: Seq<char>) -> Option<Register> {
    if t == "rax"@ || t == "R0"@ {
        Some(Register::R0)
    } else if t == "rbx"@ || t == "R1"@ {
        Some(Register::R1)
    } else if t == "rcx"@ || t == "R2"@ {
        Some(Register::R2)
    } else if t == "rdx"@ || t == "R3"@ {
        Some(Register::R3)
    } else {
        None
    }
}

/// The register that `t` names behind a `*`.
pub open spec fn indirect_named(t: Seq<char>) -> Option<Register> {
    if t == "*rax"@ || t == "*R0"@ {
        Some(Register::R0)
    } else if t == "*rbx"@ || t == "*R1"@ {
        Some(Register::R1)
    } else if t == "*rcx"@ || t == "*R2"@ {
        Some(Register::R2)
    } else if t == "*rdx"@ || t == "*R3"@ {
        Some(Register::R3)
    } else {
        None
    }
}

/// The opcode that `t` names.
pub open spec fn opcode_named(t: Seq<char>) -> Option<Opcode> {
    if t == "label"@ {
        Some(Opcode::Label)
    } else if t == "dmp"@ {
        Some(Opcode::Dmp)
    } else if t == "panic"@ {
        Some(Opcode::Panic)
    } else if t == "fault"@ {
        Some(Opcode::Fault)
    } else if t == "memset"@ {
        Some(Opcode::Memset)
    } else if t == "mov"@ {
        Some(Opcode::Mov)
    } else if t == "add"@ {
        Some(Opcode::Add)
    } else if t == "sub"@ {
        Some(Opcode::Sub)
    } else if t == "mul"@ {
        Some(Opcode::Mul)
    } else if t == "div"@ {
        Some(Opcode::Div)
    } else if t == "goto"@ {
        Some(Opcode::Goto)
    } else if t == "cgt"@ {
        Some(Opcode::Cgt)
    } else if t == "grt"@ {
        Some(Opcode::Grt)
    } else if t == "lt"@ {
        Some(Opcode::Lt)
    } else if t == "eq"@ {
        Some(Opcode::Eq)
    } else if t == "outstr"@ {
        Some(Opcode::Outstr)
    } else if t == "outbyte"@ {
        Some(Opcode::Outbyte)
    } else if t == "vfsr"@ {
        Some(Opcode::Vfsr)
    } else if t == "//"@ {
        Some(Opcode::Comment)
    } else if t == "vrlx"@ {
        Some(Opcode::Vrlx)
    } else if t == "inv"@ {
        Some(Opcode::Inv)
    } else {
        None
    }
}

/// The one operand resolver. The forms are tried in a fixed order: register,
/// register-indirect cell, then the slot's reading of anything else. A form
/// that the slot does not admit is passed over, so a register name in a
/// position for labels is looked up as a label.
pub open spec fn resolve(token: Seq<char>, slot: Slot, labels: Map<Seq<char>, usize>) -> Result<
    Operand,
    Trap,
> {
    if slot.takes_register() && register_named(token) is Some {
        Ok(Operand::Register(register_named(token).unwrap()))
    } else if slot.takes_indirect() && indirect_named(token) is Some {
        Ok(Operand::MemoryIndirect(indirect_named(token).unwrap()))
    } else {
        match slot.reading() {
            Reading::Nothing => Err(slot.refusal()),
            Reading::Address => match unsigned_literal(token, usize::MAX as nat) {
                Some(a) => Ok(Operand::MemoryDirect(a as usize)),
                None => Err(slot.refusal()),
            },
            Reading::Byte => match unsigned_literal(token, u8::MAX as nat) {
                Some(b) => Ok(Operand::Immediate(b as u8)),
                None => Err(slot.refusal()),
            },
            Reading::Label => if labels.contains_key(token) {
                Ok(Operand::Label(labels[token]))
            } else {
                Err(slot.refusal())
            },
        }
    }
}

/// The position in which the `k`-th operand of `op` is read, for the
/// operands it has.
pub open spec fn operand_slot(op: Opcode, k: int) -> Option<Slot> {
    let slots: Seq<Slot> = match op {
        Opcode::Memset => seq![Slot::Address, Slot::Byte],
        Opcode::Mov => seq![Slot::Place, Slot::Place],
        Opcode::Add | Opcode::Sub | Opcode::Mul | Opcode::Div => seq![
            Slot::Arithmetic,
            Slot::Arithmetic,
            Slot::Arithmetic,
        ],
        Opcode::Goto => seq![Slot::Target],
        Opcode::Cgt => seq![Slot::Register, Slot::Label],
        Opcode::Grt | Opcode::Lt => seq![Slot::Register, Slot::Register, Slot::Register],
        Opcode::Eq => seq![Slot::Cell, Slot::Cell, Slot::Cell],
        Opcode::Outstr | Opcode::Outbyte => seq![Slot::Value],
        Opcode::Vfsr => seq![Slot::Pointer, Slot::Byte],
        Opcode::Vrlx => seq![Slot::Byte],
        Opcode::Inv => seq![Slot::Register],
        _ => Seq::empty(),
    };
    if 1 <= k <= slots.len() {
        Some(slots[k - 1])
    } else {
        None
    }
}

/// What the arithmetic opcodes compute: the result modulo 256. Division is
/// undefined for a zero divisor.
pub open spec fn arithmetic(op: Opcode, a: u8, b: u8) -> Option<u8> {
    match op {
        Opcode::Add => Some(((a + b) % 256) as u8),
        Opcode::Sub => Some(((a - b) % 256) as u8),
        Opcode::Mul => Some(((a * b) % 256) as u8),
        Opcode::Div => if b == 0 {
            None
        } else {
            Some((a / b) as u8)
        },
        _ => None,
    }
}

/// What the comparison opcodes compute. `grt` and `lt` compare the right
/// operand against the left one.
pub open spec fn comparison(op: Opcode, lhs: u8, rhs: u8) -> bool {
    match op {
        Opcode::Grt => rhs > lhs,
        Opcode::Lt => rhs < lhs,
        _ => rhs == lhs,
    }
}

/// A truth value as a byte.
pub open spec fn flag(b: bool) -> u8 {
    if b {
        1
    } else {
        0
    }
}

/// The first index at or after `from` that holds the comment marker.
pub open spec fn comment_close(tokens: Seq<Seq<char>>, from: int) -> Option<int>
    decreases tokens.len() - from,
{
    if from < 0 || from >= tokens.len() {
        None
    } else if tokens[from] == "//"@ {
        Some(from)
    } else {
        comment_close(tokens, from + 1)
    }
}

/// The name a register goes by in a dump.
pub open spec fn dump_name(r: int) -> Seq<char> {
    if r == 0 {
        "RAX"@
    } else if r == 1 {
        "RBX"@
    } else if r == 2 {
        "RCX"@
    } else {
        "RDX"@
    }
}

/// The two dump lines of register `r`: its value, then the memory cell the
/// value addresses.
pub open spec fn dump_register(r: int, value: u8, cell: u8) -> Seq<char> {
    "    "@ + dump_name(r) + ": "@ + decimal(value as nat) + "\n      *"@ + dump_name(r) + ": "@
        + decimal(cell as nat) + "\n"@
}

/// The dump lines of the first `n` registers.
pub open spec fn dump_registers(registers: Seq<u8>, memory: Seq<u8>, n: int) -> Seq<char>
    decreases n,
{
    if n <= 0 {
        Seq::empty()
    } else {
        dump_registers(registers, memory, n - 1) + dump_register(
            n - 1,
            registers[n - 1],
            memory[registers[n - 1] as int],
        )
    }
}

/// The dump lines of the first `n` memory cells, one `address: value` each.
pub open spec fn dump_memory(memory: Seq<u8>, n: int) -> Seq<char>
    decreases n,
{
    if n <= 0 {
        Seq::empty()
    } else {
        dump_memory(memory, n - 1) + "    "@ + decimal((n - 1) as nat) + ": "@ + decimal(
            memory[n - 1] as nat,
        ) + "\n"@
    }
}

/// What `dmp` prints.
pub open spec fn dump_text(registers: Seq<u8>, memory: Seq<u8>) -> Seq<char> {
    "!!! DUMPED !!!\n  Registers:\n"@ + dump_registers(registers, memory, 4) + "  Memory:\n"@
        + dump_memory(memory, MEM_SIZE as int)
}

/// A suspended program and where it goes on.
pub struct Caller {
    pub program: Program,
    pub resume: int,
}

/// The whole state of the machine.
pub struct Machine {
    /// The program that is running.
    pub program: Program,
    /// The instruction pointer: an index into the running program's tokens.
    pub pointer: int,
    /// The register file, four bytes.
    pub registers: Seq<u8>,
    /// The memory, `MEM_SIZE` bytes.
    pub memory: Seq<u8>,
    /// The programs suspended by `vrlx`, innermost last.
    pub callers: Seq<Caller>,
    /// The file store.
    pub vfs: VfsView,
    /// All text printed so far and not yet taken.
    pub output: Seq<char>,
    /// The fault policy: report and skip, rather than stop.
    pub continue_after_fault: bool,
    /// The most programs that may be suspended at once.
    pub max_depth: int,
}

impl Machine {
    /// The state a machine starts in: pointer at the first token, registers
    /// and memory zero, nothing suspended, nothing printed.
    pub open spec fn boot(
        program: Program,
        vfs: VfsView,
        continue_after_fault: bool,
        max_depth: int,
    ) -> Machine {
        Machine {
            program,
            pointer: 0,
            registers: Seq::new(4, |i: int| 0u8),
            memory: Seq::new(MEM_SIZE as nat, |i: int| 0u8),
            callers: Seq::empty(),
            vfs,
            output: Seq::empty(),
            continue_after_fault,
            max_depth,
        }
    }

    /// The state has the shape every machine has.
    pub open spec fn wf(self) -> bool {
        &&& self.pointer >= 0
        &&& self.registers.len() == 4
        &&& self.memory.len() == MEM_SIZE
        &&& forall|i: int| 0 <= i < self.callers.len() ==> (#[trigger] self.callers[i]).resume >= 0
    }

    /// The number of tokens of the running program.
    pub open spec fn len(self) -> int {
        self.program.tokens.len() as int
    }

    /// Whether `address` may be accessed.
    pub open spec fn in_bounds(address: int) -> bool {
        RESERVED_MIN_MEM_ADDR <= address < MEM_SIZE
    }

    /// The operand `k` tokens after the opcode, as `slot` reads it.
    pub open spec fn operand(self, k: int, slot: Slot) -> Result<Operand, Trap> {
        if self.pointer + k < self.len() {
            resolve(self.program.tokens[self.pointer + k], slot, self.program.labels)
        } else {
            Err(Trap::Truncated)
        }
    }

    /// The byte in the cell at `address`.
    pub open spec fn peek(self, address: int) -> Result<u8, Fault> {
        if Self::in_bounds(address) {
            Ok(self.memory[address])
        } else {
            Err(Fault::OutOfBounds { address: address as usize })
        }
    }

    /// The machine with `value` in the cell at `address`.
    pub open spec fn poke(self, address: int, value: u8) -> Result<Machine, Fault> {
        if Self::in_bounds(address) {
            Ok(Machine { memory: self.memory.update(address, value), ..self })
        } else {
            Err(Fault::OutOfBounds { address: address as usize })
        }
    }

    /// The byte an operand stands for. A label stands for no byte.
    pub open spec fn load(self, operand: Operand) -> Result<u8, Fault>
        recommends
            !(operand is Label),
    {
        match operand {
            Operand::Register(r) => Ok(self.registers[r.index()]),
            Operand::MemoryDirect(a) => self.peek(a as int),
            Operand::MemoryIndirect(r) => self.peek(self.registers[r.index()] as int),
            Operand::Immediate(b) => Ok(b),
            Operand::Label(_) => Ok(0),
        }
    }

    /// The machine with `value` where an operand points. Only registers and
    /// memory cells can be written.
    pub open spec fn store(self, operand: Operand, value: u8) -> Result<Machine, Fault>
        recommends
            !(operand is Label || operand is Immediate),
    {
        match operand {
            Operand::Register(r) => Ok(
                Machine { registers: self.registers.update(r.index(), value), ..self },
            ),
            Operand::MemoryDirect(a) => self.poke(a as int, value),
            Operand::MemoryIndirect(r) => self.poke(self.registers[r.index()] as int, value),
            _ => Ok(self),
        }
    }

    /// The machine with the pointer moved to `target`.
    pub open spec fn jump(self, target: int) -> (Machine, Outcome) {
        (Machine { pointer: target, ..self }, Outcome::Running)
    }

    /// The machine past an instruction that takes up `n` tokens.
    pub open spec fn advance(self, n: int) -> (Machine, Outcome) {
        self.jump(self.pointer + n)
    }

    /// The machine past `n` tokens, or at the end of the program if fewer are
    /// left.
    pub open spec fn skip(self, n: int) -> (Machine, Outcome) {
        self.jump(
            if self.pointer + n <= self.len() {
                self.pointer + n
            } else {
                self.len()
            },
        )
    }

    /// A trap: the machine stops where it is.
    pub open spec fn trap(self, trap: Trap) -> (Machine, Outcome) {
        (self, Outcome::Panicked(trap))
    }

    /// What the machine says of a fault raised by the current instruction.
    pub open spec fn fault_cause(self, fault: Fault) -> Seq<char> {
        match fault {
            Fault::Requested => "Fault requested by instr #"@ + decimal(self.pointer as nat) + "."@,
            Fault::OutOfBounds { address } =>
                "Segmentation fault - Accessed memory out of bounds. Address: "@ + decimal(
                    address as nat,
                ) + ". Instr #"@ + decimal(self.pointer as nat),
            Fault::UnknownInstruction => "Unrecognized instruction `"@ + self.opcode_text()
                + "` at instr #"@ + decimal(self.pointer as nat),
            Fault::CopyOverflow => "SEGMENTATION FAULT - FAILED TO READ FILE INTO INVALID MEMORY"@,
        }
    }

    /// The token under the instruction pointer, or nothing past the end.
    pub open spec fn opcode_text(self) -> Seq<char> {
        if 0 <= self.pointer < self.len() {
            self.program.tokens[self.pointer]
        } else {
            Seq::empty()
        }
    }

    /// The first operand token, from the `k`-th on, that is none of the forms
    /// its position admits; nothing if there is none.
    pub open spec fn culprit(self, op: Opcode, k: int) -> Seq<char>
        decreases 4 - k,
    {
        if k < 1 || k > 3 {
            Seq::empty()
        } else {
            match operand_slot(op, k) {
                None => Seq::empty(),
                Some(slot) => match self.operand(k, slot) {
                    Ok(_) => self.culprit(op, k + 1),
                    Err(Trap::Truncated) => Seq::empty(),
                    Err(_) => self.program.tokens[self.pointer + k],
                },
            }
        }
    }

    /// What the machine says of a trap in the current instruction. Where the
    /// trap is about an operand, the text cites the token.
    pub open spec fn trap_cause(self, trap: Trap) -> Seq<char> {
        let at = decimal(self.pointer as nat);
        let token = match self.opcode() {
            Some(op) => self.culprit(op, 1),
            None => Seq::empty(),
        };
        match trap {
            Trap::Requested => "Panic requested by instruction set at instr #"@ + at,
            Trap::Truncated => "Instruction `"@ + self.opcode_text() + "` at instr #"@ + at
                + " lacks an operand."@,
            Trap::MalformedOperand => "Invalid token `"@ + token + "` after "@
                + self.opcode_text() + " instruction at instr #"@ + at,
            Trap::UnknownRegister | Trap::NonRegisterOperand => "Unrecognized register `"@ + token
                + "` at instr #"@ + at,
            Trap::UndefinedLabel => "Invalid label "@ + token + " at instr #"@ + at + "."@,
            Trap::UnterminatedComment => "EOF after comment without closing."@,
            Trap::DivisionByZero => "Division by zero at instr #"@ + at + "."@,
            Trap::MissingFile => "Failed to read file at instr #"@ + at + "."@,
            Trap::BadProgram(_) => "Failed to parse label table - corrupted binary?"@,
            Trap::NestingTooDeep => "Too many nested programs at instr #"@ + at + "."@,
        }
    }

    /// The report printed when a fault is skipped.
    pub open spec fn fault_report(self, fault: Fault) -> Seq<char> {
        "!!! FAULTED !!!\n  Cause: "@ + self.fault_cause(fault) + "\n"@
    }

    /// A fault raised by an instruction that takes up `n` tokens. Under the
    /// lenient policy the fault is reported and the instruction has no other
    /// effect; otherwise the machine stops where it is.
    pub open spec fn raise(self, fault: Fault, n: int) -> (Machine, Outcome) {
        if self.continue_after_fault {
            (
                Machine {
                    pointer: self.pointer + n,
                    output: self.output + self.fault_report(fault),
                    ..self
                },
                Outcome::Recovered(fault),
            )
        } else {
            (self, Outcome::Faulted(fault))
        }
    }

    /// `memset` and `mov`: the byte of the second operand goes where the
    /// first points.
    pub open spec fn step_move(self, dest: Slot, src: Slot) -> (Machine, Outcome) {
        match self.operand(1, dest) {
            Err(t) => self.trap(t),
            Ok(to) => match self.operand(2, src) {
                Err(t) => self.trap(t),
                Ok(from) => match self.load(from) {
                    Err(f) => self.raise(f, 3),
                    Ok(value) => match self.store(to, value) {
                        Err(f) => self.raise(f, 3),
                        Ok(m) => m.advance(3),
                    },
                },
            },
        }
    }

    /// `add`, `sub`, `mul`, `div`: two source registers, then the
    /// destination register.
    pub open spec fn step_arithmetic(self, op: Opcode) -> (Machine, Outcome) {
        match self.operand(1, Slot::Arithmetic) {
            Err(t) => self.trap(t),
            Ok(first) => match self.operand(2, Slot::Arithmetic) {
                Err(t) => self.trap(t),
                Ok(second) => match self.operand(3, Slot::Arithmetic) {
                    Err(t) => self.trap(t),
                    Ok(to) => match (self.load(first), self.load(second)) {
                        (Ok(a), Ok(b)) => match arithmetic(op, a, b) {
                            None => self.trap(Trap::DivisionByZero),
                            Some(value) => match self.store(to, value) {
                                Err(f) => self.raise(f, 4),
                                Ok(m) => m.advance(4),
                            },
                        },
                        (Err(f), _) => self.raise(f, 4),
                        (_, Err(f)) => self.raise(f, 4),
                    },
                },
            },
        }
    }

    /// `grt`, `lt`, `eq`: the destination, then the two operands compared.
    pub open spec fn step_compare(self, op: Opcode, slot: Slot) -> (Machine, Outcome) {
        match self.operand(1, slot) {
            Err(t) => self.trap(t),
            Ok(to) => match self.operand(2, slot) {
                Err(t) => self.trap(t),
                Ok(left) => match self.operand(3, slot) {
                    Err(t) => self.trap(t),
                    Ok(right) => match (self.load(left), self.load(right)) {
                        (Ok(lhs), Ok(rhs)) => match self.store(to, flag(comparison(op, lhs, rhs))) {
                            Err(f) => self.raise(f, 4),
                            Ok(m) => m.advance(4),
                        },
                        (Err(f), _) => self.raise(f, 4),
                        (_, Err(f)) => self.raise(f, 4),
                    },
                },
            },
        }
    }

    /// `goto`: to the index a register holds, or to a label.
    pub open spec fn step_goto(self) -> (Machine, Outcome) {
        match self.operand(1, Slot::Target) {
            Err(t) => self.trap(t),
            Ok(Operand::Label(target)) => self.jump(target as int),
            Ok(target) => match self.load(target) {
                Err(f) => self.raise(f, 2),
                Ok(index) => self.jump(index as int),
            },
        }
    }

    /// `cgt`: to a label if the register is not zero. The label is looked at
    /// only when the jump is taken.
    pub open spec fn step_cgt(self) -> (Machine, Outcome) {
        match self.operand(1, Slot::Register) {
            Err(t) => self.trap(t),
            Ok(condition) => match self.load(condition) {
                Err(f) => self.raise(f, 3),
                Ok(value) => if value > 0 {
                    match self.operand(2, Slot::Label) {
                        Ok(Operand::Label(target)) => self.jump(target as int),
                        Ok(_) => self.trap(Trap::UndefinedLabel),
                        Err(t) => self.trap(t),
                    }
                } else {
                    self.skip(3)
                },
            },
        }
    }

    /// `inv`: zero becomes one, anything else becomes zero.
    pub open spec fn step_inv(self) -> (Machine, Outcome) {
        match self.operand(1, Slot::Register) {
            Err(t) => self.trap(t),
            Ok(r) => match self.load(r) {
                Err(f) => self.raise(f, 2),
                Ok(value) => match self.store(r, flag(value == 0)) {
                    Err(f) => self.raise(f, 2),
                    Ok(m) => m.advance(2),
                },
            },
        }
    }

    /// `outstr` and `outbyte`: prints one byte, as a character or as a number.
    pub open spec fn step_out(self, as_number: bool) -> (Machine, Outcome) {
        match self.operand(1, Slot::Value) {
            Err(t) => self.trap(t),
            Ok(what) => match self.load(what) {
                Err(f) => self.raise(f, 2),
                Ok(byte) => Machine {
                    output: self.output + (if as_number {
                        decimal(byte as nat)
                    } else {
                        byte_text(byte)
                    }),
                    ..self
                }.advance(2),
            },
        }
    }

    /// `vfsr`: copies a file into memory, first byte at the given address.
    /// Nothing is copied unless all of it fits.
    pub open spec fn step_vfsr(self) -> (Machine, Outcome) {
        match self.operand(1, Slot::Pointer) {
            Err(t) => self.trap(t),
            Ok(pointer) => match self.operand(2, Slot::Byte) {
                Err(t) => self.trap(t),
                Ok(file) => {
                    let start: int = match pointer {
                        Operand::Register(r) => self.registers[r.index()] as int,
                        Operand::MemoryDirect(a) => a as int,
                        _ => 0,
                    };
                    let id: u8 = match file {
                        Operand::Immediate(b) => b,
                        _ => 0,
                    };
                    if !self.vfs.files.contains_key(id) {
                        self.trap(Trap::MissingFile)
                    } else {
                        let bytes = self.vfs.files[id].contents;
                        if start < RESERVED_MIN_MEM_ADDR || start + bytes.len() > MEM_SIZE {
                            self.raise(Fault::CopyOverflow, 3)
                        } else {
                            Machine {
                                memory: self.memory.take(start) + bytes + self.memory.skip(
                                    start + bytes.len(),
                                ),
                                ..self
                            }.advance(3)
                        }
                    }
                },
            },
        }
    }

    /// `vrlx`: suspends the running program and starts the one assembled from
    /// a file. Registers, memory, output and the store stay as they are.
    pub open spec fn step_vrlx(self) -> (Machine, Outcome) {
        match self.operand(1, Slot::Byte) {
            Err(t) => self.trap(t),
            Ok(file) => {
                let id: u8 = match file {
                    Operand::Immediate(b) => b,
                    _ => 0,
                };
                if !self.vfs.files.contains_key(id) {
                    self.trap(Trap::MissingFile)
                } else if self.callers.len() >= self.max_depth {
                    self.trap(Trap::NestingTooDeep)
                } else {
                    match assemble(utf8_lossy(self.vfs.files[id].contents)) {
                        Err(e) => self.trap(Trap::BadProgram(e)),
                        Ok(program) => (
                            Machine {
                                program,
                                pointer: 0,
                                callers: self.callers.push(
                                    Caller { program: self.program, resume: self.pointer + 2 },
                                ),
                                ..self
                            },
                            Outcome::Running,
                        ),
                    }
                }
            },
        }
    }

    /// `//`: skips to the token after the next `//`.
    pub open spec fn step_comment(self) -> (Machine, Outcome) {
        match comment_close(self.program.tokens, self.pointer + 1) {
            None => self.trap(Trap::UnterminatedComment),
            Some(close) => self.jump(close + 1),
        }
    }

    /// The end of a program started by `vrlx`: the program suspended last goes
    /// on after its `vrlx`.
    pub open spec fn step_return(self) -> (Machine, Outcome) {
        let caller = self.callers.last();
        (
            Machine {
                program: caller.program,
                pointer: caller.resume,
                callers: self.callers.drop_last(),
                ..self
            },
            Outcome::Running,
        )
    }

    /// The effect of the instruction `op` under the instruction pointer.
    pub open spec fn execute(self, op: Opcode) -> (Machine, Outcome) {
        match op {
            Opcode::Label => self.skip(2),
            Opcode::Dmp => Machine {
                output: self.output + dump_text(self.registers, self.memory),
                ..self
            }.advance(1),
            Opcode::Panic => self.trap(Trap::Requested),
            Opcode::Fault => self.raise(Fault::Requested, 1),
            Opcode::Memset => self.step_move(Slot::Address, Slot::Byte),
            Opcode::Mov => self.step_move(Slot::Place, Slot::Place),
            Opcode::Add | Opcode::Sub | Opcode::Mul | Opcode::Div => self.step_arithmetic(op),
            Opcode::Goto => self.step_goto(),
            Opcode::Cgt => self.step_cgt(),
            Opcode::Grt | Opcode::Lt => self.step_compare(op, Slot::Register),
            Opcode::Eq => self.step_compare(op, Slot::Cell),
            Opcode::Outstr => self.step_out(false),
            Opcode::Outbyte => self.step_out(true),
            Opcode::Vfsr => self.step_vfsr(),
            Opcode::Comment => self.step_comment(),
            Opcode::Vrlx => self.step_vrlx(),
            Opcode::Inv => self.step_inv(),
        }
    }

    /// One step of the machine: fetch the token under the pointer, decode it,
    /// carry it out. Past the last token, a suspended program is resumed; if
    /// there is none, the machine has finished.
    pub open spec fn step(self) -> (Machine, Outcome) {
        if self.pointer >= self.len() {
            if self.callers.len() > 0 {
                self.step_return()
            } else {
                (self, Outcome::Finished)
            }
        } else {
            match opcode_named(self.program.tokens[self.pointer]) {
                None => self.raise(Fault::UnknownInstruction, 1),
                Some(op) => self.execute(op),
            }
        }
    }

    /// The opcode under the instruction pointer.
    pub open spec fn opcode(self) -> Option<Opcode> {
        if 0 <= self.pointer < self.len() {
            opcode_named(self.program.tokens[self.pointer])
        } else {
            None
        }
    }

    /// Nothing is left to do: the pointer is past the last token and no
    /// program is suspended.
    pub open spec fn finished(self) -> bool {
        self.pointer >= self.len() && self.callers.len() == 0
    }

    /// The instruction under the pointer hands control elsewhere: a `goto`, a
    /// `vrlx`, or a `cgt` whose register is not zero.
    pub open spec fn transfers_control(self) -> bool {
        match self.opcode() {
            Some(Opcode::Goto) | Some(Opcode::Vrlx) => true,
            Some(Opcode::Cgt) => match self.operand(1, Slot::Register) {
                Ok(condition) => self.load(condition) matches Ok(value) && value > 0,
                Err(_) => false,
            },
            _ => false,
        }
    }

    /// The state after `n` steps. A machine that has finished or stopped stays
    /// as it is.
    pub open spec fn after(self, n: nat) -> Machine
        decreases n,
    {
        if n == 0 {
            self
        } else {
            self.step().0.after((n - 1) as nat)
        }
    }

    /// The running program seen as a run of its own: the machine without the
    /// `below` programs suspended first, and with that much less room for
    /// nesting.
    pub open spec fn above(self, below: int) -> Machine {
        Machine {
            callers: self.callers.skip(below),
            max_depth: self.max_depth - below,
            ..self
        }
    }

    /// The program that the `vrlx` under the pointer starts, seen as a run of
    /// its own: nothing suspended below it, and the room for nesting that is
    /// left.
    pub open spec fn overlay(self) -> Machine {
        self.step().0.above(self.callers.len() as int + 1)
    }

    /// Up to `budget` steps: the machine steps until it finishes or stops, or
    /// the budget is spent. A spent budget leaves it `Running`, ready to go on.
    /// Nothing detects a program that never ends: it is `Running` whatever
    /// the budget.
    pub open spec fn run(self, budget: nat) -> (Machine, Outcome)
        decreases budget,
    {
        if budget == 0 {
            (self, Outcome::Running)
        } else {
            let (next, outcome) = self.step();
            match outcome {
                Outcome::Running | Outcome::Recovered(_) => next.run((budget - 1) as nat),
                _ => (next, outcome),
            }
        }
    }
}

} // verus!
