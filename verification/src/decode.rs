//! From tokens to opcodes and operands.

use crate::machine::{
    indirect_named, opcode_named, operand_slot, register_named, resolve, Opcode, Operand, Reading,
    Register, Slot, Trap,
};
use crate::text::parse_unsigned;
use crate::tokenizer::LabelTable;
use vstd::prelude::*;

verus! {

impl Register {
    /// The register's place in the register file.
    pub fn position(self) -> (i: usize)
        ensures
            i == self.index(),
            i < 4,
    {
        match self {
            Register::R0 => 0,
            Register::R1 => 1,
            Register::R2 => 2,
            Register::R3 => 3,
        }
    }
}

impl Slot {
    /// Whether a register name is taken as a register here.
    pub fn admits_register(self) -> (b: bool)
        ensures
            b == self.takes_register(),
    {
        match self {
            Slot::Address | Slot::Byte | Slot::Label => false,
            _ => true,
        }
    }

    /// Whether `*` and a register name is taken as a register-indirect cell.
    pub fn admits_indirect(self) -> (b: bool)
        ensures
            b == self.takes_indirect(),
    {
        match self {
            Slot::Cell | Slot::Place | Slot::Value => true,
            _ => false,
        }
    }

    /// How any other token is read.
    pub fn literal_reading(self) -> (r: Reading)
        ensures
            r == self.reading(),
    {
        match self {
            Slot::Place | Slot::Address | Slot::Pointer => Reading::Address,
            Slot::Value | Slot::Byte => Reading::Byte,
            Slot::Target | Slot::Label => Reading::Label,
            Slot::Register | Slot::Arithmetic | Slot::Cell => Reading::Nothing,
        }
    }

    /// The trap for a token that is none of the admitted forms.
    pub fn rejection(self) -> (t: Trap)
        ensures
            t == self.refusal(),
    {
        match self {
            Slot::Register | Slot::Cell => Trap::UnknownRegister,
            Slot::Arithmetic => Trap::NonRegisterOperand,
            Slot::Target | Slot::Label => Trap::UndefinedLabel,
            _ => Trap::MalformedOperand,
        }
    }
}

/// The register that `token` names.
pub fn register_of(token: &str) -> (r: Option<Register>)
    ensures
        r == register_named(token@),
{
    if token.eq("rax") || token.eq("R0") {
        Some(Register::R0)
    } else if token.eq("rbx") || token.eq("R1") {
        Some(Register::R1)
    } else if token.eq("rcx") || token.eq("R2") {
        Some(Register::R2)
    } else if token.eq("rdx") || token.eq("R3") {
        Some(Register::R3)
    } else {
        None
    }
}

/// The register that `token` names behind a `*`.
pub fn indirect_of(token: &str) -> (r: Option<Register>)
    ensures
        r == indirect_named(token@),
{
    if token.eq("*rax") || token.eq("*R0") {
        Some(Register::R0)
    } else if token.eq("*rbx") || token.eq("*R1") {
        Some(Register::R1)
    } else if token.eq("*rcx") || token.eq("*R2") {
        Some(Register::R2)
    } else if token.eq("*rdx") || token.eq("*R3") {
        Some(Register::R3)
    } else {
        None
    }
}

/// The opcode that `token` names.
pub fn opcode_of(token: &str) -> (op: Option<Opcode>)
    ensures
        op == opcode_named(token@),
{
    if token.eq("label") {
        Some(Opcode::Label)
    } else if token.eq("dmp") {
        Some(Opcode::Dmp)
    } else if token.eq("panic") {
        Some(Opcode::Panic)
    } else if token.eq("fault") {
        Some(Opcode::Fault)
    } else if token.eq("memset") {
        Some(Opcode::Memset)
    } else if token.eq("mov") {
        Some(Opcode::Mov)
    } else if token.eq("add") {
        Some(Opcode::Add)
    } else if token.eq("sub") {
        Some(Opcode::Sub)
    } else if token.eq("mul") {
        Some(Opcode::Mul)
    } else if token.eq("div") {
        Some(Opcode::Div)
    } else if token.eq("goto") {
        Some(Opcode::Goto)
    } else if token.eq("cgt") {
        Some(Opcode::Cgt)
    } else if token.eq("grt") {
        Some(Opcode::Grt)
    } else if token.eq("lt") {
        Some(Opcode::Lt)
    } else if token.eq("eq") {
        Some(Opcode::Eq)
    } else if token.eq("outstr") {
        Some(Opcode::Outstr)
    } else if token.eq("outbyte") {
        Some(Opcode::Outbyte)
    } else if token.eq("vfsr") {
        Some(Opcode::Vfsr)
    } else if token.eq("//") {
        Some(Opcode::Comment)
    } else if token.eq("vrlx") {
        Some(Opcode::Vrlx)
    } else if token.eq("inv") {
        Some(Opcode::Inv)
    } else {
        None
    }
}

/// Resolves one operand token for the position `slot`.
pub fn resolve_operand(token: &str, slot: Slot, labels: &LabelTable) -> (r: Result<Operand, Trap>)
    ensures
        r == resolve(token@, slot, labels@),
{
    if slot.admits_register() {
        if let Some(r) = register_of(token) {
            return Ok(Operand::Register(r));
        }
    }
    if slot.admits_indirect() {
        if let Some(r) = indirect_of(token) {
            return Ok(Operand::MemoryIndirect(r));
        }
    }
    match slot.literal_reading() {
        Reading::Nothing => Err(slot.rejection()),
        Reading::Address => match parse_unsigned(token, usize::MAX) {
            Some(a) => Ok(Operand::MemoryDirect(a)),
            None => Err(slot.rejection()),
        },
        Reading::Byte => match parse_unsigned(token, 255) {
            Some(b) => Ok(Operand::Immediate(b as u8)),
            None => Err(slot.rejection()),
        },
        Reading::Label => match labels.get(token) {
            Some(index) => Ok(Operand::Label(index)),
            None => Err(slot.rejection()),
        },
    }
}

/// The position in which the `k`-th operand of `op` is read, for the operands
/// it has.
pub fn operand_slot_of(op: Opcode, k: usize) -> (slot: Option<Slot>)
    ensures
        slot == operand_slot(op, k as int),
{
    let first = match op {
        Opcode::Memset => Some(Slot::Address),
        Opcode::Mov => Some(Slot::Place),
        Opcode::Add | Opcode::Sub | Opcode::Mul | Opcode::Div => Some(Slot::Arithmetic),
        Opcode::Goto => Some(Slot::Target),
        Opcode::Cgt | Opcode::Grt | Opcode::Lt | Opcode::Inv => Some(Slot::Register),
        Opcode::Eq => Some(Slot::Cell),
        Opcode::Outstr | Opcode::Outbyte => Some(Slot::Value),
        Opcode::Vfsr => Some(Slot::Pointer),
        Opcode::Vrlx => Some(Slot::Byte),
        _ => None,
    };
    let second = match op {
        Opcode::Memset | Opcode::Vfsr => Some(Slot::Byte),
        Opcode::Mov => Some(Slot::Place),
        Opcode::Add | Opcode::Sub | Opcode::Mul | Opcode::Div => Some(Slot::Arithmetic),
        Opcode::Cgt => Some(Slot::Label),
        Opcode::Grt | Opcode::Lt => Some(Slot::Register),
        Opcode::Eq => Some(Slot::Cell),
        _ => None,
    };
    let third = match op {
        Opcode::Add | Opcode::Sub | Opcode::Mul | Opcode::Div => Some(Slot::Arithmetic),
        Opcode::Grt | Opcode::Lt => Some(Slot::Register),
        Opcode::Eq => Some(Slot::Cell),
        _ => None,
    };
    if k == 1 {
        first
    } else if k == 2 {
        second
    } else if k == 3 {
        third
    } else {
        None
    }
}

} // verus!
