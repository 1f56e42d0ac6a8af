use vraw_vm::decode::{indirect_of, opcode_of, operand_slot_of, register_of, resolve_operand};
use vraw_vm::machine::{Opcode, Operand, Reading, Register, Slot, Trap};
use vraw_vm::tokenizer::LabelTable;

const SLOTS: [Slot; 10] = [
    Slot::Register,
    Slot::Arithmetic,
    Slot::Cell,
    Slot::Place,
    Slot::Value,
    Slot::Address,
    Slot::Byte,
    Slot::Pointer,
    Slot::Target,
    Slot::Label,
];

fn labels() -> LabelTable {
    let mut table = LabelTable::new();
    table.insert("start".to_string(), 0);
    table.insert("far".to_string(), 100_000);
    table.insert("rax".to_string(), 11);
    table.insert("*rbx".to_string(), 12);
    table.insert("7".to_string(), 13);
    table
}

#[test]
fn every_opcode_has_one_name() {
    let names = [
        ("label", Opcode::Label),
        ("dmp", Opcode::Dmp),
        ("panic", Opcode::Panic),
        ("fault", Opcode::Fault),
        ("memset", Opcode::Memset),
        ("mov", Opcode::Mov),
        ("add", Opcode::Add),
        ("sub", Opcode::Sub),
        ("mul", Opcode::Mul),
        ("div", Opcode::Div),
        ("goto", Opcode::Goto),
        ("cgt", Opcode::Cgt),
        ("grt", Opcode::Grt),
        ("lt", Opcode::Lt),
        ("eq", Opcode::Eq),
        ("outstr", Opcode::Outstr),
        ("outbyte", Opcode::Outbyte),
        ("vfsr", Opcode::Vfsr),
        ("//", Opcode::Comment),
        ("vrlx", Opcode::Vrlx),
        ("inv", Opcode::Inv),
    ];
    for (name, op) in names {
        assert_eq!(opcode_of(name), Some(op), "{}", name);
        assert_eq!(opcode_of(&name.to_uppercase()).filter(|_| name != "//"), None);
        assert_eq!(opcode_of(&format!("{} ", name)), None);
        assert_eq!(opcode_of(&format!("{}x", name)), None);
    }
    for other in ["", "/", "///", "rax", "0", "Mov", "out", "outstrs"] {
        assert_eq!(opcode_of(other), None, "{}", other);
    }
}

#[test]
fn register_names() {
    let names = [
        ("rax", "R0", Register::R0, 0usize),
        ("rbx", "R1", Register::R1, 1),
        ("rcx", "R2", Register::R2, 2),
        ("rdx", "R3", Register::R3, 3),
    ];
    for (old, new, r, position) in names {
        assert_eq!(register_of(old), Some(r));
        assert_eq!(register_of(new), Some(r));
        assert_eq!(indirect_of(&format!("*{}", old)), Some(r));
        assert_eq!(indirect_of(&format!("*{}", new)), Some(r));
        assert_eq!(register_of(&format!("*{}", old)), None);
        assert_eq!(indirect_of(old), None);
        assert_eq!(indirect_of(&format!("**{}", old)), None);
        assert_eq!(r.position(), position);
    }
    for other in ["", "RAX", "r0", "R4", "rex", "eax", "*", "* rax", "rax "] {
        assert_eq!(register_of(other), None, "{}", other);
        assert_eq!(indirect_of(other), None, "{}", other);
    }
}

#[test]
fn what_each_slot_admits() {
    let expected = [
        (Slot::Register, true, false, Reading::Nothing, Trap::UnknownRegister),
        (Slot::Arithmetic, true, false, Reading::Nothing, Trap::NonRegisterOperand),
        (Slot::Cell, true, true, Reading::Nothing, Trap::UnknownRegister),
        (Slot::Place, true, true, Reading::Address, Trap::MalformedOperand),
        (Slot::Value, true, true, Reading::Byte, Trap::MalformedOperand),
        (Slot::Address, false, false, Reading::Address, Trap::MalformedOperand),
        (Slot::Byte, false, false, Reading::Byte, Trap::MalformedOperand),
        (Slot::Pointer, true, false, Reading::Address, Trap::MalformedOperand),
        (Slot::Target, true, false, Reading::Label, Trap::UndefinedLabel),
        (Slot::Label, false, false, Reading::Label, Trap::UndefinedLabel),
    ];
    assert_eq!(expected.len(), SLOTS.len());
    for (slot, register, indirect, reading, refusal) in expected {
        assert_eq!(slot.admits_register(), register, "{:?}", slot);
        assert_eq!(slot.admits_indirect(), indirect, "{:?}", slot);
        assert_eq!(slot.literal_reading(), reading, "{:?}", slot);
        assert_eq!(slot.rejection(), refusal, "{:?}", slot);
    }
}

#[test]
fn a_register_name_resolves_by_slot() {
    let table = labels();
    for slot in SLOTS {
        let got = resolve_operand("rbx", slot, &table);
        let want = match slot {
            Slot::Address | Slot::Byte => Err(Trap::MalformedOperand),
            Slot::Label => Err(Trap::UndefinedLabel),
            _ => Ok(Operand::Register(Register::R1)),
        };
        assert_eq!(got, want, "{:?}", slot);
    }
    assert_eq!(resolve_operand("rax", Slot::Label, &table), Ok(Operand::Label(11)));
    assert_eq!(
        resolve_operand("rax", Slot::Target, &table),
        Ok(Operand::Register(Register::R0))
    );
}

#[test]
fn a_register_indirect_cell_resolves_by_slot() {
    let table = labels();
    for slot in SLOTS {
        let got = resolve_operand("*R2", slot, &table);
        let want = match slot {
            Slot::Cell | Slot::Place | Slot::Value => Ok(Operand::MemoryIndirect(Register::R2)),
            other => Err(other.rejection()),
        };
        assert_eq!(got, want, "{:?}", slot);
    }
    assert_eq!(resolve_operand("*rbx", Slot::Target, &table), Ok(Operand::Label(12)));
    assert_eq!(
        resolve_operand("*rbx", Slot::Place, &table),
        Ok(Operand::MemoryIndirect(Register::R1))
    );
}

#[test]
fn a_literal_resolves_by_slot() {
    let table = labels();
    for slot in SLOTS {
        let got = resolve_operand("7", slot, &table);
        let want = match slot.literal_reading() {
            Reading::Nothing => Err(slot.rejection()),
            Reading::Address => Ok(Operand::MemoryDirect(7)),
            Reading::Byte => Ok(Operand::Immediate(7)),
            Reading::Label => Ok(Operand::Label(13)),
        };
        assert_eq!(got, want, "{:?}", slot);
    }
    assert_eq!(resolve_operand("256", Slot::Byte, &table), Err(Trap::MalformedOperand));
    assert_eq!(resolve_operand("255", Slot::Byte, &table), Ok(Operand::Immediate(255)));
    assert_eq!(resolve_operand("256", Slot::Address, &table), Ok(Operand::MemoryDirect(256)));
    assert_eq!(
        resolve_operand("18446744073709551616", Slot::Address, &table),
        Err(Trap::MalformedOperand)
    );
    assert_eq!(resolve_operand("+12", Slot::Place, &table), Ok(Operand::MemoryDirect(12)));
    assert_eq!(resolve_operand("-12", Slot::Place, &table), Err(Trap::MalformedOperand));
}

#[test]
fn a_label_resolves_through_the_table() {
    let table = labels();
    assert_eq!(resolve_operand("start", Slot::Label, &table), Ok(Operand::Label(0)));
    assert_eq!(resolve_operand("far", Slot::Target, &table), Ok(Operand::Label(100_000)));
    assert_eq!(resolve_operand("Start", Slot::Label, &table), Err(Trap::UndefinedLabel));
    assert_eq!(resolve_operand("", Slot::Target, &table), Err(Trap::UndefinedLabel));
    for slot in SLOTS {
        if slot.literal_reading() != Reading::Label {
            assert_eq!(resolve_operand("start", slot, &table), Err(slot.rejection()), "{:?}", slot);
        }
    }
}

#[test]
fn operand_positions_of_every_opcode() {
    let table: [(Opcode, &[Slot]); 21] = [
        (Opcode::Label, &[]),
        (Opcode::Dmp, &[]),
        (Opcode::Panic, &[]),
        (Opcode::Fault, &[]),
        (Opcode::Memset, &[Slot::Address, Slot::Byte]),
        (Opcode::Mov, &[Slot::Place, Slot::Place]),
        (Opcode::Add, &[Slot::Arithmetic, Slot::Arithmetic, Slot::Arithmetic]),
        (Opcode::Sub, &[Slot::Arithmetic, Slot::Arithmetic, Slot::Arithmetic]),
        (Opcode::Mul, &[Slot::Arithmetic, Slot::Arithmetic, Slot::Arithmetic]),
        (Opcode::Div, &[Slot::Arithmetic, Slot::Arithmetic, Slot::Arithmetic]),
        (Opcode::Goto, &[Slot::Target]),
        (Opcode::Cgt, &[Slot::Register, Slot::Label]),
        (Opcode::Grt, &[Slot::Register, Slot::Register, Slot::Register]),
        (Opcode::Lt, &[Slot::Register, Slot::Register, Slot::Register]),
        (Opcode::Eq, &[Slot::Cell, Slot::Cell, Slot::Cell]),
        (Opcode::Outstr, &[Slot::Value]),
        (Opcode::Outbyte, &[Slot::Value]),
        (Opcode::Vfsr, &[Slot::Pointer, Slot::Byte]),
        (Opcode::Comment, &[]),
        (Opcode::Vrlx, &[Slot::Byte]),
        (Opcode::Inv, &[Slot::Register]),
    ];
    for (op, slots) in table {
        assert_eq!(operand_slot_of(op, 0), None, "{:?}", op);
        for k in 1..=4usize {
            assert_eq!(operand_slot_of(op, k), slots.get(k - 1).copied(), "{:?} {}", op, k);
        }
    }
}
