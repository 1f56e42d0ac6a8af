//! What holds of every machine, proved from the model in `machine`.

use crate::machine::{
    arithmetic, comment_close, comparison, flag, indirect_named, opcode_named, operand_slot,
    register_named, Fault, Machine,
    Opcode, Operand, Outcome, Register, Slot, Trap, MEM_SIZE,
};
use crate::text::utf8_lossy;
use crate::tokenizer::assemble;
use vstd::prelude::*;

verus! {

impl Machine {
    /// `r` is what an instruction leaves that neither suspends nor resumes a
    /// program: the program, the suspended programs, the store and the
    /// configuration are as before, the state keeps its shape, a stop leaves
    /// everything as it was, and a fault that is skipped changes nothing but
    /// the pointer and the output.
    spec fn stays_in_program(self, r: (Machine, Outcome)) -> bool {
        &&& r.0.program == self.program
        &&& r.0.callers == self.callers
        &&& r.0.vfs == self.vfs
        &&& r.0.continue_after_fault == self.continue_after_fault
        &&& r.0.max_depth == self.max_depth
        &&& r.0.registers.len() == 4
        &&& r.0.memory.len() == MEM_SIZE
        &&& r.0.pointer >= 0
        &&& !(r.1 is Finished)
        &&& (r.1 is Faulted || r.1 is Panicked) ==> r.0 == self
        &&& r.1 matches Outcome::Recovered(f) ==> self.continue_after_fault && r.0.pointer
            > self.pointer && r.0 == (Machine {
            pointer: r.0.pointer,
            output: self.output + self.fault_report(f),
            ..self
        })
        &&& r.1 is Faulted ==> !self.continue_after_fault
    }
}

/// A comment closes at the first marker at or after the place the search
/// starts from, and stays open only if no marker follows.
pub proof fn law_comment_closes_at_next_marker(tokens: Seq<Seq<char>>, from: int)
    requires
        0 <= from,
    ensures
        match comment_close(tokens, from) {
            Some(close) => from <= close < tokens.len() && tokens[close] == "//"@ && forall|j: int|
                from <= j < close ==> tokens[j] != "//"@,
            None => forall|j: int| from <= j < tokens.len() ==> tokens[j] != "//"@,
        },
    decreases tokens.len() - from,
{
    if from < tokens.len() && tokens[from] != "//"@ {
        law_comment_closes_at_next_marker(tokens, from + 1);
    }
}

/// A fault stays in the program, and is the same fault above any caller.
proof fn lemma_raise(m: Machine, fault: Fault, n: int, below: int)
    requires
        m.wf(),
        n > 0,
        0 <= below <= m.callers.len(),
    ensures
        m.stays_in_program(m.raise(fault, n)),
        m.raise(fault, n).1 is Recovered ==> m.raise(fault, n).0.pointer == m.pointer + n,
        m.raise(fault, n).1 is Recovered || m.raise(fault, n).1 is Faulted,
        m.above(below).raise(fault, n) == (m.raise(fault, n).0.above(below), m.raise(fault, n).1),
{
}

/// Loads and stores touch registers and memory only, and are the same above
/// any caller.
proof fn lemma_store(m: Machine, to: Operand, value: u8, below: int)
    requires
        m.wf(),
        0 <= below <= m.callers.len(),
    ensures
        m.store(to, value) matches Ok(next) ==> next.wf() && next.pointer == m.pointer
            && next.program == m.program && next.callers == m.callers && next.vfs == m.vfs
            && next.continue_after_fault == m.continue_after_fault && next.max_depth
            == m.max_depth && next.output == m.output,
        m.above(below).store(to, value) == match m.store(to, value) {
            Ok(next) => Ok::<Machine, Fault>(next.above(below)),
            Err(f) => Err::<Machine, Fault>(f),
        },
        m.above(below).load(to) == m.load(to),
{
}

/// `memset` and `mov` stay in the program and take up three tokens.
proof fn lemma_move(m: Machine, dest: Slot, src: Slot, below: int)
    requires
        m.wf(),
        0 <= below <= m.callers.len(),
    ensures
        m.stays_in_program(m.step_move(dest, src)),
        m.step_move(dest, src).1 is Running || m.step_move(dest, src).1 is Recovered
            ==> m.step_move(dest, src).0.pointer == m.pointer + 3,
        m.above(below).step_move(dest, src) == (
            m.step_move(dest, src).0.above(below),
            m.step_move(dest, src).1,
        ),
{
    match (m.operand(1, dest), m.operand(2, src)) {
        (Ok(to), Ok(from)) => {
            lemma_raise(m, Fault::Requested, 3, below);
            match m.load(from) {
                Ok(value) => {
                    lemma_store(m, to, value, below);
                    match m.store(to, value) {
                        Ok(next) => {},
                        Err(f) => {
                            lemma_raise(m, f, 3, below);
                        },
                    }
                },
                Err(f) => {
                    lemma_raise(m, f, 3, below);
                },
            }
        },
        _ => {},
    }
}

/// Arithmetic stays in the program and takes up four tokens.
proof fn lemma_arithmetic(m: Machine, op: Opcode, below: int)
    requires
        m.wf(),
        0 <= below <= m.callers.len(),
    ensures
        m.stays_in_program(m.step_arithmetic(op)),
        m.step_arithmetic(op).1 is Running || m.step_arithmetic(op).1 is Recovered
            ==> m.step_arithmetic(op).0.pointer == m.pointer + 4,
        m.above(below).step_arithmetic(op) == (
            m.step_arithmetic(op).0.above(below),
            m.step_arithmetic(op).1,
        ),
{
    match (
        m.operand(1, Slot::Arithmetic),
        m.operand(2, Slot::Arithmetic),
        m.operand(3, Slot::Arithmetic),
    ) {
        (Ok(first), Ok(second), Ok(to)) => {
            lemma_store(m, first, 0, below);
            lemma_store(m, second, 0, below);
            match (m.load(first), m.load(second)) {
                (Ok(a), Ok(b)) => {
                    match arithmetic(op, a, b) {
                        Some(value) => {
                            lemma_store(m, to, value, below);
                            match m.store(to, value) {
                                Ok(next) => {},
                                Err(f) => {
                                    lemma_raise(m, f, 4, below);
                                },
                            }
                        },
                        None => {},
                    }
                },
                (Err(f), _) => {
                    lemma_raise(m, f, 4, below);
                },
                (_, Err(f)) => {
                    lemma_raise(m, f, 4, below);
                },
            }
        },
        _ => {},
    }
}

/// Comparisons stay in the program and take up four tokens.
proof fn lemma_compare(m: Machine, op: Opcode, slot: Slot, below: int)
    requires
        m.wf(),
        0 <= below <= m.callers.len(),
    ensures
        m.stays_in_program(m.step_compare(op, slot)),
        m.step_compare(op, slot).1 is Running || m.step_compare(op, slot).1 is Recovered
            ==> m.step_compare(op, slot).0.pointer == m.pointer + 4,
        m.above(below).step_compare(op, slot) == (
            m.step_compare(op, slot).0.above(below),
            m.step_compare(op, slot).1,
        ),
{
    match (m.operand(1, slot), m.operand(2, slot), m.operand(3, slot)) {
        (Ok(to), Ok(left), Ok(right)) => {
            lemma_store(m, left, 0, below);
            lemma_store(m, right, 0, below);
            match (m.load(left), m.load(right)) {
                (Ok(lhs), Ok(rhs)) => {
                    let value = flag(comparison(op, lhs, rhs));
                    lemma_store(m, to, value, below);
                    match m.store(to, value) {
                        Ok(next) => {},
                        Err(f) => {
                            lemma_raise(m, f, 4, below);
                        },
                    }
                },
                (Err(f), _) => {
                    lemma_raise(m, f, 4, below);
                },
                (_, Err(f)) => {
                    lemma_raise(m, f, 4, below);
                },
            }
        },
        _ => {},
    }
}

/// `goto` stays in the program.
proof fn lemma_goto(m: Machine, below: int)
    requires
        m.wf(),
        0 <= below <= m.callers.len(),
    ensures
        m.stays_in_program(m.step_goto()),
        m.above(below).step_goto() == (m.step_goto().0.above(below), m.step_goto().1),
{
    match m.operand(1, Slot::Target) {
        Ok(Operand::Label(_)) => {},
        Ok(target) => {
            lemma_store(m, target, 0, below);
            match m.load(target) {
                Ok(_) => {},
                Err(f) => {
                    lemma_raise(m, f, 2, below);
                },
            }
        },
        Err(_) => {},
    }
}

/// `cgt` stays in the program, and moves forward when it does not jump.
proof fn lemma_cgt(m: Machine, below: int)
    requires
        m.wf(),
        0 <= below <= m.callers.len(),
        m.pointer < m.len(),
    ensures
        m.stays_in_program(m.step_cgt()),
        !m.transfers_control() && (m.step_cgt().1 is Running || m.step_cgt().1 is Recovered)
            && m.opcode() == Some(Opcode::Cgt) ==> m.step_cgt().0.pointer > m.pointer,
        m.above(below).step_cgt() == (m.step_cgt().0.above(below), m.step_cgt().1),
{
    match m.operand(1, Slot::Register) {
        Ok(condition) => {
            lemma_store(m, condition, 0, below);
            match m.load(condition) {
                Ok(_) => {},
                Err(f) => {
                    lemma_raise(m, f, 3, below);
                },
            }
        },
        Err(_) => {},
    }
}

/// `inv` stays in the program and takes up two tokens.
proof fn lemma_inv(m: Machine, below: int)
    requires
        m.wf(),
        0 <= below <= m.callers.len(),
    ensures
        m.stays_in_program(m.step_inv()),
        m.step_inv().1 is Running || m.step_inv().1 is Recovered ==> m.step_inv().0.pointer
            == m.pointer + 2,
        m.above(below).step_inv() == (m.step_inv().0.above(below), m.step_inv().1),
{
    match m.operand(1, Slot::Register) {
        Ok(r) => {
            lemma_store(m, r, 0, below);
            match m.load(r) {
                Ok(value) => {
                    lemma_store(m, r, flag(value == 0), below);
                    match m.store(r, flag(value == 0)) {
                        Ok(_) => {},
                        Err(f) => {
                            lemma_raise(m, f, 2, below);
                        },
                    }
                },
                Err(f) => {
                    lemma_raise(m, f, 2, below);
                },
            }
        },
        Err(_) => {},
    }
}

/// Printing stays in the program and takes up two tokens.
proof fn lemma_out(m: Machine, as_number: bool, below: int)
    requires
        m.wf(),
        0 <= below <= m.callers.len(),
    ensures
        m.stays_in_program(m.step_out(as_number)),
        m.step_out(as_number).1 is Running || m.step_out(as_number).1 is Recovered
            ==> m.step_out(as_number).0.pointer == m.pointer + 2,
        m.above(below).step_out(as_number) == (
            m.step_out(as_number).0.above(below),
            m.step_out(as_number).1,
        ),
{
    match m.operand(1, Slot::Value) {
        Ok(what) => {
            lemma_store(m, what, 0, below);
            match m.load(what) {
                Ok(_) => {},
                Err(f) => {
                    lemma_raise(m, f, 2, below);
                },
            }
        },
        Err(_) => {},
    }
}

/// `vfsr` stays in the program and takes up three tokens.
proof fn lemma_vfsr(m: Machine, below: int)
    requires
        m.wf(),
        0 <= below <= m.callers.len(),
    ensures
        m.stays_in_program(m.step_vfsr()),
        m.step_vfsr().1 is Running || m.step_vfsr().1 is Recovered ==> m.step_vfsr().0.pointer
            == m.pointer + 3,
        m.above(below).step_vfsr() == (m.step_vfsr().0.above(below), m.step_vfsr().1),
{
    lemma_raise(m, Fault::CopyOverflow, 3, below);
}

/// A comment stays in the program and ends further on.
proof fn lemma_comment(m: Machine, below: int)
    requires
        m.wf(),
        0 <= below <= m.callers.len(),
    ensures
        m.stays_in_program(m.step_comment()),
        m.step_comment().1 is Running ==> m.step_comment().0.pointer > m.pointer,
        m.above(below).step_comment() == (m.step_comment().0.above(below), m.step_comment().1),
{
    law_comment_closes_at_next_marker(m.program.tokens, m.pointer + 1);
}

/// `vrlx` either stops the machine as it is or suspends one more program on
/// top of those already suspended.
proof fn lemma_vrlx(m: Machine, below: int)
    requires
        m.wf(),
        0 <= below <= m.callers.len(),
    ensures
        m.step_vrlx().0.wf(),
        !(m.step_vrlx().1 is Finished),
        m.step_vrlx().1 is Running ==> m.step_vrlx().0.callers.len() == m.callers.len() + 1
            && m.step_vrlx().0.callers.take(m.callers.len() as int) == m.callers,
        !(m.step_vrlx().1 is Running) ==> m.step_vrlx().0 == m,
        m.step_vrlx().0.max_depth == m.max_depth,
        m.step_vrlx().0.continue_after_fault == m.continue_after_fault,
        m.step_vrlx().0.vfs == m.vfs,
        m.above(below).step_vrlx() == (m.step_vrlx().0.above(below), m.step_vrlx().1),
{
    if m.step_vrlx().1 is Running {
        assert(m.above(below).step_vrlx().0.callers =~= m.step_vrlx().0.above(below).callers);
    }
}

/// The end of a nested program takes the innermost caller off and touches no
/// other.
proof fn lemma_return(m: Machine, below: int)
    requires
        m.wf(),
        0 <= below < m.callers.len(),
    ensures
        m.step_return().0.wf(),
        m.step_return().1 is Running,
        m.step_return().0.callers == m.callers.drop_last(),
        m.above(below).step_return() == (m.step_return().0.above(below), m.step_return().1),
{
    assert(m.above(below).step_return().0.callers =~= m.step_return().0.above(below).callers);
}

/// Whatever the instruction, a step keeps the state well formed, and it does
/// the same to the machine with fewer programs suspended below, as long as
/// that machine has not finished.
proof fn lemma_step(m: Machine, below: int)
    requires
        m.wf(),
        0 <= below <= m.callers.len(),
    ensures
        m.step().0.wf(),
        !m.above(below).finished() ==> m.above(below).step() == (
            m.step().0.above(below),
            m.step().1,
        ) && m.step().0.callers.len() >= below && m.step().0.callers.take(below)
            == m.callers.take(below),
        m.pointer < m.len() && !m.transfers_control() && (m.step().1 is Running || m.step().1
            is Recovered) ==> m.step().0.pointer > m.pointer && m.step().0.program == m.program
            && m.step().0.callers == m.callers,
        m.step().1 is Faulted || m.step().1 is Panicked || m.step().1 is Finished ==> m.step().0
            == m,
        m.step().1 is Finished <==> m.finished(),
        m.step().1 matches Outcome::Recovered(f) ==> m.continue_after_fault && m.step().0.pointer
            > m.pointer && m.step().0 == (Machine {
            pointer: m.step().0.pointer,
            output: m.output + m.fault_report(f),
            ..m
        }),
        m.step().1 is Faulted ==> !m.continue_after_fault,
        m.step().0.max_depth == m.max_depth,
        m.step().0.continue_after_fault == m.continue_after_fault,
        m.step().0.vfs == m.vfs,
{
    if m.pointer >= m.len() {
        if m.callers.len() > 0 {
            if below < m.callers.len() {
                lemma_return(m, below);
            } else {
                lemma_return(m, 0);
            }
        }
    } else {
        match opcode_named(m.program.tokens[m.pointer]) {
            None => {
                lemma_raise(m, Fault::UnknownInstruction, 1, below);
            },
            Some(op) => {
                match op {
                    Opcode::Label => {},
                    Opcode::Dmp => {},
                    Opcode::Panic => {},
                    Opcode::Fault => {
                        lemma_raise(m, Fault::Requested, 1, below);
                    },
                    Opcode::Memset => {
                        lemma_move(m, Slot::Address, Slot::Byte, below);
                    },
                    Opcode::Mov => {
                        lemma_move(m, Slot::Place, Slot::Place, below);
                    },
                    Opcode::Add | Opcode::Sub | Opcode::Mul | Opcode::Div => {
                        lemma_arithmetic(m, op, below);
                    },
                    Opcode::Goto => {
                        lemma_goto(m, below);
                    },
                    Opcode::Cgt => {
                        lemma_cgt(m, below);
                    },
                    Opcode::Grt | Opcode::Lt => {
                        lemma_compare(m, op, Slot::Register, below);
                    },
                    Opcode::Eq => {
                        lemma_compare(m, op, Slot::Cell, below);
                    },
                    Opcode::Outstr => {
                        lemma_out(m, false, below);
                    },
                    Opcode::Outbyte => {
                        lemma_out(m, true, below);
                    },
                    Opcode::Vfsr => {
                        lemma_vfsr(m, below);
                    },
                    Opcode::Comment => {
                        lemma_comment(m, below);
                    },
                    Opcode::Vrlx => {
                        lemma_vrlx(m, below);
                    },
                    Opcode::Inv => {
                        lemma_inv(m, below);
                    },
                }
            },
        }
    }
}

/// A step keeps the state well formed.
pub proof fn law_step_keeps_shape(m: Machine)
    requires
        m.wf(),
    ensures
        m.step().0.wf(),
{
    lemma_step(m, 0);
}

/// A machine that stops, or reports the end, is left exactly as it was.
pub proof fn law_stop_leaves_state(m: Machine)
    requires
        m.wf(),
    ensures
        m.step().1 is Faulted || m.step().1 is Panicked || m.step().1 is Finished ==> m.step().0
            == m,
{
    lemma_step(m, 0);
}

/// The machine reports the end exactly when the pointer is past the last
/// token and nothing is suspended.
pub proof fn law_finished_exactly_at_end(m: Machine)
    requires
        m.wf(),
    ensures
        m.step().1 is Finished <==> m.finished(),
{
    lemma_step(m, 0);
}

/// The store and the configuration never change.
pub proof fn law_configuration_is_constant(m: Machine, n: nat)
    requires
        m.wf(),
    ensures
        m.after(n).vfs == m.vfs,
        m.after(n).continue_after_fault == m.continue_after_fault,
        m.after(n).max_depth == m.max_depth,
    decreases n,
{
    if n > 0 {
        lemma_step(m, 0);
        law_configuration_is_constant(m.step().0, (n - 1) as nat);
    }
}

/// The pointer only moves forward, except where an instruction hands control
/// elsewhere: any instruction other than a `goto`, a `vrlx` and a taken `cgt`
/// that does not stop the machine leaves the pointer further on, in the same
/// program.
pub proof fn law_pointer_moves_forward(m: Machine)
    requires
        m.wf(),
        m.pointer < m.len(),
        !m.transfers_control(),
        m.step().1 is Running || m.step().1 is Recovered,
    ensures
        m.step().0.pointer > m.pointer,
        m.step().0.program == m.program,
        m.step().0.callers == m.callers,
{
    lemma_step(m, 0);
}

/// A run that reports the end has its pointer past the last token of the
/// outermost program, and a machine that is there reports the end at once.
pub proof fn law_run_ends_exactly_at_end(m: Machine, budget: nat)
    requires
        m.wf(),
    ensures
        m.run(budget).1 is Finished ==> m.run(budget).0.finished(),
        m.finished() && budget > 0 ==> m.run(budget) == (m, Outcome::Finished),
    decreases budget,
{
    if budget > 0 {
        law_finished_exactly_at_end(m);
        lemma_step(m, 0);
        let (next, outcome) = m.step();
        match outcome {
            Outcome::Running | Outcome::Recovered(_) => {
                law_run_ends_exactly_at_end(next, (budget - 1) as nat);
            },
            _ => {},
        }
    }
}

/// A run goes on after a fault that is skipped, so it never ends on one: it
/// ends `Running`, `Finished`, `Faulted` or `Panicked`.
pub proof fn law_run_goes_on_after_skipped_fault(m: Machine, budget: nat)
    ensures
        !(m.run(budget).1 is Recovered),
    decreases budget,
{
    if budget > 0 {
        law_run_goes_on_after_skipped_fault(m.step().0, (budget - 1) as nat);
    }
}

/// A machine that a step leaves as it is stays as it is.
pub proof fn lemma_stopped_stays(m: Machine, n: nat)
    requires
        m.step().0 == m,
    ensures
        m.after(n) == m,
    decreases n,
{
    if n > 0 {
        lemma_stopped_stays(m, (n - 1) as nat);
    }
}

/// A run of `budget` is `budget` steps: once the machine has finished or
/// stopped, further steps change nothing.
pub proof fn law_run_is_repeated_steps(m: Machine, budget: nat)
    requires
        m.wf(),
    ensures
        m.run(budget).0 == m.after(budget),
    decreases budget,
{
    if budget > 0 {
        lemma_step(m, 0);
        match m.step().1 {
            Outcome::Running | Outcome::Recovered(_) => {
                law_run_is_repeated_steps(m.step().0, (budget - 1) as nat);
            },
            _ => {
                lemma_stopped_stays(m, (budget - 1) as nat);
            },
        }
    }
}

/// `n + 1` steps are `n` steps and one more.
pub proof fn lemma_after_step(m: Machine, n: nat)
    ensures
        m.after(n + 1) == m.after(n).step().0,
    decreases n,
{
    reveal_with_fuel(Machine::after, 2);
    if n > 0 {
        lemma_after_step(m.step().0, (n - 1) as nat);
    }
}

/// Steps keep the state well formed.
pub proof fn law_steps_keep_shape(m: Machine, n: nat)
    requires
        m.wf(),
    ensures
        m.after(n).wf(),
    decreases n,
{
    if n > 0 {
        lemma_step(m, 0);
        law_steps_keep_shape(m.step().0, (n - 1) as nat);
    }
}

/// A program runs the same whatever is suspended below it: until the run of
/// its own finishes, `n` steps of the machine are `n` steps of that run, and
/// the programs below stay untouched.
pub proof fn law_run_ignores_callers(m: Machine, below: int, n: nat)
    requires
        m.wf(),
        0 <= below <= m.callers.len(),
        n > 0 ==> !m.above(below).after((n - 1) as nat).finished(),
    ensures
        m.after(n).above(below) == m.above(below).after(n),
        m.after(n).callers.len() >= below,
        m.after(n).callers.take(below) == m.callers.take(below),
        m.after(n).wf(),
    decreases n,
{
    if n == 0 {
    } else {
        if m.above(below).finished() {
            lemma_stopped_stays(m.above(below), (n - 1) as nat);
        }
        lemma_step(m, below);
        law_run_ignores_callers(m.step().0, below, (n - 1) as nat);
    }
}

/// `vrlx` runs the program of a file to its end and then resumes the caller
/// after the `vrlx`. The nested program starts at its first token with the
/// caller's registers, memory, output and store; when its own run has finished
/// after `n` steps, one more step puts the caller's program back with the
/// pointer behind the `vrlx` and the same programs suspended as before, while
/// registers, memory, output and store are as the nested program left them.
pub proof fn law_overlay_returns(m: Machine, n: nat)
    requires
        m.wf(),
        m.opcode() == Some(Opcode::Vrlx),
        m.step().1 is Running,
        m.overlay().after(n).finished(),
        n > 0 ==> !m.overlay().after((n - 1) as nat).finished(),
    ensures
        m.operand(1, Slot::Byte) matches Ok(Operand::Immediate(id)) && m.overlay() == (Machine {
            program: assemble(utf8_lossy(m.vfs.files[id].contents)).unwrap(),
            pointer: 0,
            callers: Seq::empty(),
            max_depth: m.max_depth - m.callers.len() - 1,
            ..m
        }),
        m.after(n + 2) == (Machine {
            program: m.program,
            pointer: m.pointer + 2,
            callers: m.callers,
            max_depth: m.max_depth,
            ..m.overlay().after(n)
        }),
{
    let depth = m.callers.len() as int;
    let entered = m.step().0;
    lemma_vrlx(m, 0);
    assert(entered.callers.skip(depth + 1) =~= Seq::empty());
    law_run_ignores_callers(entered, depth + 1, n);
    let ended = entered.after(n);
    law_configuration_is_constant(entered, n);
    assert(ended.callers =~= ended.callers.take(depth + 1)) by {
        assert(ended.callers.skip(depth + 1).len() == 0);
    }
    assert(ended.callers.drop_last() =~= m.callers);
    lemma_after_step(entered, n);
}

/// A fault stops the machine only under the strict policy, and is skipped
/// only under the lenient one. A fault that is skipped is reported on the
/// output and moves the pointer forward; the registers, the memory and all
/// else are as before, so the faulting instruction has done nothing.
pub proof fn law_skipped_fault_changes_nothing(m: Machine)
    requires
        m.wf(),
    ensures
        m.step().1 is Faulted ==> !m.continue_after_fault && m.step().0 == m,
        m.step().1 matches Outcome::Recovered(f) ==> m.continue_after_fault && m.step().0.pointer
            > m.pointer && m.step().0 == (Machine {
            pointer: m.step().0.pointer,
            output: m.output + m.fault_report(f),
            ..m
        }),
{
    lemma_step(m, 0);
}

/// What a fault comes to under either policy: under the strict one the
/// machine stops as it is; under the lenient one the fault is reported on the
/// output, the faulting instruction is skipped, and nothing else changes.
pub proof fn law_fault_follows_policy(m: Machine, fault: Fault, n: int)
    ensures
        !m.continue_after_fault ==> m.raise(fault, n) == (m, Outcome::Faulted(fault)),
        m.continue_after_fault ==> m.raise(fault, n) == (
            Machine {
                pointer: m.pointer + n,
                output: m.output + m.fault_report(fault),
                ..m
            },
            Outcome::Recovered(fault),
        ),
{
}

/// No address outside `[RESERVED_MIN_MEM_ADDR, MEM_SIZE)` can be read or
/// written: the access is a fault and memory stays as it is.
pub proof fn law_memory_is_bounded(m: Machine, address: usize, value: u8)
    requires
        !Machine::in_bounds(address as int),
    ensures
        m.peek(address as int) == Err::<u8, Fault>(Fault::OutOfBounds { address }),
        m.poke(address as int, value) == Err::<Machine, Fault>(Fault::OutOfBounds { address }),
        m.load(Operand::MemoryDirect(address)) == Err::<u8, Fault>(
            Fault::OutOfBounds { address },
        ),
        m.store(Operand::MemoryDirect(address), value) == Err::<Machine, Fault>(
            Fault::OutOfBounds { address },
        ),
{
}

/// `memset` to an address out of bounds is a fault, handled as the policy
/// says, and writes nothing.
pub proof fn law_memset_out_of_bounds(m: Machine, address: usize, value: u8)
    requires
        m.wf(),
        m.opcode() == Some(Opcode::Memset),
        m.operand(1, Slot::Address) == Ok::<Operand, Trap>(Operand::MemoryDirect(address)),
        m.operand(2, Slot::Byte) == Ok::<Operand, Trap>(Operand::Immediate(value)),
        !Machine::in_bounds(address as int),
    ensures
        m.step() == m.raise(Fault::OutOfBounds { address }, 3),
        m.step().0.memory == m.memory,
        m.step().0.registers == m.registers,
{
}

/// `mov` from a literal address out of bounds is a fault, handled as the
/// policy says, and moves nothing.
pub proof fn law_mov_from_out_of_bounds(m: Machine, to: Operand, address: usize)
    requires
        m.wf(),
        m.opcode() == Some(Opcode::Mov),
        m.operand(1, Slot::Place) == Ok::<Operand, Trap>(to),
        m.operand(2, Slot::Place) == Ok::<Operand, Trap>(Operand::MemoryDirect(address)),
        !Machine::in_bounds(address as int),
    ensures
        m.step() == m.raise(Fault::OutOfBounds { address }, 3),
        m.step().0.memory == m.memory,
        m.step().0.registers == m.registers,
{
}

/// `mov` to a literal address out of bounds is a fault, handled as the policy
/// says, and moves nothing.
pub proof fn law_mov_to_out_of_bounds(m: Machine, address: usize, from: Operand)
    requires
        m.wf(),
        m.opcode() == Some(Opcode::Mov),
        m.operand(1, Slot::Place) == Ok::<Operand, Trap>(Operand::MemoryDirect(address)),
        m.operand(2, Slot::Place) == Ok::<Operand, Trap>(from),
        m.load(from) is Ok,
        !Machine::in_bounds(address as int),
    ensures
        m.step() == m.raise(Fault::OutOfBounds { address }, 3),
        m.step().0.memory == m.memory,
        m.step().0.registers == m.registers,
{
}

/// `memset` of a cell followed by `mov` from that cell leaves the byte where
/// the `mov` points.
pub proof fn law_memset_then_mov(m: Machine, address: usize, value: u8, to: Operand)
    requires
        m.wf(),
        m.opcode() == Some(Opcode::Memset),
        m.operand(1, Slot::Address) == Ok::<Operand, Trap>(Operand::MemoryDirect(address)),
        m.operand(2, Slot::Byte) == Ok::<Operand, Trap>(Operand::Immediate(value)),
        Machine::in_bounds(address as int),
        m.step().0.opcode() == Some(Opcode::Mov),
        m.step().0.operand(1, Slot::Place) == Ok::<Operand, Trap>(to),
        m.step().0.operand(2, Slot::Place) == Ok::<Operand, Trap>(Operand::MemoryDirect(address)),
        to matches Operand::MemoryDirect(a) ==> Machine::in_bounds(a as int),
    ensures
        m.step().1 is Running,
        m.step().0.pointer == m.pointer + 3,
        m.step().0.memory == m.memory.update(address as int, value),
        m.step().0.step().1 is Running,
        m.step().0.step().0.pointer == m.pointer + 6,
        m.step().0.step().0.load(to) == Ok::<u8, Fault>(value),
{
}

/// Arithmetic is modulo 256 on the values of two registers, and a zero
/// divisor is a trap.
pub proof fn law_arithmetic_wraps(m: Machine, op: Opcode, first: Register, second: Register, to: Register)
    requires
        m.wf(),
        m.opcode() == Some(op),
        op is Add || op is Sub || op is Mul || op is Div,
        m.operand(1, Slot::Arithmetic) == Ok::<Operand, Trap>(Operand::Register(first)),
        m.operand(2, Slot::Arithmetic) == Ok::<Operand, Trap>(Operand::Register(second)),
        m.operand(3, Slot::Arithmetic) == Ok::<Operand, Trap>(Operand::Register(to)),
    ensures
        ({
            let a = m.registers[first.index()];
            let b = m.registers[second.index()];
            let result: int = if op is Add {
                (a + b) % 256
            } else if op is Sub {
                (a - b) % 256
            } else if op is Mul {
                (a * b) % 256
            } else {
                a as int / b as int
            };
            if op is Div && b == 0 {
                m.step() == (m, Outcome::Panicked(Trap::DivisionByZero))
            } else {
                &&& 0 <= result < 256
                &&& m.step() == (
                    Machine {
                        registers: m.registers.update(to.index(), result as u8),
                        pointer: m.pointer + 4,
                        ..m
                    },
                    Outcome::Running,
                )
            }
        }),
{
}

/// Any operand of an arithmetic instruction that is not a plain register is a
/// trap.
pub proof fn law_arithmetic_wants_registers(m: Machine, op: Opcode, k: int)
    requires
        m.wf(),
        m.opcode() == Some(op),
        op is Add || op is Sub || op is Mul || op is Div,
        1 <= k <= 3,
        m.pointer + 3 < m.len(),
        register_named(m.program.tokens[m.pointer + k]) is None,
    ensures
        m.step() == (m, Outcome::Panicked(Trap::NonRegisterOperand)),
{
}

/// `goto` jumps to the index a register holds if the operand names a
/// register, and else to the index the label table gives; a label that the
/// table lacks is a trap.
pub proof fn law_goto(m: Machine)
    requires
        m.wf(),
        m.opcode() == Some(Opcode::Goto),
        m.pointer + 1 < m.len(),
    ensures
        ({
            let target = m.program.tokens[m.pointer + 1];
            match register_named(target) {
                Some(r) => m.step() == (
                    Machine { pointer: m.registers[r.index()] as int, ..m },
                    Outcome::Running,
                ),
                None => if m.program.labels.contains_key(target) {
                    m.step() == (
                        Machine { pointer: m.program.labels[target] as int, ..m },
                        Outcome::Running,
                    )
                } else {
                    m.step() == (m, Outcome::Panicked(Trap::UndefinedLabel))
                },
            }
        }),
{
}

/// `cgt` hands control to its label exactly when the register is not zero.
/// When it is zero the next instruction follows and the label is not looked
/// at.
pub proof fn law_cgt(m: Machine, r: Register)
    requires
        m.wf(),
        m.opcode() == Some(Opcode::Cgt),
        m.operand(1, Slot::Register) == Ok::<Operand, Trap>(Operand::Register(r)),
    ensures
        m.transfers_control() <==> m.registers[r.index()] > 0,
        m.registers[r.index()] > 0 ==> m.step() == (match m.operand(2, Slot::Label) {
            Ok(Operand::Label(target)) => (
                Machine { pointer: target as int, ..m },
                Outcome::Running,
            ),
            Ok(_) => (m, Outcome::Panicked(Trap::UndefinedLabel)),
            Err(t) => (m, Outcome::Panicked(t)),
        }),
        m.registers[r.index()] == 0 ==> m.step() == (
            Machine {
                pointer: if m.pointer + 3 <= m.len() {
                    m.pointer + 3
                } else {
                    m.len()
                },
                ..m
            },
            Outcome::Running,
        ),
{
}

/// `grt` sets the destination to 1 exactly when the second operand is
/// greater than the first, `lt` exactly when it is less, `eq` exactly when
/// the two are equal; otherwise to 0.
pub proof fn law_comparisons(m: Machine, op: Opcode, to: Register, left: Register, right: Register)
    requires
        m.wf(),
        m.opcode() == Some(op),
        op is Grt || op is Lt || op is Eq,
        m.pointer + 3 < m.len(),
        register_named(m.program.tokens[m.pointer + 1]) == Some(to),
        register_named(m.program.tokens[m.pointer + 2]) == Some(left),
        register_named(m.program.tokens[m.pointer + 3]) == Some(right),
    ensures
        ({
            let a = m.registers[left.index()];
            let b = m.registers[right.index()];
            let holds = if op is Grt {
                b > a
            } else if op is Lt {
                b < a
            } else {
                b == a
            };
            m.step() == (
                Machine {
                    registers: m.registers.update(
                        to.index(),
                        if holds {
                            1u8
                        } else {
                            0u8
                        },
                    ),
                    pointer: m.pointer + 4,
                    ..m
                },
                Outcome::Running,
            )
        }),
{
}

/// `vfsr` copies nothing unless the whole file fits: a copy that would run
/// past the end of memory is a fault, handled as the policy says.
pub proof fn law_vfsr_overflow(m: Machine, start: usize, id: u8)
    requires
        m.wf(),
        m.opcode() == Some(Opcode::Vfsr),
        m.operand(1, Slot::Pointer) == Ok::<Operand, Trap>(Operand::MemoryDirect(start)),
        m.operand(2, Slot::Byte) == Ok::<Operand, Trap>(Operand::Immediate(id)),
        m.vfs.files.contains_key(id),
        start + m.vfs.files[id].contents.len() > MEM_SIZE,
    ensures
        m.step() == m.raise(Fault::CopyOverflow, 3),
        m.step().0.memory == m.memory,
{
}

/// A program that jumps back to a label it has passed, with nothing in
/// between that changes the state, never ends: after every two steps the
/// machine is where it was, so no budget sees it finish or stop.
pub proof fn law_jump_to_own_label_never_ends(m: Machine, budget: nat)
    requires
        m.wf(),
        m.opcode() == Some(Opcode::Label),
        m.pointer + 3 < m.len(),
        opcode_named(m.program.tokens[m.pointer + 2]) == Some(Opcode::Goto),
        register_named(m.program.tokens[m.pointer + 3]) is None,
        m.program.labels.contains_key(m.program.tokens[m.pointer + 3]),
        m.program.labels[m.program.tokens[m.pointer + 3]] == m.pointer,
    ensures
        m.after(2) == m,
        m.run(budget).1 is Running,
    decreases budget,
{
    reveal_with_fuel(Machine::after, 3);
    reveal_with_fuel(Machine::run, 3);
    if budget >= 2 {
        law_jump_to_own_label_never_ends(m, (budget - 2) as nat);
    }
}

/// Brings the spelling of every opcode into view.
proof fn lemma_opcode_spellings()
    ensures
        "label"@ == seq!['l', 'a', 'b', 'e', 'l'],
        "dmp"@ == seq!['d', 'm', 'p'],
        "panic"@ == seq!['p', 'a', 'n', 'i', 'c'],
        "fault"@ == seq!['f', 'a', 'u', 'l', 't'],
        "memset"@ == seq!['m', 'e', 'm', 's', 'e', 't'],
        "mov"@ == seq!['m', 'o', 'v'],
        "add"@ == seq!['a', 'd', 'd'],
        "sub"@ == seq!['s', 'u', 'b'],
        "mul"@ == seq!['m', 'u', 'l'],
        "div"@ == seq!['d', 'i', 'v'],
        "goto"@ == seq!['g', 'o', 't', 'o'],
        "cgt"@ == seq!['c', 'g', 't'],
        "grt"@ == seq!['g', 'r', 't'],
        "lt"@ == seq!['l', 't'],
        "eq"@ == seq!['e', 'q'],
        "outstr"@ == seq!['o', 'u', 't', 's', 't', 'r'],
        "outbyte"@ == seq!['o', 'u', 't', 'b', 'y', 't', 'e'],
        "vfsr"@ == seq!['v', 'f', 's', 'r'],
        "//"@ == seq!['/', '/'],
        "vrlx"@ == seq!['v', 'r', 'l', 'x'],
        "inv"@ == seq!['i', 'n', 'v'],
{
    reveal_strlit("label");
    reveal_strlit("dmp");
    reveal_strlit("panic");
    reveal_strlit("fault");
    reveal_strlit("memset");
    reveal_strlit("mov");
    reveal_strlit("add");
    reveal_strlit("sub");
    reveal_strlit("mul");
    reveal_strlit("div");
    reveal_strlit("goto");
    reveal_strlit("cgt");
    reveal_strlit("grt");
    reveal_strlit("lt");
    reveal_strlit("eq");
    reveal_strlit("outstr");
    reveal_strlit("outbyte");
    reveal_strlit("vfsr");
    reveal_strlit("//");
    reveal_strlit("vrlx");
    reveal_strlit("inv");
    assert("label"@ =~= seq!['l', 'a', 'b', 'e', 'l']);
    assert("dmp"@ =~= seq!['d', 'm', 'p']);
    assert("panic"@ =~= seq!['p', 'a', 'n', 'i', 'c']);
    assert("fault"@ =~= seq!['f', 'a', 'u', 'l', 't']);
    assert("memset"@ =~= seq!['m', 'e', 'm', 's', 'e', 't']);
    assert("mov"@ =~= seq!['m', 'o', 'v']);
    assert("add"@ =~= seq!['a', 'd', 'd']);
    assert("sub"@ =~= seq!['s', 'u', 'b']);
    assert("mul"@ =~= seq!['m', 'u', 'l']);
    assert("div"@ =~= seq!['d', 'i', 'v']);
    assert("goto"@ =~= seq!['g', 'o', 't', 'o']);
    assert("cgt"@ =~= seq!['c', 'g', 't']);
    assert("grt"@ =~= seq!['g', 'r', 't']);
    assert("lt"@ =~= seq!['l', 't']);
    assert("eq"@ =~= seq!['e', 'q']);
    assert("outstr"@ =~= seq!['o', 'u', 't', 's', 't', 'r']);
    assert("outbyte"@ =~= seq!['o', 'u', 't', 'b', 'y', 't', 'e']);
    assert("vfsr"@ =~= seq!['v', 'f', 's', 'r']);
    assert("//"@ =~= seq!['/', '/']);
    assert("vrlx"@ =~= seq!['v', 'r', 'l', 'x']);
    assert("inv"@ =~= seq!['i', 'n', 'v']);
}

/// Brings the spelling of every register name into view.
proof fn lemma_register_spellings()
    ensures
        "rax"@ == seq!['r', 'a', 'x'],
        "R0"@ == seq!['R', '0'],
        "*rax"@ == seq!['*', 'r', 'a', 'x'],
        "*R0"@ == seq!['*', 'R', '0'],
        "rbx"@ == seq!['r', 'b', 'x'],
        "R1"@ == seq!['R', '1'],
        "*rbx"@ == seq!['*', 'r', 'b', 'x'],
        "*R1"@ == seq!['*', 'R', '1'],
        "rcx"@ == seq!['r', 'c', 'x'],
        "R2"@ == seq!['R', '2'],
        "*rcx"@ == seq!['*', 'r', 'c', 'x'],
        "*R2"@ == seq!['*', 'R', '2'],
        "rdx"@ == seq!['r', 'd', 'x'],
        "R3"@ == seq!['R', '3'],
        "*rdx"@ == seq!['*', 'r', 'd', 'x'],
        "*R3"@ == seq!['*', 'R', '3'],
{
    reveal_strlit("rax");
    reveal_strlit("R0");
    reveal_strlit("*rax");
    reveal_strlit("*R0");
    reveal_strlit("rbx");
    reveal_strlit("R1");
    reveal_strlit("*rbx");
    reveal_strlit("*R1");
    reveal_strlit("rcx");
    reveal_strlit("R2");
    reveal_strlit("*rcx");
    reveal_strlit("*R2");
    reveal_strlit("rdx");
    reveal_strlit("R3");
    reveal_strlit("*rdx");
    reveal_strlit("*R3");
    assert("rax"@ =~= seq!['r', 'a', 'x']);
    assert("R0"@ =~= seq!['R', '0']);
    assert("*rax"@ =~= seq!['*', 'r', 'a', 'x']);
    assert("*R0"@ =~= seq!['*', 'R', '0']);
    assert("rbx"@ =~= seq!['r', 'b', 'x']);
    assert("R1"@ =~= seq!['R', '1']);
    assert("*rbx"@ =~= seq!['*', 'r', 'b', 'x']);
    assert("*R1"@ =~= seq!['*', 'R', '1']);
    assert("rcx"@ =~= seq!['r', 'c', 'x']);
    assert("R2"@ =~= seq!['R', '2']);
    assert("*rcx"@ =~= seq!['*', 'r', 'c', 'x']);
    assert("*R2"@ =~= seq!['*', 'R', '2']);
    assert("rdx"@ =~= seq!['r', 'd', 'x']);
    assert("R3"@ =~= seq!['R', '3']);
    assert("*rdx"@ =~= seq!['*', 'r', 'd', 'x']);
    assert("*R3"@ =~= seq!['*', 'R', '3']);
}

/// Every opcode is named by its own mnemonic, and no register name is a
/// mnemonic.
pub proof fn law_opcode_names()
    ensures
        opcode_named("label"@) == Some(Opcode::Label),
        opcode_named("dmp"@) == Some(Opcode::Dmp),
        opcode_named("panic"@) == Some(Opcode::Panic),
        opcode_named("fault"@) == Some(Opcode::Fault),
        opcode_named("memset"@) == Some(Opcode::Memset),
        opcode_named("mov"@) == Some(Opcode::Mov),
        opcode_named("add"@) == Some(Opcode::Add),
        opcode_named("sub"@) == Some(Opcode::Sub),
        opcode_named("mul"@) == Some(Opcode::Mul),
        opcode_named("div"@) == Some(Opcode::Div),
        opcode_named("goto"@) == Some(Opcode::Goto),
        opcode_named("cgt"@) == Some(Opcode::Cgt),
        opcode_named("grt"@) == Some(Opcode::Grt),
        opcode_named("lt"@) == Some(Opcode::Lt),
        opcode_named("eq"@) == Some(Opcode::Eq),
        opcode_named("outstr"@) == Some(Opcode::Outstr),
        opcode_named("outbyte"@) == Some(Opcode::Outbyte),
        opcode_named("vfsr"@) == Some(Opcode::Vfsr),
        opcode_named("//"@) == Some(Opcode::Comment),
        opcode_named("vrlx"@) == Some(Opcode::Vrlx),
        opcode_named("inv"@) == Some(Opcode::Inv),
        opcode_named("rax"@) is None,
        opcode_named("R0"@) is None,
        opcode_named("*rax"@) is None,
        opcode_named("*R0"@) is None,
        opcode_named("rbx"@) is None,
        opcode_named("R1"@) is None,
        opcode_named("*rbx"@) is None,
        opcode_named("*R1"@) is None,
        opcode_named("rcx"@) is None,
        opcode_named("R2"@) is None,
        opcode_named("*rcx"@) is None,
        opcode_named("*R2"@) is None,
        opcode_named("rdx"@) is None,
        opcode_named("R3"@) is None,
        opcode_named("*rdx"@) is None,
        opcode_named("*R3"@) is None,
{
    lemma_opcode_spellings();
    lemma_register_spellings();
}

/// Each register has two names, and each name behind a `*` stands for the
/// cell the register addresses. No mnemonic names a register.
pub proof fn law_register_names()
    ensures
        register_named("rax"@) == Some(Register::R0),
        register_named("R0"@) == Some(Register::R0),
        indirect_named("*rax"@) == Some(Register::R0),
        indirect_named("*R0"@) == Some(Register::R0),
        register_named("*rax"@) is None,
        register_named("*R0"@) is None,
        indirect_named("rax"@) is None,
        indirect_named("R0"@) is None,
        register_named("rbx"@) == Some(Register::R1),
        register_named("R1"@) == Some(Register::R1),
        indirect_named("*rbx"@) == Some(Register::R1),
        indirect_named("*R1"@) == Some(Register::R1),
        register_named("*rbx"@) is None,
        register_named("*R1"@) is None,
        indirect_named("rbx"@) is None,
        indirect_named("R1"@) is None,
        register_named("rcx"@) == Some(Register::R2),
        register_named("R2"@) == Some(Register::R2),
        indirect_named("*rcx"@) == Some(Register::R2),
        indirect_named("*R2"@) == Some(Register::R2),
        register_named("*rcx"@) is None,
        register_named("*R2"@) is None,
        indirect_named("rcx"@) is None,
        indirect_named("R2"@) is None,
        register_named("rdx"@) == Some(Register::R3),
        register_named("R3"@) == Some(Register::R3),
        indirect_named("*rdx"@) == Some(Register::R3),
        indirect_named("*R3"@) == Some(Register::R3),
        register_named("*rdx"@) is None,
        register_named("*R3"@) is None,
        indirect_named("rdx"@) is None,
        indirect_named("R3"@) is None,
        register_named("label"@) is None,
        indirect_named("label"@) is None,
        register_named("dmp"@) is None,
        indirect_named("dmp"@) is None,
        register_named("panic"@) is None,
        indirect_named("panic"@) is None,
        register_named("fault"@) is None,
        indirect_named("fault"@) is None,
        register_named("memset"@) is None,
        indirect_named("memset"@) is None,
        register_named("mov"@) is None,
        indirect_named("mov"@) is None,
        register_named("add"@) is None,
        indirect_named("add"@) is None,
        register_named("sub"@) is None,
        indirect_named("sub"@) is None,
        register_named("mul"@) is None,
        indirect_named("mul"@) is None,
        register_named("div"@) is None,
        indirect_named("div"@) is None,
        register_named("goto"@) is None,
        indirect_named("goto"@) is None,
        register_named("cgt"@) is None,
        indirect_named("cgt"@) is None,
        register_named("grt"@) is None,
        indirect_named("grt"@) is None,
        register_named("lt"@) is None,
        indirect_named("lt"@) is None,
        register_named("eq"@) is None,
        indirect_named("eq"@) is None,
        register_named("outstr"@) is None,
        indirect_named("outstr"@) is None,
        register_named("outbyte"@) is None,
        indirect_named("outbyte"@) is None,
        register_named("vfsr"@) is None,
        indirect_named("vfsr"@) is None,
        register_named("//"@) is None,
        indirect_named("//"@) is None,
        register_named("vrlx"@) is None,
        indirect_named("vrlx"@) is None,
        register_named("inv"@) is None,
        indirect_named("inv"@) is None,
{
    lemma_opcode_spellings();
    lemma_register_spellings();
}

/// The cited token is the failing operand, for one group of opcodes.
proof fn lemma_cites_moves(m: Machine, op: Opcode, trap: Trap)
    requires
        m.wf(),
        m.opcode() == Some(op),
        m.step().1 == Outcome::Panicked(trap),
        trap is MalformedOperand || trap is UnknownRegister || trap is NonRegisterOperand || trap
            is UndefinedLabel,
        op is Memset || op is Mov,
    ensures
        exists|k: int|
            1 <= k <= 3 && (#[trigger] operand_slot(op, k)) is Some && m.operand(
                k,
                operand_slot(op, k).unwrap(),
            ) == Err::<Operand, Trap>(trap) && m.culprit(op, 1) == m.program.tokens[m.pointer + k],
{
    reveal_with_fuel(Machine::culprit, 4);
    let k: int = if operand_slot(op, 1) is Some && m.operand(1, operand_slot(op, 1).unwrap())
        is Err {
        1
    } else if operand_slot(op, 2) is Some && m.operand(2, operand_slot(op, 2).unwrap()) is Err {
        2
    } else {
        3
    };
    assert(operand_slot(op, k) is Some && m.operand(k, operand_slot(op, k).unwrap()) == Err::<
        Operand,
        Trap,
    >(trap) && m.culprit(op, 1) == m.program.tokens[m.pointer + k]);
}

/// The cited token is the failing operand, for one group of opcodes.
proof fn lemma_cites_arithmetic(m: Machine, op: Opcode, trap: Trap)
    requires
        m.wf(),
        m.opcode() == Some(op),
        m.step().1 == Outcome::Panicked(trap),
        trap is MalformedOperand || trap is UnknownRegister || trap is NonRegisterOperand || trap
            is UndefinedLabel,
        op is Add || op is Sub || op is Mul || op is Div,
    ensures
        exists|k: int|
            1 <= k <= 3 && (#[trigger] operand_slot(op, k)) is Some && m.operand(
                k,
                operand_slot(op, k).unwrap(),
            ) == Err::<Operand, Trap>(trap) && m.culprit(op, 1) == m.program.tokens[m.pointer + k],
{
    reveal_with_fuel(Machine::culprit, 4);
    let k: int = if operand_slot(op, 1) is Some && m.operand(1, operand_slot(op, 1).unwrap())
        is Err {
        1
    } else if operand_slot(op, 2) is Some && m.operand(2, operand_slot(op, 2).unwrap()) is Err {
        2
    } else {
        3
    };
    assert(operand_slot(op, k) is Some && m.operand(k, operand_slot(op, k).unwrap()) == Err::<
        Operand,
        Trap,
    >(trap) && m.culprit(op, 1) == m.program.tokens[m.pointer + k]);
}

/// The cited token is the failing operand, for one group of opcodes.
proof fn lemma_cites_jumps(m: Machine, op: Opcode, trap: Trap)
    requires
        m.wf(),
        m.opcode() == Some(op),
        m.step().1 == Outcome::Panicked(trap),
        trap is MalformedOperand || trap is UnknownRegister || trap is NonRegisterOperand || trap
            is UndefinedLabel,
        op is Goto || op is Cgt,
    ensures
        exists|k: int|
            1 <= k <= 3 && (#[trigger] operand_slot(op, k)) is Some && m.operand(
                k,
                operand_slot(op, k).unwrap(),
            ) == Err::<Operand, Trap>(trap) && m.culprit(op, 1) == m.program.tokens[m.pointer + k],
{
    reveal_with_fuel(Machine::culprit, 4);
    let k: int = if operand_slot(op, 1) is Some && m.operand(1, operand_slot(op, 1).unwrap())
        is Err {
        1
    } else if operand_slot(op, 2) is Some && m.operand(2, operand_slot(op, 2).unwrap()) is Err {
        2
    } else {
        3
    };
    assert(operand_slot(op, k) is Some && m.operand(k, operand_slot(op, k).unwrap()) == Err::<
        Operand,
        Trap,
    >(trap) && m.culprit(op, 1) == m.program.tokens[m.pointer + k]);
}

/// The cited token is the failing operand, for one group of opcodes.
proof fn lemma_cites_comparisons(m: Machine, op: Opcode, trap: Trap)
    requires
        m.wf(),
        m.opcode() == Some(op),
        m.step().1 == Outcome::Panicked(trap),
        trap is MalformedOperand || trap is UnknownRegister || trap is NonRegisterOperand || trap
            is UndefinedLabel,
        op is Grt || op is Lt || op is Eq,
    ensures
        exists|k: int|
            1 <= k <= 3 && (#[trigger] operand_slot(op, k)) is Some && m.operand(
                k,
                operand_slot(op, k).unwrap(),
            ) == Err::<Operand, Trap>(trap) && m.culprit(op, 1) == m.program.tokens[m.pointer + k],
{
    reveal_with_fuel(Machine::culprit, 4);
    let k: int = if operand_slot(op, 1) is Some && m.operand(1, operand_slot(op, 1).unwrap())
        is Err {
        1
    } else if operand_slot(op, 2) is Some && m.operand(2, operand_slot(op, 2).unwrap()) is Err {
        2
    } else {
        3
    };
    assert(operand_slot(op, k) is Some && m.operand(k, operand_slot(op, k).unwrap()) == Err::<
        Operand,
        Trap,
    >(trap) && m.culprit(op, 1) == m.program.tokens[m.pointer + k]);
}

/// The cited token is the failing operand, for one group of opcodes.
proof fn lemma_cites_single(m: Machine, op: Opcode, trap: Trap)
    requires
        m.wf(),
        m.opcode() == Some(op),
        m.step().1 == Outcome::Panicked(trap),
        trap is MalformedOperand || trap is UnknownRegister || trap is NonRegisterOperand || trap
            is UndefinedLabel,
        op is Outstr || op is Outbyte || op is Inv,
    ensures
        exists|k: int|
            1 <= k <= 3 && (#[trigger] operand_slot(op, k)) is Some && m.operand(
                k,
                operand_slot(op, k).unwrap(),
            ) == Err::<Operand, Trap>(trap) && m.culprit(op, 1) == m.program.tokens[m.pointer + k],
{
    reveal_with_fuel(Machine::culprit, 4);
    let k: int = if operand_slot(op, 1) is Some && m.operand(1, operand_slot(op, 1).unwrap())
        is Err {
        1
    } else if operand_slot(op, 2) is Some && m.operand(2, operand_slot(op, 2).unwrap()) is Err {
        2
    } else {
        3
    };
    assert(operand_slot(op, k) is Some && m.operand(k, operand_slot(op, k).unwrap()) == Err::<
        Operand,
        Trap,
    >(trap) && m.culprit(op, 1) == m.program.tokens[m.pointer + k]);
}

/// The cited token is the failing operand, for one group of opcodes.
proof fn lemma_cites_files(m: Machine, op: Opcode, trap: Trap)
    requires
        m.wf(),
        m.opcode() == Some(op),
        m.step().1 == Outcome::Panicked(trap),
        trap is MalformedOperand || trap is UnknownRegister || trap is NonRegisterOperand || trap
            is UndefinedLabel,
        op is Vfsr || op is Vrlx,
    ensures
        exists|k: int|
            1 <= k <= 3 && (#[trigger] operand_slot(op, k)) is Some && m.operand(
                k,
                operand_slot(op, k).unwrap(),
            ) == Err::<Operand, Trap>(trap) && m.culprit(op, 1) == m.program.tokens[m.pointer + k],
{
    reveal_with_fuel(Machine::culprit, 4);
    let k: int = if operand_slot(op, 1) is Some && m.operand(1, operand_slot(op, 1).unwrap())
        is Err {
        1
    } else if operand_slot(op, 2) is Some && m.operand(2, operand_slot(op, 2).unwrap()) is Err {
        2
    } else {
        3
    };
    assert(operand_slot(op, k) is Some && m.operand(k, operand_slot(op, k).unwrap()) == Err::<
        Operand,
        Trap,
    >(trap) && m.culprit(op, 1) == m.program.tokens[m.pointer + k]);
}

/// The cited token is the failing operand, for one group of opcodes.
proof fn lemma_cites_bare(m: Machine, op: Opcode, trap: Trap)
    requires
        m.wf(),
        m.opcode() == Some(op),
        m.step().1 == Outcome::Panicked(trap),
        trap is MalformedOperand || trap is UnknownRegister || trap is NonRegisterOperand || trap
            is UndefinedLabel,
        op is Label || op is Dmp || op is Panic || op is Fault || op is Comment,
    ensures
        exists|k: int|
            1 <= k <= 3 && (#[trigger] operand_slot(op, k)) is Some && m.operand(
                k,
                operand_slot(op, k).unwrap(),
            ) == Err::<Operand, Trap>(trap) && m.culprit(op, 1) == m.program.tokens[m.pointer + k],
{
    reveal_with_fuel(Machine::culprit, 4);
    let k: int = if operand_slot(op, 1) is Some && m.operand(1, operand_slot(op, 1).unwrap())
        is Err {
        1
    } else if operand_slot(op, 2) is Some && m.operand(2, operand_slot(op, 2).unwrap()) is Err {
        2
    } else {
        3
    };
    assert(operand_slot(op, k) is Some && m.operand(k, operand_slot(op, k).unwrap()) == Err::<
        Operand,
        Trap,
    >(trap) && m.culprit(op, 1) == m.program.tokens[m.pointer + k]);
}

/// A trap that is about an operand cites that operand: when a step stops on
/// a malformed operand, an unknown register, a non-register operand or an
/// undefined label, the token that `trap_cause` quotes is the operand that
/// did not resolve, and it failed with that very trap.
pub proof fn law_trap_cites_its_operand(m: Machine, op: Opcode, trap: Trap)
    requires
        m.wf(),
        m.opcode() == Some(op),
        m.step().1 == Outcome::Panicked(trap),
        trap is MalformedOperand || trap is UnknownRegister || trap is NonRegisterOperand || trap
            is UndefinedLabel,
    ensures
        exists|k: int|
            1 <= k <= 3 && (#[trigger] operand_slot(op, k)) is Some && m.operand(
                k,
                operand_slot(op, k).unwrap(),
            ) == Err::<Operand, Trap>(trap) && m.culprit(op, 1) == m.program.tokens[m.pointer + k],
{
    match op {
        Opcode::Memset | Opcode::Mov => lemma_cites_moves(m, op, trap),
        Opcode::Add | Opcode::Sub | Opcode::Mul | Opcode::Div => lemma_cites_arithmetic(
            m,
            op,
            trap,
        ),
        Opcode::Goto | Opcode::Cgt => lemma_cites_jumps(m, op, trap),
        Opcode::Grt | Opcode::Lt | Opcode::Eq => lemma_cites_comparisons(m, op, trap),
        Opcode::Outstr | Opcode::Outbyte | Opcode::Inv => lemma_cites_single(m, op, trap),
        Opcode::Vfsr | Opcode::Vrlx => lemma_cites_files(m, op, trap),
        _ => lemma_cites_bare(m, op, trap),
    }
}

} // verus!
