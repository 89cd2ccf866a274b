//! The execution engine: the state of the machine and what each instruction
//! does to it.
//!
//! The engine never prints and never computes on floats. Where an instruction
//! shows a value, or needs arithmetic on two floats, the step says so and the
//! run stops there; the host does its part and lets the run go on behind that
//! instruction.

use crate::arith::{compute, outcome, ArithFault, Computed, FloatTask, Operator};
use crate::bytecode::{decode, decoding, Address, DecodeError, Instruction, Register};
use crate::value::{Immediate, Kind};
use vstd::prelude::*;

verus! {

/// Why an instruction fails.
#[derive(Clone, Copy, Debug, PartialEq, Eq, Structural)]
pub enum Fault {
    /// A register index is 8 or more.
    BadRegister,
    /// A heap address is not below the capacity of the heap.
    BadAddress,
    /// A pop found the stack empty.
    EmptyStack,
    /// A jump or a return found a value that is neither `U8` nor `U16`.
    NotALocation,
    /// An operator has no result on its operands.
    Arithmetic(ArithFault),
}

/// What the host has to do once an instruction has been executed.
#[derive(Clone, Copy, Debug, PartialEq, Eq, Structural)]
pub enum Step {
    /// Nothing.
    Done,
    /// Show the value.
    Show(Immediate),
    /// Carry out the operation and hand the result to
    /// [`VirtualMachine::resolve`].
    Float(FloatTask),
}

/// Why a run stopped. `index` is the position in the program of the
/// instruction that stopped it.
#[derive(Clone, Copy, Debug, PartialEq, Eq, Structural)]
pub enum Halt {
    /// The last instruction of the program has been executed.
    Finished,
    /// An instruction shows a value.
    Show { index: usize, value: Immediate },
    /// An instruction needs arithmetic on floats.
    Float { index: usize, task: FloatTask },
    /// An instruction failed.
    Fault { index: usize, instruction: Instruction, fault: Fault },
}

/// The state of a machine.
#[verifier::ext_equal]
pub struct MachineState {
    pub ip: usize,
    pub flag_eq: bool,
    pub flag_gt: bool,
    pub regs: Seq<Immediate>,
    pub code: Seq<Instruction>,
    pub stack: Seq<Immediate>,
    pub heap: Seq<Immediate>,
    pub running: bool,
}

/// The state that an instruction leaves, and what it reports.
#[verifier::ext_equal]
pub struct Transition {
    pub state: MachineState,
    pub result: Result<Step, Fault>,
}

/// The state in which a run stopped, and why.
#[verifier::ext_equal]
pub struct Run {
    pub state: MachineState,
    pub halt: Halt,
}

impl MachineState {
    /// The state of a new machine for a program and a heap capacity.
    pub open spec fn initial(code: Seq<Instruction>, capacity: nat) -> MachineState {
        MachineState {
            ip: 0,
            flag_eq: false,
            flag_gt: false,
            regs: Seq::new(8, |i: int| Immediate::U8(0)),
            code,
            stack: Seq::empty(),
            heap: Seq::new(capacity, |i: int| Immediate::U8(0)),
            running: false,
        }
    }

    /// The machine has eight registers.
    pub open spec fn well_formed(self) -> bool {
        self.regs.len() == 8
    }

    pub open spec fn with_reg(self, r: Register, v: Immediate) -> MachineState {
        MachineState { regs: self.regs.update(r as int, v), ..self }
    }

    pub open spec fn with_cell(self, a: Address, v: Immediate) -> MachineState {
        MachineState { heap: self.heap.update(a as int, v), ..self }
    }

    pub open spec fn pushed(self, v: Immediate) -> MachineState {
        MachineState { stack: self.stack.push(v), ..self }
    }

    pub open spec fn popped(self) -> MachineState {
        MachineState { stack: self.stack.drop_last(), ..self }
    }

    pub open spec fn done(self) -> Transition {
        Transition { state: self, result: Ok(Step::Done) }
    }

    pub open spec fn fault(self, f: Fault) -> Transition {
        Transition { state: self, result: Err(f) }
    }

    /// A jump to the location that a value names.
    pub open spec fn jump_to(self, target: Immediate) -> Transition {
        match target {
            Immediate::U8(v) => MachineState { ip: v as usize, ..self }.done(),
            Immediate::U16(v) => MachineState { ip: v as usize, ..self }.done(),
            _ => self.fault(Fault::NotALocation),
        }
    }

    /// A jump to the location that a register holds.
    pub open spec fn jump(self, r: Register) -> Transition {
        if r < 8 {
            self.jump_to(self.regs[r as int])
        } else {
            self.fault(Fault::BadRegister)
        }
    }

    /// Pushes what `lhs op rhs` yields.
    pub open spec fn operate(self, op: Operator, lhs: Immediate, rhs: Immediate) -> Transition {
        match outcome(op, lhs, rhs) {
            Ok(Computed::Value(v)) => self.pushed(v).done(),
            Ok(Computed::Float(task)) => Transition { state: self, result: Ok(Step::Float(task)) },
            Err(e) => self.fault(Fault::Arithmetic(e)),
        }
    }

    /// An operator on the registers `a` and `b`, in this order.
    pub open spec fn operate_on(self, op: Operator, a: Register, b: Register) -> Transition {
        if a < 8 && b < 8 {
            self.operate(op, self.regs[a as int], self.regs[b as int])
        } else {
            self.fault(Fault::BadRegister)
        }
    }

    /// What an instruction does. A state that fails is left as it was, but
    /// for what the instruction had pushed or popped before it failed.
    pub open spec fn step(self, instr: Instruction) -> Transition {
        match instr {
            Instruction::NOP() => self.done(),
            Instruction::MOV(r, v) => if r < 8 {
                self.with_reg(r, v).done()
            } else {
                self.fault(Fault::BadRegister)
            },
            Instruction::MOVR(to, from) => if to < 8 && from < 8 {
                self.with_reg(to, self.regs[from as int]).done()
            } else {
                self.fault(Fault::BadRegister)
            },
            Instruction::JMP(r) => self.jump(r),
            Instruction::JE(r) => if self.flag_eq {
                self.jump(r)
            } else {
                self.done()
            },
            Instruction::JNE(r) => if self.flag_eq {
                self.done()
            } else {
                self.jump(r)
            },
            Instruction::JG(r) => if self.flag_gt {
                self.jump(r)
            } else {
                self.done()
            },
            Instruction::JL(r) => if self.flag_gt {
                self.done()
            } else {
                self.jump(r)
            },
            Instruction::CMP(a, b) => if a < 8 && b < 8 {
                MachineState {
                    flag_eq: self.regs[a as int].spec_equals(self.regs[b as int]),
                    flag_gt: self.regs[a as int].spec_exceeds(self.regs[b as int]),
                    ..self
                }.done()
            } else {
                self.fault(Fault::BadRegister)
            },
            Instruction::PRINTR(r) => if r < 8 {
                Transition { state: self, result: Ok(Step::Show(self.regs[r as int])) }
            } else {
                self.fault(Fault::BadRegister)
            },
            Instruction::PRINTV(a) => if a < self.heap.len() {
                Transition { state: self, result: Ok(Step::Show(self.heap[a as int])) }
            } else {
                self.fault(Fault::BadAddress)
            },
            Instruction::VSTORE(a, v) => if a < self.heap.len() {
                self.with_cell(a, v).done()
            } else {
                self.fault(Fault::BadAddress)
            },
            Instruction::VLOAD(a) => if a < self.heap.len() {
                self.pushed(self.heap[a as int]).done()
            } else {
                self.fault(Fault::BadAddress)
            },
            Instruction::VSTORER(a, r) => if r >= 8 {
                self.fault(Fault::BadRegister)
            } else if a >= self.heap.len() {
                self.fault(Fault::BadAddress)
            } else {
                self.with_cell(a, self.regs[r as int]).done()
            },
            Instruction::VLOADR(r, a) => if a >= self.heap.len() {
                self.fault(Fault::BadAddress)
            } else if r >= 8 {
                self.fault(Fault::BadRegister)
            } else {
                self.with_reg(r, self.heap[a as int]).done()
            },
            Instruction::ADD(a, b) => self.operate_on(Operator::Add, a, b),
            Instruction::SUB(a, b) => self.operate_on(Operator::Sub, a, b),
            Instruction::MUL(a, b) => self.operate_on(Operator::Mul, b, a),
            Instruction::DIV(a, b) => self.operate_on(Operator::Div, b, a),
            Instruction::AND(a, b) => self.operate_on(Operator::And, b, a),
            Instruction::OR(a, b) => self.operate_on(Operator::Or, b, a),
            Instruction::XOR(a, b) => self.operate_on(Operator::Xor, b, a),
            Instruction::SHR(r, v) => if r < 8 {
                self.operate(Operator::Shr, v, self.regs[r as int])
            } else {
                self.fault(Fault::BadRegister)
            },
            Instruction::SHL(r, v) => if r < 8 {
                self.operate(Operator::Shl, v, self.regs[r as int])
            } else {
                self.fault(Fault::BadRegister)
            },
            Instruction::VPUSH(v) => self.pushed(v).done(),
            Instruction::VPUSHR(r) => if r < 8 {
                self.pushed(self.regs[r as int]).done()
            } else {
                self.fault(Fault::BadRegister)
            },
            Instruction::VPOP(r) => if self.stack.len() == 0 {
                self.fault(Fault::EmptyStack)
            } else if r < 8 {
                self.popped().with_reg(r, self.stack.last()).done()
            } else {
                self.popped().fault(Fault::BadRegister)
            },
            Instruction::CALL(r) => self.pushed(
                Immediate::U16(((self.ip + 1) % 0x1_0000) as u16),
            ).jump(r),
            Instruction::RET() => if self.stack.len() == 0 {
                self.fault(Fault::EmptyStack)
            } else {
                self.popped().jump_to(self.stack.last())
            },
            Instruction::HALT() => MachineState { running: false, ..self }.done(),
        }
    }

    /// What the answer of the host to a task does: an answer of the kind of
    /// the operands is pushed, any other is refused.
    pub open spec fn settle(self, task: FloatTask, answer: Immediate) -> Transition {
        if task.lhs.spec_kind().is_float() && answer.spec_kind() == task.lhs.spec_kind() {
            self.pushed(answer).done()
        } else {
            self.fault(Fault::Arithmetic(ArithFault::Unsupported))
        }
    }
}

/// The run of a program from the instruction at `from` on: one instruction
/// after the other in the order of the program, whatever `ip` holds, up to
/// the end of the program or to the first step that is not `Done`.
pub open spec fn run(code: Seq<Instruction>, s: MachineState, from: int) -> Run
    decreases code.len() - from,
{
    if from < 0 || from >= code.len() {
        Run { state: s, halt: Halt::Finished }
    } else {
        let t = s.step(code[from]);
        match t.result {
            Ok(Step::Done) => run(code, t.state, from + 1),
            Ok(Step::Show(value)) => Run {
                state: t.state,
                halt: Halt::Show { index: from as usize, value },
            },
            Ok(Step::Float(task)) => Run {
                state: t.state,
                halt: Halt::Float { index: from as usize, task },
            },
            Err(fault) => Run {
                state: t.state,
                halt: Halt::Fault { index: from as usize, instruction: code[from], fault },
            },
        }
    }
}

/// A run that starts on an instruction goes on behind it with the state
/// that the instruction left, if the instruction reported `Done`.
pub proof fn lemma_run_unfold(code: Seq<Instruction>, s: MachineState, from: int)
    requires
        0 <= from < code.len(),
    ensures
        s.step(code[from]).result == Ok::<Step, Fault>(Step::Done) ==> run(code, s, from) == run(
            code,
            s.step(code[from]).state,
            from + 1,
        ),
        s.step(code[from]).result != Ok::<Step, Fault>(Step::Done) ==> run(code, s, from).state
            == s.step(code[from]).state,
        s.step(code[from]).result matches Ok(Step::Show(value)) ==> run(code, s, from).halt
            == (Halt::Show { index: from as usize, value }),
        s.step(code[from]).result matches Ok(Step::Float(task)) ==> run(code, s, from).halt
            == (Halt::Float { index: from as usize, task }),
        s.step(code[from]).result matches Err(fault) ==> run(code, s, from).halt == (Halt::Fault {
            index: from as usize,
            instruction: code[from],
            fault,
        }),
{
}

pub struct VirtualMachine {
    ip: Address,
    flag_eq: bool,
    flag_gt: bool,
    reg: [Immediate; 8],
    code: Vec<Instruction>,
    stack: Vec<Immediate>,
    data: Vec<Immediate>,
    is_executing: bool,
}

impl View for VirtualMachine {
    type V = MachineState;

    closed spec fn view(&self) -> MachineState {
        MachineState {
            ip: self.ip,
            flag_eq: self.flag_eq,
            flag_gt: self.flag_gt,
            regs: self.reg@,
            code: self.code@,
            stack: self.stack@,
            heap: self.data@,
            running: self.is_executing,
        }
    }
}

impl VirtualMachine {
    /// Decodes a program and makes a machine for it, with a heap of
    /// `heap_capacity` cells. Every register and every cell holds `U8(0)`.
    pub fn new(c: Vec<u8>, heap_capacity: usize) -> (r: Result<VirtualMachine, DecodeError>)
        ensures
            match r {
                Ok(vm) => {
                    &&& decoding(c@) == Ok::<Seq<Instruction>, DecodeError>(vm@.code)
                    &&& vm@ == MachineState::initial(vm@.code, heap_capacity as nat)
                },
                Err(e) => decoding(c@) == Err::<Seq<Instruction>, DecodeError>(e),
            },
    {
        let code: Vec<Instruction> = match decode(c) {
            Ok(code) => code,
            Err(e) => {
                return Err(e);
            },
        };
        let data: Vec<Immediate> = vec![Immediate::U8(0); heap_capacity];
        let vm = VirtualMachine {
            ip: 0,
            flag_eq: false,
            flag_gt: false,
            reg: [Immediate::U8(0);8],
            code,
            stack: Vec::new(),
            data,
            is_executing: false,
        };
        assert(vm@ =~= MachineState::initial(vm@.code, heap_capacity as nat));
        Ok(vm)
    }

    /// The position that the last jump, call or return named.
    pub fn ip(&self) -> (r: Address)
        ensures
            r == self@.ip,
    {
        self.ip
    }

    /// Whether the last comparison found its operands equal.
    pub fn flag_eq(&self) -> (r: bool)
        ensures
            r == self@.flag_eq,
    {
        self.flag_eq
    }

    /// Whether the last comparison found its first operand greater.
    pub fn flag_gt(&self) -> (r: bool)
        ensures
            r == self@.flag_gt,
    {
        self.flag_gt
    }

    pub fn is_running(&self) -> (r: bool)
        ensures
            r == self@.running,
    {
        self.is_executing
    }

    pub fn registers(&self) -> (r: &[Immediate; 8])
        ensures
            r@ == self@.regs,
    {
        &self.reg
    }

    pub fn code(&self) -> (r: &Vec<Instruction>)
        ensures
            r@ == self@.code,
    {
        &self.code
    }

    /// The operand stack, the top last.
    pub fn stack(&self) -> (r: &Vec<Immediate>)
        ensures
            r@ == self@.stack,
    {
        &self.stack
    }

    pub fn heap(&self) -> (r: &Vec<Immediate>)
        ensures
            r@ == self@.heap,
    {
        &self.data
    }

    /// Every machine has eight registers.
    pub proof fn lemma_well_formed(&self)
        ensures
            self@.well_formed(),
    {
    }

    fn jump_to(&mut self, target: Immediate) -> (r: Result<Step, Fault>)
        ensures
            final(self)@ == old(self)@.jump_to(target).state,
            r == old(self)@.jump_to(target).result,
    {
        match target {
            Immediate::U8(v) => {
                self.ip = v as usize;
                Ok(Step::Done)
            },
            Immediate::U16(v) => {
                self.ip = v as usize;
                Ok(Step::Done)
            },
            _ => Err(Fault::NotALocation),
        }
    }

    fn jump(&mut self, r: Register) -> (res: Result<Step, Fault>)
        ensures
            final(self)@ == old(self)@.jump(r).state,
            res == old(self)@.jump(r).result,
    {
        if r < 8 {
            let target: Immediate = self.reg[r];
            self.jump_to(target)
        } else {
            Err(Fault::BadRegister)
        }
    }

    fn operate(&mut self, op: Operator, lhs: Immediate, rhs: Immediate) -> (res: Result<
        Step,
        Fault,
    >)
        ensures
            final(self)@ == old(self)@.operate(op, lhs, rhs).state,
            res == old(self)@.operate(op, lhs, rhs).result,
    {
        match compute(op, lhs, rhs) {
            Ok(Computed::Value(v)) => {
                self.stack.push(v);
                Ok(Step::Done)
            },
            Ok(Computed::Float(task)) => Ok(Step::Float(task)),
            Err(e) => Err(Fault::Arithmetic(e)),
        }
    }

    fn operate_on(&mut self, op: Operator, a: Register, b: Register) -> (res: Result<Step, Fault>)
        ensures
            final(self)@ == old(self)@.operate_on(op, a, b).state,
            res == old(self)@.operate_on(op, a, b).result,
    {
        if a < 8 && b < 8 {
            let lhs: Immediate = self.reg[a];
            let rhs: Immediate = self.reg[b];
            self.operate(op, lhs, rhs)
        } else {
            Err(Fault::BadRegister)
        }
    }

    /// Executes one instruction.
    pub fn execute(&mut self, instr: Instruction) -> (r: Result<Step, Fault>)
        ensures
            final(self)@ == old(self)@.step(instr).state,
            r == old(self)@.step(instr).result,
            final(self)@.well_formed(),
    {
        match instr {
            Instruction::NOP() => Ok(Step::Done),
            Instruction::MOV(r, v) => {
                if r < 8 {
                    self.reg[r] = v;
                    Ok(Step::Done)
                } else {
                    Err(Fault::BadRegister)
                }
            },
            Instruction::MOVR(to, from) => {
                if to < 8 && from < 8 {
                    self.reg[to] = self.reg[from];
                    Ok(Step::Done)
                } else {
                    Err(Fault::BadRegister)
                }
            },
            Instruction::JMP(r) => self.jump(r),
            Instruction::JE(r) => {
                if self.flag_eq {
                    self.jump(r)
                } else {
                    Ok(Step::Done)
                }
            },
            Instruction::JNE(r) => {
                if self.flag_eq {
                    Ok(Step::Done)
                } else {
                    self.jump(r)
                }
            },
            Instruction::JG(r) => {
                if self.flag_gt {
                    self.jump(r)
                } else {
                    Ok(Step::Done)
                }
            },
            Instruction::JL(r) => {
                if self.flag_gt {
                    Ok(Step::Done)
                } else {
                    self.jump(r)
                }
            },
            Instruction::CMP(a, b) => {
                if a < 8 && b < 8 {
                    let v1: Immediate = self.reg[a];
                    let v2: Immediate = self.reg[b];
                    self.flag_eq = v1.equals(v2);
                    self.flag_gt = v1.exceeds(v2);
                    Ok(Step::Done)
                } else {
                    Err(Fault::BadRegister)
                }
            },
            Instruction::PRINTR(r) => {
                if r < 8 {
                    Ok(Step::Show(self.reg[r]))
                } else {
                    Err(Fault::BadRegister)
                }
            },
            Instruction::PRINTV(a) => {
                if a < self.data.len() {
                    Ok(Step::Show(self.data[a]))
                } else {
                    Err(Fault::BadAddress)
                }
            },
            Instruction::VSTORE(a, v) => {
                if a < self.data.len() {
                    self.data[a] = v;
                    Ok(Step::Done)
                } else {
                    Err(Fault::BadAddress)
                }
            },
            Instruction::VLOAD(a) => {
                if a < self.data.len() {
                    let v: Immediate = self.data[a];
                    self.stack.push(v);
                    Ok(Step::Done)
                } else {
                    Err(Fault::BadAddress)
                }
            },
            Instruction::VSTORER(a, r) => {
                if r >= 8 {
                    Err(Fault::BadRegister)
                } else if a >= self.data.len() {
                    Err(Fault::BadAddress)
                } else {
                    self.data[a] = self.reg[r];
                    Ok(Step::Done)
                }
            },
            Instruction::VLOADR(r, a) => {
                if a >= self.data.len() {
                    Err(Fault::BadAddress)
                } else if r >= 8 {
                    Err(Fault::BadRegister)
                } else {
                    self.reg[r] = self.data[a];
                    Ok(Step::Done)
                }
            },
            Instruction::ADD(a, b) => self.operate_on(Operator::Add, a, b),
            Instruction::SUB(a, b) => self.operate_on(Operator::Sub, a, b),
            Instruction::MUL(a, b) => self.operate_on(Operator::Mul, b, a),
            Instruction::DIV(a, b) => self.operate_on(Operator::Div, b, a),
            Instruction::AND(a, b) => self.operate_on(Operator::And, b, a),
            Instruction::OR(a, b) => self.operate_on(Operator::Or, b, a),
            Instruction::XOR(a, b) => self.operate_on(Operator::Xor, b, a),
            Instruction::SHR(r, v) => {
                if r < 8 {
                    let by: Immediate = self.reg[r];
                    self.operate(Operator::Shr, v, by)
                } else {
                    Err(Fault::BadRegister)
                }
            },
            Instruction::SHL(r, v) => {
                if r < 8 {
                    let by: Immediate = self.reg[r];
                    self.operate(Operator::Shl, v, by)
                } else {
                    Err(Fault::BadRegister)
                }
            },
            Instruction::VPUSH(v) => {
                self.stack.push(v);
                Ok(Step::Done)
            },
            Instruction::VPUSHR(r) => {
                if r < 8 {
                    let v: Immediate = self.reg[r];
                    self.stack.push(v);
                    Ok(Step::Done)
                } else {
                    Err(Fault::BadRegister)
                }
            },
            Instruction::VPOP(r) => {
                match self.stack.pop() {
                    Some(v) => {
                        if r < 8 {
                            self.reg[r] = v;
                            Ok(Step::Done)
                        } else {
                            Err(Fault::BadRegister)
                        }
                    },
                    None => Err(Fault::EmptyStack),
                }
            },
            Instruction::CALL(r) => {
                let back: usize = (self.ip % 0x1_0000 + 1) % 0x1_0000;
                self.stack.push(Immediate::U16(back as u16));
                self.jump(r)
            },
            Instruction::RET() => {
                match self.stack.pop() {
                    Some(v) => self.jump_to(v),
                    None => Err(Fault::EmptyStack),
                }
            },
            Instruction::HALT() => {
                self.is_executing = false;
                Ok(Step::Done)
            },
        }
    }

    /// Hands the machine the result of a task: the host has computed
    /// `task.lhs op task.rhs` and `answer` holds it.
    pub fn resolve(&mut self, task: FloatTask, answer: Immediate) -> (r: Result<Step, Fault>)
        ensures
            final(self)@ == old(self)@.settle(task, answer).state,
            r == old(self)@.settle(task, answer).result,
            final(self)@.well_formed(),
    {
        let kind: Kind = task.lhs.kind();
        if (kind == Kind::F32 || kind == Kind::F64) && answer.kind() == kind {
            self.stack.push(answer);
            Ok(Step::Done)
        } else {
            Err(Fault::Arithmetic(ArithFault::Unsupported))
        }
    }

    /// Runs the program from its instruction `start` on.
    pub fn run_from(&mut self, start: usize) -> (h: Halt)
        ensures
            final(self)@ == run(old(self)@.code, old(self)@, start as int).state,
            h == run(old(self)@.code, old(self)@, start as int).halt,
            final(self)@.well_formed(),
    {
        let mut i: usize = start;
        while i < self.code.len()
            invariant
                self@.code == old(self)@.code,
                run(old(self)@.code, old(self)@, start as int) == run(
                    old(self)@.code,
                    self@,
                    i as int,
                ),
            decreases self.code.len() - i,
        {
            let instr: Instruction = self.code[i];
            proof {
                lemma_run_unfold(self@.code, self@, i as int);
            }
            match self.execute(instr) {
                Ok(Step::Done) => {},
                Ok(Step::Show(value)) => {
                    return Halt::Show { index: i, value };
                },
                Ok(Step::Float(task)) => {
                    return Halt::Float { index: i, task };
                },
                Err(fault) => {
                    return Halt::Fault { index: i, instruction: instr, fault };
                },
            }
            i += 1;
        }
        Halt::Finished
    }

    /// Runs the whole program.
    pub fn cpu(&mut self) -> (h: Halt)
        ensures
            final(self)@ == run(old(self)@.code, old(self)@, 0).state,
            h == run(old(self)@.code, old(self)@, 0).halt,
            final(self)@.well_formed(),
    {
        self.run_from(0)
    }
}

} // verus!
