//! The virtual machine: its state and the execution of its instructions.

use crate::mv::{Instr, InstrArg, InstrList, VmError};
use crate::mv_mem::{
    copy_between, do_arith, do_compare, do_negate, get_raw, is_truthy, move_within, put_raw,
    width_of,
};
use crate::mv_spec::{
    execute, ip_of, raw_at, raw_bytes, run, step, width, write_at, Event, Kind, Machine, Shape,
    Step, GLOBAL_BASE, GLOBAL_SIZE, NO_INSTR, STACK_SIZE,
};
use vstd::prelude::*;

verus! {

/// The address in the machine's memory of the byte `offset` of the globals.
pub fn global_address(offset: usize) -> (addr: usize)
    requires
        offset <= GLOBAL_SIZE,
    ensures
        addr == GLOBAL_BASE + offset,
{
    65536 + offset
}

/// The virtual machine: a stack of bytes with its stack pointer, the
/// frame pointer, the instruction pointer and the area of the globals.
#[derive(Debug)]
pub struct VirtualMachine {
    pub stack: Vec<u8>,
    pub globals: Vec<u8>,
    /// The number of bytes on the stack.
    pub sp: usize,
    pub fp: u64,
    /// The index of the instruction to execute.
    pub ip: u64,
}

impl View for VirtualMachine {
    type V = Machine;

    open spec fn view(&self) -> Machine {
        Machine {
            stack: self.stack@,
            globals: self.globals@,
            sp: self.sp as int,
            fp: self.fp,
            ip: self.ip,
        }
    }
}

impl VirtualMachine {
    /// A machine with an empty stack, globals of zeros and no
    /// instruction to execute.
    pub fn new() -> (vm: Self)
        ensures
            vm@.wf(),
            vm@.sp == 0,
            vm@.fp == 0,
            vm@.ip == NO_INSTR,
            vm@.stack == Seq::new(STACK_SIZE as nat, |i: int| 0u8),
            vm@.globals == Seq::new(GLOBAL_SIZE as nat, |i: int| 0u8),
    {
        let vm = VirtualMachine {
            stack: vec![0u8; 32768],
            globals: vec![0u8; 32768],
            sp: 0,
            fp: 0,
            ip: 0xffff_ffff_ffff_ffff,
        };
        assert(vm@.stack =~= Seq::new(STACK_SIZE as nat, |i: int| 0u8));
        assert(vm@.globals =~= Seq::new(GLOBAL_SIZE as nat, |i: int| 0u8));
        vm
    }

    /// Sets the instruction pointer to the first instruction of a list.
    pub fn start(&mut self, instr_list: &InstrList)
        ensures
            final(self)@ == (Machine { ip: ip_of(instr_list@.front), ..old(self)@ }),
    {
        self.ip = match instr_list.front {
            Some(i) => i as u64,
            None => 0xffff_ffff_ffff_ffff,
        };
    }

    /// Whether the stack has room for `n` more bytes.
    pub fn check_top(&self, n: usize) -> (ok: bool)
        ensures
            ok == (self@.sp + n <= STACK_SIZE),
    {
        self.sp <= 32768 && n <= 32768 - self.sp
    }

    /// Whether the stack holds at least `n` bytes.
    pub fn check_bot(&self, n: usize) -> (ok: bool)
        ensures
            ok == (n <= self@.sp),
    {
        n <= self.sp
    }

    /// Pushes a value of the kind. A stack without room for it is an error
    /// and stays as it is.
    pub fn push(&mut self, k: Kind, v: u64) -> (r: Result<(), VmError>)
        requires
            old(self)@.wf(),
        ensures
            final(self)@.wf(),
            old(self)@.sp + width(k) <= STACK_SIZE ==> r is Ok && final(self)@ == (Machine {
                stack: write_at(old(self)@.stack, old(self)@.sp, raw_bytes(k, v)),
                sp: old(self)@.sp + width(k),
                ..old(self)@
            }),
            old(self)@.sp + width(k) > STACK_SIZE ==> r == Err::<(), VmError>(VmError::StackError)
                && final(self)@ == old(self)@,
    {
        let w = width_of(k);
        if !self.check_top(w) {
            return Err(VmError::StackError);
        }
        put_raw(&mut self.stack, self.sp, k, v);
        self.sp = self.sp + w;
        Ok(())
    }

    /// Pops a value of the kind. A stack with too few bytes is an error and
    /// stays as it is.
    pub fn pop(&mut self, k: Kind) -> (r: Result<u64, VmError>)
        requires
            old(self)@.wf(),
        ensures
            final(self)@.wf(),
            old(self)@.sp >= width(k) ==> r == Ok::<u64, VmError>(
                raw_at(old(self)@.stack, old(self)@.sp - width(k), k),
            ) && final(self)@ == (Machine { sp: old(self)@.sp - width(k), ..old(self)@ }),
            old(self)@.sp < width(k) ==> r == Err::<u64, VmError>(VmError::StackError)
                && final(self)@ == old(self)@,
    {
        let w = width_of(k);
        if !self.check_bot(w) {
            return Err(VmError::StackError);
        }
        let v = get_raw(&self.stack, self.sp - w, k);
        self.sp = self.sp - w;
        Ok(v)
    }

    /// Replaces the top `n` bytes of the stack by a value of the kind and
    /// sets the instruction pointer.
    fn replace(&mut self, n: usize, k: Kind, v: u64, ip: u64) -> (e: Event)
        requires
            old(self)@.wf(),
            n <= 16,
        ensures
            final(self)@.wf(),
            (Step { machine: final(self)@, event: e }) == crate::mv_spec::replace_top(
                old(self)@,
                n as int,
                k,
                v,
                ip,
            ),
    {
        let w = width_of(k);
        if self.sp < n {
            return Event::Fail(VmError::StackError);
        }
        let at = self.sp - n;
        if at + w > 32768 {
            return Event::Fail(VmError::StackError);
        }
        put_raw(&mut self.stack, at, k, v);
        self.sp = at + w;
        self.ip = ip;
        Event::Continue
    }

    /// Executes one instruction.
    pub fn execute(&mut self, ins: &Instr) -> (e: Event)
        requires
            old(self)@.wf(),
        ensures
            final(self)@.wf(),
            (Step { machine: final(self)@, event: e }) == execute(old(self)@, *ins),
    {
        match ins.opcode.get_shape() {
            Shape::Arith(_, _) => self.arithmetic(ins),
            Shape::Cmp(_, _) => self.comparison(ins),
            Shape::And(_) => self.logic(ins),
            Shape::Or(_) => self.logic(ins),
            Shape::Neg(_) => self.unary(ins),
            Shape::Not(_) => self.unary(ins),
            Shape::Cast(_, _) => self.unary(ins),
            Shape::PushCt(_) => self.push_constant(ins),
            Shape::PushFpAddr => self.push_constant(ins),
            Shape::Call => self.push_constant(ins),
            Shape::Jt(_) => self.branch(ins),
            Shape::Jf(_) => self.branch(ins),
            Shape::Jmp => self.jump(ins),
            Shape::CallExt => self.jump(ins),
            Shape::Nop => self.jump(ins),
            Shape::Halt => self.jump(ins),
            Shape::Invalid => self.jump(ins),
            Shape::Load => self.load(ins),
            Shape::Store => self.store(ins),
            Shape::Offset => self.offset(ins),
            Shape::Insert => self.insert(ins),
            Shape::Drop => self.frame(ins),
            Shape::Enter => self.frame(ins),
            Shape::Ret => self.ret(ins),
        }
    }

    /// The arithmetic of two values on the stack.
    fn arithmetic(&mut self, ins: &Instr) -> (e: Event)
        requires
            old(self)@.wf(),
            ins.opcode.shape() is Arith,
        ensures
            final(self)@.wf(),
            (Step { machine: final(self)@, event: e }) == execute(old(self)@, *ins),
    {
        let next: u64 = match ins.next {
            Some(i) => i as u64,
            None => 0xffff_ffff_ffff_ffff,
        };
        let sp = self.sp;
        match ins.opcode.get_shape() {
            Shape::Arith(op, k) => {
                let w = width_of(k);
                if k == Kind::D {
                    self.ip = next;
                    Event::Real(ins.opcode)
                } else if sp < 2 * w {
                    Event::Fail(VmError::StackError)
                } else {
                    let a = get_raw(&self.stack, sp - 2 * w, k);
                    let b = get_raw(&self.stack, sp - w, k);
                    match do_arith(op, k, a, b) {
                        Some(r) => self.replace(2 * w, k, r, next),
                        None => Event::Fail(VmError::DivisionByZero),
                    }
                }
            },
            _ => Event::Fail(VmError::InvalidOpcode),
        }
    }

    /// The comparison of two values on the stack.
    fn comparison(&mut self, ins: &Instr) -> (e: Event)
        requires
            old(self)@.wf(),
            ins.opcode.shape() is Cmp,
        ensures
            final(self)@.wf(),
            (Step { machine: final(self)@, event: e }) == execute(old(self)@, *ins),
    {
        let next: u64 = match ins.next {
            Some(i) => i as u64,
            None => 0xffff_ffff_ffff_ffff,
        };
        let sp = self.sp;
        match ins.opcode.get_shape() {
            Shape::Cmp(op, k) => {
                let w = width_of(k);
                if k == Kind::D {
                    self.ip = next;
                    Event::Real(ins.opcode)
                } else if sp < 2 * w {
                    Event::Fail(VmError::StackError)
                } else {
                    let a = get_raw(&self.stack, sp - 2 * w, k);
                    let b = get_raw(&self.stack, sp - w, k);
                    let r: u64 = if do_compare(op, k, a, b) {
                        1
                    } else {
                        0
                    };
                    self.replace(2 * w, Kind::I, r, next)
                }
            },
            _ => Event::Fail(VmError::InvalidOpcode),
        }
    }

    /// The conjunction or disjunction of two values on the stack.
    fn logic(&mut self, ins: &Instr) -> (e: Event)
        requires
            old(self)@.wf(),
            ins.opcode.shape() is And || ins.opcode.shape() is Or,
        ensures
            final(self)@.wf(),
            (Step { machine: final(self)@, event: e }) == execute(old(self)@, *ins),
    {
        let next: u64 = match ins.next {
            Some(i) => i as u64,
            None => 0xffff_ffff_ffff_ffff,
        };
        let sp = self.sp;
        match ins.opcode.get_shape() {
            Shape::And(k) => {
                let w = width_of(k);
                if sp < 2 * w {
                    Event::Fail(VmError::StackError)
                } else {
                    let a = get_raw(&self.stack, sp - 2 * w, k);
                    let b = get_raw(&self.stack, sp - w, k);
                    let r: u64 = if is_truthy(k, a) && is_truthy(k, b) {
                        1
                    } else {
                        0
                    };
                    self.replace(2 * w, Kind::I, r, next)
                }
            },
            Shape::Or(k) => {
                let w = width_of(k);
                if sp < 2 * w {
                    Event::Fail(VmError::StackError)
                } else {
                    let a = get_raw(&self.stack, sp - 2 * w, k);
                    let b = get_raw(&self.stack, sp - w, k);
                    let r: u64 = if is_truthy(k, a) || is_truthy(k, b) {
                        1
                    } else {
                        0
                    };
                    self.replace(2 * w, Kind::I, r, next)
                }
            },
            _ => Event::Fail(VmError::InvalidOpcode),
        }
    }

    /// The negation, the logical negation or the cast of the value on top
    /// of the stack.
    fn unary(&mut self, ins: &Instr) -> (e: Event)
        requires
            old(self)@.wf(),
            ins.opcode.shape() is Neg || ins.opcode.shape() is Not || ins.opcode.shape() is Cast,
        ensures
            final(self)@.wf(),
            (Step { machine: final(self)@, event: e }) == execute(old(self)@, *ins),
    {
        let next: u64 = match ins.next {
            Some(i) => i as u64,
            None => 0xffff_ffff_ffff_ffff,
        };
        let sp = self.sp;
        match ins.opcode.get_shape() {
            Shape::Neg(k) => {
                let w = width_of(k);
                if sp < w {
                    Event::Fail(VmError::StackError)
                } else {
                    let v = get_raw(&self.stack, sp - w, k);
                    self.replace(w, k, do_negate(k, v), next)
                }
            },
            Shape::Not(k) => {
                let w = width_of(k);
                if sp < w {
                    Event::Fail(VmError::StackError)
                } else {
                    let v = get_raw(&self.stack, sp - w, k);
                    let r: u64 = if is_truthy(k, v) {
                        0
                    } else {
                        1
                    };
                    self.replace(w, Kind::I, r, next)
                }
            },
            Shape::Cast(from, to) => {
                let w = width_of(from);
                if from == Kind::D || to == Kind::D {
                    self.ip = next;
                    Event::Real(ins.opcode)
                } else if sp < w {
                    Event::Fail(VmError::StackError)
                } else {
                    let v = get_raw(&self.stack, sp - w, from);
                    self.replace(w, to, v, next)
                }
            },
            _ => Event::Fail(VmError::InvalidOpcode),
        }
    }

    /// The push of a constant, of an address in the frame, or of the
    /// return address of a call.
    fn push_constant(&mut self, ins: &Instr) -> (e: Event)
        requires
            old(self)@.wf(),
            ins.opcode.shape() is PushCt || ins.opcode.shape() == Shape::PushFpAddr || ins.opcode.shape() == Shape::Call,
        ensures
            final(self)@.wf(),
            (Step { machine: final(self)@, event: e }) == execute(old(self)@, *ins),
    {
        let next: u64 = match ins.next {
            Some(i) => i as u64,
            None => 0xffff_ffff_ffff_ffff,
        };
        let sp = self.sp;
        match ins.opcode.get_shape() {
            Shape::PushCt(k) => {
                let c: Option<u64> = match (k, ins.arg1) {
                    (Kind::A, Some(InstrArg::Addr(a))) => Some(a as u64),
                    (Kind::I, Some(InstrArg::Int(v))) => Some(v as u64),
                    (Kind::C, Some(InstrArg::Int(v))) => Some((v as u64) & 0xff),
                    (Kind::D, Some(InstrArg::Double(bits))) => Some(bits),
                    _ => None,
                };
                match c {
                    Some(v) => self.replace(0, k, v, next),
                    None => Event::Fail(VmError::InvalidOpcode),
                }
            },
            Shape::PushFpAddr => match ins.arg1 {
                Some(InstrArg::Int(off)) => {
                    let base: u64 = 131072;
                    let addr = base.wrapping_add(self.fp).wrapping_add(off as u64);
                    self.replace(0, Kind::A, addr, next)
                },
                _ => Event::Fail(VmError::InvalidOpcode),
            },
            Shape::Call => match ins.arg1 {
                Some(InstrArg::Addr(a)) => self.replace(0, Kind::A, next, a as u64),
                _ => Event::Fail(VmError::InvalidOpcode),
            },
            _ => Event::Fail(VmError::InvalidOpcode),
        }
    }

    /// A jump that depends on the value on top of the stack.
    fn branch(&mut self, ins: &Instr) -> (e: Event)
        requires
            old(self)@.wf(),
            ins.opcode.shape() is Jt || ins.opcode.shape() is Jf,
        ensures
            final(self)@.wf(),
            (Step { machine: final(self)@, event: e }) == execute(old(self)@, *ins),
    {
        let next: u64 = match ins.next {
            Some(i) => i as u64,
            None => 0xffff_ffff_ffff_ffff,
        };
        let sp = self.sp;
        match ins.opcode.get_shape() {
            Shape::Jt(k) => match ins.arg1 {
                Some(InstrArg::Addr(a)) => {
                    let w = width_of(k);
                    if sp < w {
                        Event::Fail(VmError::StackError)
                    } else {
                        let v = get_raw(&self.stack, sp - w, k);
                        self.sp = sp - w;
                        self.ip = if is_truthy(k, v) {
                            a as u64
                        } else {
                            next
                        };
                        Event::Continue
                    }
                },
                _ => Event::Fail(VmError::InvalidOpcode),
            },
            Shape::Jf(k) => match ins.arg1 {
                Some(InstrArg::Addr(a)) => {
                    let w = width_of(k);
                    if sp < w {
                        Event::Fail(VmError::StackError)
                    } else {
                        let v = get_raw(&self.stack, sp - w, k);
                        self.sp = sp - w;
                        self.ip = if is_truthy(k, v) {
                            next
                        } else {
                            a as u64
                        };
                        Event::Continue
                    }
                },
                _ => Event::Fail(VmError::InvalidOpcode),
            },
            _ => Event::Fail(VmError::InvalidOpcode),
        }
    }

    /// The instructions that leave the stack alone.
    fn jump(&mut self, ins: &Instr) -> (e: Event)
        requires
            old(self)@.wf(),
            ins.opcode.shape() == Shape::Jmp || ins.opcode.shape() == Shape::CallExt
                || ins.opcode.shape() == Shape::Nop || ins.opcode.shape() == Shape::Halt
                || ins.opcode.shape() == Shape::Invalid,
        ensures
            final(self)@.wf(),
            (Step { machine: final(self)@, event: e }) == execute(old(self)@, *ins),
    {
        let next: u64 = match ins.next {
            Some(i) => i as u64,
            None => 0xffff_ffff_ffff_ffff,
        };
        let sp = self.sp;
        match ins.opcode.get_shape() {
            Shape::Jmp => match ins.arg1 {
                Some(InstrArg::Addr(a)) => {
                    self.ip = a as u64;
                    Event::Continue
                },
                _ => Event::Fail(VmError::InvalidOpcode),
            },
            Shape::CallExt => match ins.arg1 {
                Some(InstrArg::Addr(a)) => {
                    self.ip = next;
                    Event::CallExt(a)
                },
                _ => Event::Fail(VmError::InvalidOpcode),
            },
            Shape::Nop => {
                self.ip = next;
                Event::Continue
            },
            Shape::Halt => Event::Halt,
            _ => Event::Fail(VmError::InvalidOpcode),
        }
    }

    /// `OFFSET`: the integer on top of the stack is added to the address
    /// below it.
    fn offset(&mut self, ins: &Instr) -> (e: Event)
        requires
            old(self)@.wf(),
            ins.opcode.shape() == Shape::Offset,
        ensures
            final(self)@.wf(),
            (Step { machine: final(self)@, event: e }) == execute(old(self)@, *ins),
    {
        let next: u64 = match ins.next {
            Some(i) => i as u64,
            None => 0xffff_ffff_ffff_ffff,
        };
        let sp = self.sp;
        if sp < 16 {
            Event::Fail(VmError::StackError)
        } else {
            let a = get_raw(&self.stack, sp - 16, Kind::A);
            let i = get_raw(&self.stack, sp - 8, Kind::I);
            self.replace(16, Kind::A, a.wrapping_add(i), next)
        }
    }

    /// `DROP n` takes `n` bytes from the stack; `ENTER n` opens a frame
    /// with `n` bytes of locals.
    fn frame(&mut self, ins: &Instr) -> (e: Event)
        requires
            old(self)@.wf(),
            ins.opcode.shape() == Shape::Drop || ins.opcode.shape() == Shape::Enter,
        ensures
            final(self)@.wf(),
            (Step { machine: final(self)@, event: e }) == execute(old(self)@, *ins),
    {
        let next: u64 = match ins.next {
            Some(i) => i as u64,
            None => 0xffff_ffff_ffff_ffff,
        };
        let sp = self.sp;
        match ins.opcode.get_shape() {
            Shape::Drop => match ins.arg1 {
                Some(InstrArg::Int(n)) => if n < 0 {
                    Event::Fail(VmError::InvalidOpcode)
                } else if n > 32768 || sp < n as usize {
                    Event::Fail(VmError::StackError)
                } else {
                    self.sp = sp - n as usize;
                    self.ip = next;
                    Event::Continue
                },
                _ => Event::Fail(VmError::InvalidOpcode),
            },
            Shape::Enter => match ins.arg1 {
                Some(InstrArg::Int(n)) => if n < 0 {
                    Event::Fail(VmError::InvalidOpcode)
                } else if n > 32768 || sp + 8 + n as usize > 32768 {
                    Event::Fail(VmError::StackError)
                } else {
                    put_raw(&mut self.stack, sp, Kind::A, self.fp);
                    self.fp = (sp + 8) as u64;
                    self.sp = sp + 8 + n as usize;
                    self.ip = next;
                    Event::Continue
                },
                _ => Event::Fail(VmError::InvalidOpcode),
            },
            _ => Event::Fail(VmError::InvalidOpcode),
        }
    }

    /// `LOAD n`: the address on top of the stack is replaced by the `n`
    /// bytes that it points at.
    fn load(&mut self, ins: &Instr) -> (e: Event)
        requires
            old(self)@.wf(),
            ins.opcode.shape() == Shape::Load,
        ensures
            final(self)@.wf(),
            (Step { machine: final(self)@, event: e }) == execute(old(self)@, *ins),
    {
        let next: u64 = match ins.next {
            Some(i) => i as u64,
            None => 0xffff_ffff_ffff_ffff,
        };
        let sp = self.sp;
        match ins.arg1 {
            Some(InstrArg::Int(n)) => {
                if n < 0 {
                    return Event::Fail(VmError::InvalidOpcode);
                }
                if sp < 8 || n > 32768 || sp - 8 + n as usize > 32768 {
                    return Event::Fail(VmError::StackError);
                }
                let n = n as usize;
                let addr = get_raw(&self.stack, sp - 8, Kind::A);
                if 65536 <= addr && addr <= 65536 + 32768 - n as u64 {
                    let from = (addr - 65536) as usize;
                    copy_between(&mut self.stack, sp - 8, &self.globals, from, n);
                } else if 131072 <= addr && addr <= 131072 + 32768 - n as u64 {
                    let from = (addr - 131072) as usize;
                    move_within(&mut self.stack, from, sp - 8, n);
                } else {
                    return Event::Fail(VmError::InvalidAddress);
                }
                self.sp = sp - 8 + n;
                self.ip = next;
                Event::Continue
            },
            _ => Event::Fail(VmError::InvalidOpcode),
        }
    }

    /// `STORE n`: the top `n` bytes of the stack go to the address below
    /// them, and both leave the stack.
    fn store(&mut self, ins: &Instr) -> (e: Event)
        requires
            old(self)@.wf(),
            ins.opcode.shape() == Shape::Store,
        ensures
            final(self)@.wf(),
            (Step { machine: final(self)@, event: e }) == execute(old(self)@, *ins),
    {
        let next: u64 = match ins.next {
            Some(i) => i as u64,
            None => 0xffff_ffff_ffff_ffff,
        };
        let sp = self.sp;
        match ins.arg1 {
            Some(InstrArg::Int(n)) => {
                if n < 0 {
                    return Event::Fail(VmError::InvalidOpcode);
                }
                if n > 32768 || sp < n as usize + 8 {
                    return Event::Fail(VmError::StackError);
                }
                let n = n as usize;
                let addr = get_raw(&self.stack, sp - n - 8, Kind::A);
                if 65536 <= addr && addr <= 65536 + 32768 - n as u64 {
                    let to = (addr - 65536) as usize;
                    copy_between(&mut self.globals, to, &self.stack, sp - n, n);
                } else if 131072 <= addr && addr <= 131072 + 32768 - n as u64 {
                    let to = (addr - 131072) as usize;
                    move_within(&mut self.stack, sp - n, to, n);
                } else {
                    return Event::Fail(VmError::InvalidAddress);
                }
                self.sp = sp - n - 8;
                self.ip = next;
                Event::Continue
            },
            _ => Event::Fail(VmError::InvalidOpcode),
        }
    }

    /// `INSERT idst n`: a copy of the top `n` bytes is put in `idst`
    /// bytes below the top.
    fn insert(&mut self, ins: &Instr) -> (e: Event)
        requires
            old(self)@.wf(),
            ins.opcode.shape() == Shape::Insert,
        ensures
            final(self)@.wf(),
            (Step { machine: final(self)@, event: e }) == execute(old(self)@, *ins),
    {
        let next: u64 = match ins.next {
            Some(i) => i as u64,
            None => 0xffff_ffff_ffff_ffff,
        };
        let sp = self.sp;
        match (ins.arg1, ins.arg2) {
            (Some(InstrArg::Int(idst)), Some(InstrArg::Int(n))) => {
                if idst < 0 || n < 0 {
                    return Event::Fail(VmError::InvalidOpcode);
                }
                if n > idst || idst > 32768 || idst as usize > sp || sp + n as usize > 32768 {
                    return Event::Fail(VmError::StackError);
                }
                let idst = idst as usize;
                let n = n as usize;
                let ghost before = self.stack@;
                move_within(&mut self.stack, sp - idst, sp - idst + n, idst);
                proof {
                    let shifted = self.stack@;
                    assert(shifted.subrange(sp as int, sp + n) =~= before.subrange(sp - n, sp as int));
                }
                move_within(&mut self.stack, sp, sp - idst, n);
                self.sp = sp + n;
                self.ip = next;
                Event::Continue
            },
            _ => Event::Fail(VmError::InvalidOpcode),
        }
    }

    /// `RET args n`: the frame is left, the arguments are dropped, and the
    /// top `n` bytes, the value returned, stand in their place.
    fn ret(&mut self, ins: &Instr) -> (e: Event)
        requires
            old(self)@.wf(),
            ins.opcode.shape() == Shape::Ret,
        ensures
            final(self)@.wf(),
            (Step { machine: final(self)@, event: e }) == execute(old(self)@, *ins),
    {
        let sp = self.sp;
        match (ins.arg1, ins.arg2) {
            (Some(InstrArg::Int(args)), Some(InstrArg::Int(n))) => {
                if args < 0 || n < 0 {
                    return Event::Fail(VmError::InvalidOpcode);
                }
                if self.fp < 16 || self.fp > sp as u64 || n > 32768 || n as usize > sp || args
                    > 32768 {
                    return Event::Fail(VmError::StackError);
                }
                let fp = self.fp as usize;
                let args = args as usize;
                let n = n as usize;
                if fp - 16 < args || fp - 16 - args + n > 32768 {
                    return Event::Fail(VmError::StackError);
                }
                let old_fp = get_raw(&self.stack, fp - 8, Kind::A);
                let old_ip = get_raw(&self.stack, fp - 16, Kind::A);
                move_within(&mut self.stack, sp - n, fp - 16 - args, n);
                self.fp = old_fp;
                self.ip = old_ip;
                self.sp = fp - 16 - args + n;
                Event::Continue
            },
            _ => Event::Fail(VmError::InvalidOpcode),
        }
    }

    /// Executes the instruction under the instruction pointer.
    pub fn step(&mut self, instr_list: &InstrList) -> (e: Event)
        requires
            old(self)@.wf(),
        ensures
            final(self)@.wf(),
            (Step { machine: final(self)@, event: e }) == step(old(self)@, instr_list@.instrs),
    {
        if self.ip < instr_list.instrs.len() as u64 {
            let ins = instr_list.instrs[self.ip as usize];
            self.execute(&ins)
        } else {
            Event::Fail(VmError::InvalidAddress)
        }
    }

    /// Runs the machine for at most `fuel` steps, until an instruction
    /// halts it, fails, or asks for the host; `Continue` says that the
    /// steps ran out. After a call of the host or an operation on reals
    /// the host does its work on the stack, and a further run goes on
    /// behind the instruction.
    pub fn run(&mut self, instr_list: &InstrList, fuel: u64) -> (e: Event)
        requires
            old(self)@.wf(),
        ensures
            final(self)@.wf(),
            (Step { machine: final(self)@, event: e }) == run(
                old(self)@,
                instr_list@.instrs,
                fuel as nat,
            ),
    {
        let mut left = fuel;
        while left > 0
            invariant
                self@.wf(),
                run(self@, instr_list@.instrs, left as nat) == run(
                    old(self)@,
                    instr_list@.instrs,
                    fuel as nat,
                ),
            decreases left,
        {
            let e = self.step(instr_list);
            match e {
                Event::Continue => {},
                _ => {
                    return e;
                },
            }
            left = left - 1;
        }
        Event::Continue
    }
}

} // verus!
