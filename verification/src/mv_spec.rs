//! The mathematical description of the virtual machine: what one
//! instruction does to the machine, and what a run is.

use crate::mv::{Instr, InstrArg, Opcode, VmError};
use vstd::prelude::*;

verus! {

/// The size of the stack in bytes.
pub const STACK_SIZE: usize = 32768;

/// The size of the area of the global variables in bytes.
pub const GLOBAL_SIZE: usize = 32768;

/// The address of the first byte of the globals.
pub const GLOBAL_BASE: u64 = 65536;

/// The address of the first byte of the stack.
pub const STACK_BASE: u64 = 131072;

/// The instruction pointer that points at no instruction.
pub const NO_INSTR: u64 = 0xffff_ffff_ffff_ffff;

/// The sign bit of a real.
pub const SIGN_BIT: u64 = 0x8000_0000_0000_0000;

/// The kinds of values: characters of one byte; integers, reals and
/// addresses of eight.
#[derive(Clone, Copy, Debug, PartialEq, Eq, Structural)]
pub enum Kind {
    C,
    D,
    I,
    A,
}

#[derive(Clone, Copy, Debug, PartialEq, Eq, Structural)]
pub enum ArithOp {
    Add,
    Sub,
    Mul,
    Div,
}

#[derive(Clone, Copy, Debug, PartialEq, Eq, Structural)]
pub enum CmpOp {
    Eq,
    NotEq,
    Less,
    LessEq,
    Greater,
    GreaterEq,
}

/// What an opcode does, and on which kind of value.
#[derive(Clone, Copy, Debug, PartialEq, Eq, Structural)]
pub enum Shape {
    Arith(ArithOp, Kind),
    Cmp(CmpOp, Kind),
    And(Kind),
    Or(Kind),
    Neg(Kind),
    Not(Kind),
    Cast(Kind, Kind),
    PushCt(Kind),
    Jt(Kind),
    Jf(Kind),
    Jmp,
    Call,
    CallExt,
    Load,
    Store,
    Offset,
    Insert,
    Drop,
    Enter,
    Ret,
    PushFpAddr,
    Nop,
    Halt,
    /// An opcode without a meaning.
    Invalid,
}

/// What stopped the machine, or that nothing did.
#[derive(Clone, Copy, Debug, PartialEq, Eq, Structural)]
pub enum Event {
    /// The instruction is done and the next one can follow.
    Continue,
    /// The machine has come to `HALT`.
    Halt,
    /// A routine of the host is to run: it takes its arguments from the
    /// stack and pushes its result.
    CallExt(usize),
    /// An operation on reals is to be done by the host: it takes the
    /// operands of the opcode from the stack and pushes the result.
    Real(Opcode),
    /// The instruction failed; the machine is as it was before it.
    Fail(VmError),
}

/// The state of the machine.
pub struct Machine {
    pub stack: Seq<u8>,
    pub globals: Seq<u8>,
    /// The stack pointer: the number of bytes on the stack.
    pub sp: int,
    /// The frame pointer: the stack pointer at the entry of the function.
    pub fp: u64,
    /// The instruction pointer: the index of the instruction to execute.
    pub ip: u64,
}

/// A machine after one instruction, and what the instruction asks for.
pub struct Step {
    pub machine: Machine,
    pub event: Event,
}

impl Machine {
    pub open spec fn wf(self) -> bool {
        &&& self.stack.len() == STACK_SIZE
        &&& self.globals.len() == GLOBAL_SIZE
        &&& 0 <= self.sp <= STACK_SIZE
    }
}

/// The number of bytes of a value of the kind.
pub open spec fn width(k: Kind) -> int {
    match k {
        Kind::C => 1,
        _ => 8,
    }
}

/// The memory with `bytes` written from `at` on.
pub open spec fn write_at(mem: Seq<u8>, at: int, bytes: Seq<u8>) -> Seq<u8> {
    Seq::new(
        mem.len(),
        |i: int|
            if at <= i < at + bytes.len() {
                bytes[i - at]
            } else {
                mem[i]
            },
    )
}

/// The eight bytes of a value, the lowest first.
pub open spec fn le_bytes(v: u64) -> Seq<u8> {
    seq![
        (v & 0xff) as u8,
        ((v >> 8) & 0xff) as u8,
        ((v >> 16) & 0xff) as u8,
        ((v >> 24) & 0xff) as u8,
        ((v >> 32) & 0xff) as u8,
        ((v >> 40) & 0xff) as u8,
        ((v >> 48) & 0xff) as u8,
        ((v >> 56) & 0xff) as u8,
    ]
}

/// The value of eight bytes, the lowest first.
pub open spec fn le_value(b: Seq<u8>) -> u64 {
    (b[0] as u64) | ((b[1] as u64) << 8) | ((b[2] as u64) << 16) | ((b[3] as u64) << 24) | ((
    b[4] as u64) << 32) | ((b[5] as u64) << 40) | ((b[6] as u64) << 48) | ((b[7] as u64) << 56)
}

/// The value of the kind that the memory holds at `at`, as 64 bits: a
/// character fills the lowest eight.
pub open spec fn raw_at(mem: Seq<u8>, at: int, k: Kind) -> u64 {
    match k {
        Kind::C => mem[at] as u64,
        _ => le_value(mem.subrange(at, at + 8)),
    }
}

/// The bytes of a value of the kind.
pub open spec fn raw_bytes(k: Kind, v: u64) -> Seq<u8> {
    match k {
        Kind::C => seq![(v & 0xff) as u8],
        _ => le_bytes(v),
    }
}

/// Whether a value counts as true: it is not zero; a real is not zero of
/// either sign.
pub open spec fn truthy(k: Kind, v: u64) -> bool {
    match k {
        Kind::D => v != 0 && v != SIGN_BIT,
        _ => v != 0,
    }
}

pub open spec fn flag(b: bool) -> u64 {
    if b {
        1
    } else {
        0
    }
}

/// The quotient of two integers, rounded towards zero; the one quotient
/// that 64 bits do not hold wraps around.
pub open spec fn int_quotient(a: i64, b: i64) -> i64 {
    match a.checked_div(b) {
        Some(q) => q,
        None => a,
    }
}

/// The result of an arithmetic operation on two integers or two characters,
/// `a` below `b` on the stack: `a op b`, wrapping around. A division by
/// zero has none.
pub open spec fn arith(op: ArithOp, k: Kind, a: u64, b: u64) -> Option<u64> {
    match k {
        Kind::C => {
            let x = (a & 0xff) as u8;
            let y = (b & 0xff) as u8;
            match op {
                ArithOp::Add => Some(x.wrapping_add(y) as u64),
                ArithOp::Sub => Some(x.wrapping_sub(y) as u64),
                ArithOp::Mul => Some(x.wrapping_mul(y) as u64),
                ArithOp::Div => if y == 0 {
                    None
                } else {
                    Some((x / y) as u64)
                },
            }
        },
        _ => {
            let x = a as i64;
            let y = b as i64;
            match op {
                ArithOp::Add => Some(x.wrapping_add(y) as u64),
                ArithOp::Sub => Some(x.wrapping_sub(y) as u64),
                ArithOp::Mul => Some(x.wrapping_mul(y) as u64),
                ArithOp::Div => if y == 0 {
                    None
                } else {
                    Some(int_quotient(x, y) as u64)
                },
            }
        },
    }
}

/// Whether `a op b` holds, `a` below `b` on the stack: integers compare
/// with their signs, characters and addresses without.
pub open spec fn compare(op: CmpOp, k: Kind, a: u64, b: u64) -> bool {
    match k {
        Kind::I => {
            let x = a as i64;
            let y = b as i64;
            match op {
                CmpOp::Eq => x == y,
                CmpOp::NotEq => x != y,
                CmpOp::Less => x < y,
                CmpOp::LessEq => x <= y,
                CmpOp::Greater => x > y,
                CmpOp::GreaterEq => x >= y,
            }
        },
        _ => match op {
            CmpOp::Eq => a == b,
            CmpOp::NotEq => a != b,
            CmpOp::Less => a < b,
            CmpOp::LessEq => a <= b,
            CmpOp::Greater => a > b,
            CmpOp::GreaterEq => a >= b,
        },
    }
}

/// The negation of a value: of an integer or a character, wrapping
/// around; of a real, the other sign.
pub open spec fn negate(k: Kind, v: u64) -> u64 {
    match k {
        Kind::C => 0u8.wrapping_sub((v & 0xff) as u8) as u64,
        Kind::D => v ^ SIGN_BIT,
        _ => 0i64.wrapping_sub(v as i64) as u64,
    }
}

/// The instruction pointer for an optional index.
pub open spec fn ip_of(next: Option<usize>) -> u64 {
    match next {
        Some(i) => i as u64,
        None => NO_INSTR,
    }
}

/// Whether `n` bytes from `addr` on lie in the globals.
pub open spec fn in_globals(addr: u64, n: int) -> bool {
    GLOBAL_BASE <= addr && addr + n <= GLOBAL_BASE + GLOBAL_SIZE
}

/// Whether `n` bytes from `addr` on lie in the stack.
pub open spec fn in_stack(addr: u64, n: int) -> bool {
    STACK_BASE <= addr && addr + n <= STACK_BASE + STACK_SIZE
}

/// The `n` bytes of memory from `addr` on, if they lie in one area.
pub open spec fn read_mem(m: Machine, addr: u64, n: int) -> Option<Seq<u8>> {
    if in_globals(addr, n) {
        Some(m.globals.subrange(addr - GLOBAL_BASE, addr - GLOBAL_BASE + n))
    } else if in_stack(addr, n) {
        Some(m.stack.subrange(addr - STACK_BASE, addr - STACK_BASE + n))
    } else {
        None
    }
}

pub open spec fn fail(m: Machine, e: VmError) -> Step {
    Step { machine: m, event: Event::Fail(e) }
}

pub open spec fn goes_on(m: Machine) -> Step {
    Step { machine: m, event: Event::Continue }
}

/// The integer argument of an instruction, if it has one that is not negative.
pub open spec fn count_arg(arg: Option<InstrArg>) -> Option<int> {
    match arg {
        Some(InstrArg::Int(n)) => if n >= 0 {
            Some(n as int)
        } else {
            None
        },
        _ => None,
    }
}

/// The address argument of an instruction, if it has one.
pub open spec fn addr_arg(arg: Option<InstrArg>) -> Option<usize> {
    match arg {
        Some(InstrArg::Addr(a)) => Some(a),
        _ => None,
    }
}

/// The constant that `PUSHCT` of the kind pushes, if the argument fits the kind.
pub open spec fn constant_arg(k: Kind, arg: Option<InstrArg>) -> Option<u64> {
    match (k, arg) {
        (Kind::A, Some(InstrArg::Addr(a))) => Some(a as u64),
        (Kind::I, Some(InstrArg::Int(v))) => Some(v as u64),
        (Kind::C, Some(InstrArg::Int(v))) => Some((v as u64) & 0xff),
        (Kind::D, Some(InstrArg::Double(bits))) => Some(bits),
        _ => None,
    }
}

/// The machine after `n` bytes of the stack are replaced by a value of
/// kind `k`: the value stands where the lowest of them stood.
pub open spec fn replace_top(m: Machine, n: int, k: Kind, v: u64, ip: u64) -> Step {
    if m.sp < n {
        fail(m, VmError::StackError)
    } else if m.sp - n + width(k) > STACK_SIZE {
        fail(m, VmError::StackError)
    } else {
        goes_on(
            Machine {
                stack: write_at(m.stack, m.sp - n, raw_bytes(k, v)),
                sp: m.sp - n + width(k),
                ip,
                ..m
            },
        )
    }
}

/// What one instruction does to the machine. Operations on reals other
/// than tests for zero and the change of sign are left to the host. An
/// instruction that fails leaves the machine as it was.
pub open spec fn execute(m: Machine, ins: Instr) -> Step {
    let next = ip_of(ins.next);
    let sp = m.sp;
    match ins.opcode.shape() {
        Shape::Arith(op, k) => if k == Kind::D {
            Step { machine: Machine { ip: next, ..m }, event: Event::Real(ins.opcode) }
        } else if sp < 2 * width(k) {
            fail(m, VmError::StackError)
        } else {
            match arith(op, k, raw_at(m.stack, sp - 2 * width(k), k), raw_at(m.stack, sp - width(k), k)) {
                Some(r) => replace_top(m, 2 * width(k), k, r, next),
                None => fail(m, VmError::DivisionByZero),
            }
        },
        Shape::Cmp(op, k) => if k == Kind::D {
            Step { machine: Machine { ip: next, ..m }, event: Event::Real(ins.opcode) }
        } else if sp < 2 * width(k) {
            fail(m, VmError::StackError)
        } else {
            replace_top(
                m,
                2 * width(k),
                Kind::I,
                flag(
                    compare(op, k, raw_at(m.stack, sp - 2 * width(k), k), raw_at(m.stack, sp - width(k), k)),
                ),
                next,
            )
        },
        Shape::And(k) => if sp < 2 * width(k) {
            fail(m, VmError::StackError)
        } else {
            replace_top(
                m,
                2 * width(k),
                Kind::I,
                flag(
                    truthy(k, raw_at(m.stack, sp - 2 * width(k), k)) && truthy(
                        k,
                        raw_at(m.stack, sp - width(k), k),
                    ),
                ),
                next,
            )
        },
        Shape::Or(k) => if sp < 2 * width(k) {
            fail(m, VmError::StackError)
        } else {
            replace_top(
                m,
                2 * width(k),
                Kind::I,
                flag(
                    truthy(k, raw_at(m.stack, sp - 2 * width(k), k)) || truthy(
                        k,
                        raw_at(m.stack, sp - width(k), k),
                    ),
                ),
                next,
            )
        },
        Shape::Neg(k) => if sp < width(k) {
            fail(m, VmError::StackError)
        } else {
            replace_top(m, width(k), k, negate(k, raw_at(m.stack, sp - width(k), k)), next)
        },
        Shape::Not(k) => if sp < width(k) {
            fail(m, VmError::StackError)
        } else {
            replace_top(m, width(k), Kind::I, flag(!truthy(k, raw_at(m.stack, sp - width(k), k))), next)
        },
        Shape::Cast(from, to) => if from == Kind::D || to == Kind::D {
            Step { machine: Machine { ip: next, ..m }, event: Event::Real(ins.opcode) }
        } else if sp < width(from) {
            fail(m, VmError::StackError)
        } else {
            replace_top(m, width(from), to, raw_at(m.stack, sp - width(from), from), next)
        },
        Shape::PushCt(k) => match constant_arg(k, ins.arg1) {
            Some(v) => replace_top(m, 0, k, v, next),
            None => fail(m, VmError::InvalidOpcode),
        },
        Shape::PushFpAddr => match ins.arg1 {
            Some(InstrArg::Int(off)) => replace_top(
                m,
                0,
                Kind::A,
                STACK_BASE.wrapping_add(m.fp).wrapping_add(off as u64),
                next,
            ),
            _ => fail(m, VmError::InvalidOpcode),
        },
        Shape::Jt(k) => match addr_arg(ins.arg1) {
            Some(a) => if sp < width(k) {
                fail(m, VmError::StackError)
            } else {
                goes_on(
                    Machine {
                        sp: sp - width(k),
                        ip: if truthy(k, raw_at(m.stack, sp - width(k), k)) {
                            a as u64
                        } else {
                            next
                        },
                        ..m
                    },
                )
            },
            None => fail(m, VmError::InvalidOpcode),
        },
        Shape::Jf(k) => match addr_arg(ins.arg1) {
            Some(a) => if sp < width(k) {
                fail(m, VmError::StackError)
            } else {
                goes_on(
                    Machine {
                        sp: sp - width(k),
                        ip: if truthy(k, raw_at(m.stack, sp - width(k), k)) {
                            next
                        } else {
                            a as u64
                        },
                        ..m
                    },
                )
            },
            None => fail(m, VmError::InvalidOpcode),
        },
        Shape::Jmp => match addr_arg(ins.arg1) {
            Some(a) => goes_on(Machine { ip: a as u64, ..m }),
            None => fail(m, VmError::InvalidOpcode),
        },
        Shape::Call => match addr_arg(ins.arg1) {
            Some(a) => replace_top(m, 0, Kind::A, next, a as u64),
            None => fail(m, VmError::InvalidOpcode),
        },
        Shape::CallExt => match addr_arg(ins.arg1) {
            Some(a) => Step { machine: Machine { ip: next, ..m }, event: Event::CallExt(a) },
            None => fail(m, VmError::InvalidOpcode),
        },
        Shape::Load => match count_arg(ins.arg1) {
            Some(n) => if sp < 8 {
                fail(m, VmError::StackError)
            } else if sp - 8 + n > STACK_SIZE {
                fail(m, VmError::StackError)
            } else {
                match read_mem(m, raw_at(m.stack, sp - 8, Kind::A), n) {
                    Some(bytes) => goes_on(
                        Machine {
                            stack: write_at(m.stack, sp - 8, bytes),
                            sp: sp - 8 + n,
                            ip: next,
                            ..m
                        },
                    ),
                    None => fail(m, VmError::InvalidAddress),
                }
            },
            None => fail(m, VmError::InvalidOpcode),
        },
        Shape::Store => match count_arg(ins.arg1) {
            Some(n) => if sp < n + 8 {
                fail(m, VmError::StackError)
            } else {
                let addr = raw_at(m.stack, sp - n - 8, Kind::A);
                let bytes = m.stack.subrange(sp - n, sp);
                if in_globals(addr, n) {
                    goes_on(
                        Machine {
                            globals: write_at(m.globals, addr - GLOBAL_BASE, bytes),
                            sp: sp - n - 8,
                            ip: next,
                            ..m
                        },
                    )
                } else if in_stack(addr, n) {
                    goes_on(
                        Machine {
                            stack: write_at(m.stack, addr - STACK_BASE, bytes),
                            sp: sp - n - 8,
                            ip: next,
                            ..m
                        },
                    )
                } else {
                    fail(m, VmError::InvalidAddress)
                }
            },
            None => fail(m, VmError::InvalidOpcode),
        },
        Shape::Offset => if sp < 16 {
            fail(m, VmError::StackError)
        } else {
            replace_top(
                m,
                16,
                Kind::A,
                raw_at(m.stack, sp - 16, Kind::A).wrapping_add(raw_at(m.stack, sp - 8, Kind::I)),
                next,
            )
        },
        Shape::Insert => match (count_arg(ins.arg1), count_arg(ins.arg2)) {
            (Some(idst), Some(n)) => if n > idst || idst > sp || sp + n > STACK_SIZE {
                fail(m, VmError::StackError)
            } else {
                goes_on(
                    Machine {
                        stack: write_at(
                            write_at(m.stack, sp - idst + n, m.stack.subrange(sp - idst, sp)),
                            sp - idst,
                            m.stack.subrange(sp - n, sp),
                        ),
                        sp: sp + n,
                        ip: next,
                        ..m
                    },
                )
            },
            _ => fail(m, VmError::InvalidOpcode),
        },
        Shape::Drop => match count_arg(ins.arg1) {
            Some(n) => if sp < n {
                fail(m, VmError::StackError)
            } else {
                goes_on(Machine { sp: sp - n, ip: next, ..m })
            },
            None => fail(m, VmError::InvalidOpcode),
        },
        Shape::Enter => match count_arg(ins.arg1) {
            Some(n) => if sp + 8 + n > STACK_SIZE {
                fail(m, VmError::StackError)
            } else {
                goes_on(
                    Machine {
                        stack: write_at(m.stack, sp, le_bytes(m.fp)),
                        fp: (sp + 8) as u64,
                        sp: sp + 8 + n,
                        ip: next,
                        ..m
                    },
                )
            },
            None => fail(m, VmError::InvalidOpcode),
        },
        Shape::Ret => match (count_arg(ins.arg1), count_arg(ins.arg2)) {
            (Some(args), Some(n)) => if m.fp < 16 || m.fp > sp || n > sp || m.fp - 16 < args
                || m.fp - 16 - args + n > STACK_SIZE {
                fail(m, VmError::StackError)
            } else {
                goes_on(
                    Machine {
                        stack: write_at(m.stack, m.fp - 16 - args, m.stack.subrange(sp - n, sp)),
                        fp: raw_at(m.stack, m.fp - 8, Kind::A),
                        ip: raw_at(m.stack, m.fp - 16, Kind::A),
                        sp: m.fp - 16 - args + n,
                        ..m
                    },
                )
            },
            _ => fail(m, VmError::InvalidOpcode),
        },
        Shape::Nop => goes_on(Machine { ip: next, ..m }),
        Shape::Halt => Step { machine: m, event: Event::Halt },
        Shape::Invalid => fail(m, VmError::InvalidOpcode),
    }
}

/// One step of the machine on a program: the instruction under the
/// instruction pointer is executed; a pointer that points at none fails.
pub open spec fn step(m: Machine, prog: Seq<Instr>) -> Step {
    if m.ip < prog.len() {
        execute(m, prog[m.ip as int])
    } else {
        fail(m, VmError::InvalidAddress)
    }
}

/// A run of at most `fuel` steps: the machine steps until an instruction
/// asks for something else than the next instruction, or the steps run
/// out, which is the event `Continue`.
pub open spec fn run(m: Machine, prog: Seq<Instr>, fuel: nat) -> Step
    decreases fuel,
{
    if fuel == 0 {
        goes_on(m)
    } else {
        let s = step(m, prog);
        if s.event == Event::Continue {
            run(s.machine, prog, (fuel - 1) as nat)
        } else {
            s
        }
    }
}

} // verus!
