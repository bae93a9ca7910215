//! The bytecode and the virtual machine that executes it on a stack of bytes.

use crate::mv_spec::{ArithOp, CmpOp, Kind, Shape, GLOBAL_SIZE};
use vstd::prelude::*;

verus! {

/// The operations of the machine. The last letter tells the kind of the
/// operands: `C` a character, `D` a real, `I` an integer, `A` an address.
#[derive(Clone, Copy, Debug, PartialEq, Eq, Structural)]
pub enum Opcode {
    OAddC,
    OAddD,
    OAddI,
    OAndA,
    OAndC,
    OAndD,
    OAndI,
    OCall,
    OCallext,
    OCastCD,
    OCastCI,
    OCastDC,
    OCastDI,
    OCastIC,
    OCastID,
    ODivC,
    ODivD,
    ODivI,
    ODrop,
    OEnter,
    OEqA,
    OEqC,
    OEqD,
    OEqI,
    OGreaterC,
    OGreaterD,
    OGreaterI,
    OGreaterEqC,
    OGreaterEqD,
    OGreaterEqI,
    OHalt,
    OInsert,
    OJfA,
    OJfC,
    OJfD,
    OJfI,
    OJmp,
    OJtA,
    OJtC,
    OJtD,
    OJtI,
    OLessC,
    OLessD,
    OLessI,
    OLessEqC,
    OLessEqD,
    OLessEqI,
    OLoad,
    OMulC,
    OMulD,
    OMulI,
    ONegC,
    ONegD,
    ONegI,
    ONop,
    ONotA,
    ONotC,
    ONotD,
    ONotI,
    ONotEqA,
    ONotEqC,
    ONotEqD,
    ONotEqI,
    OOffset,
    OOrA,
    OOrC,
    OOrD,
    OOrI,
    OPushFPAddr,
    OPushCtA,
    OPushCtC,
    OPushCtD,
    OPushCtI,
    ORet,
    OStore,
    OSubC,
    OSubD,
    OSubI,
}

impl Opcode {
    /// What the opcode does and on which kind of value. `ONotA` has no meaning.
    pub open spec fn shape(self) -> Shape {
        match self {
            Opcode::OAddC => Shape::Arith(ArithOp::Add, Kind::C),
            Opcode::OAddD => Shape::Arith(ArithOp::Add, Kind::D),
            Opcode::OAddI => Shape::Arith(ArithOp::Add, Kind::I),
            Opcode::OAndA => Shape::And(Kind::A),
            Opcode::OAndC => Shape::And(Kind::C),
            Opcode::OAndD => Shape::And(Kind::D),
            Opcode::OAndI => Shape::And(Kind::I),
            Opcode::OCall => Shape::Call,
            Opcode::OCallext => Shape::CallExt,
            Opcode::OCastCD => Shape::Cast(Kind::C, Kind::D),
            Opcode::OCastCI => Shape::Cast(Kind::C, Kind::I),
            Opcode::OCastDC => Shape::Cast(Kind::D, Kind::C),
            Opcode::OCastDI => Shape::Cast(Kind::D, Kind::I),
            Opcode::OCastIC => Shape::Cast(Kind::I, Kind::C),
            Opcode::OCastID => Shape::Cast(Kind::I, Kind::D),
            Opcode::ODivC => Shape::Arith(ArithOp::Div, Kind::C),
            Opcode::ODivD => Shape::Arith(ArithOp::Div, Kind::D),
            Opcode::ODivI => Shape::Arith(ArithOp::Div, Kind::I),
            Opcode::ODrop => Shape::Drop,
            Opcode::OEnter => Shape::Enter,
            Opcode::OEqA => Shape::Cmp(CmpOp::Eq, Kind::A),
            Opcode::OEqC => Shape::Cmp(CmpOp::Eq, Kind::C),
            Opcode::OEqD => Shape::Cmp(CmpOp::Eq, Kind::D),
            Opcode::OEqI => Shape::Cmp(CmpOp::Eq, Kind::I),
            Opcode::OGreaterC => Shape::Cmp(CmpOp::Greater, Kind::C),
            Opcode::OGreaterD => Shape::Cmp(CmpOp::Greater, Kind::D),
            Opcode::OGreaterI => Shape::Cmp(CmpOp::Greater, Kind::I),
            Opcode::OGreaterEqC => Shape::Cmp(CmpOp::GreaterEq, Kind::C),
            Opcode::OGreaterEqD => Shape::Cmp(CmpOp::GreaterEq, Kind::D),
            Opcode::OGreaterEqI => Shape::Cmp(CmpOp::GreaterEq, Kind::I),
            Opcode::OHalt => Shape::Halt,
            Opcode::OInsert => Shape::Insert,
            Opcode::OJfA => Shape::Jf(Kind::A),
            Opcode::OJfC => Shape::Jf(Kind::C),
            Opcode::OJfD => Shape::Jf(Kind::D),
            Opcode::OJfI => Shape::Jf(Kind::I),
            Opcode::OJmp => Shape::Jmp,
            Opcode::OJtA => Shape::Jt(Kind::A),
            Opcode::OJtC => Shape::Jt(Kind::C),
            Opcode::OJtD => Shape::Jt(Kind::D),
            Opcode::OJtI => Shape::Jt(Kind::I),
            Opcode::OLessC => Shape::Cmp(CmpOp::Less, Kind::C),
            Opcode::OLessD => Shape::Cmp(CmpOp::Less, Kind::D),
            Opcode::OLessI => Shape::Cmp(CmpOp::Less, Kind::I),
            Opcode::OLessEqC => Shape::Cmp(CmpOp::LessEq, Kind::C),
            Opcode::OLessEqD => Shape::Cmp(CmpOp::LessEq, Kind::D),
            Opcode::OLessEqI => Shape::Cmp(CmpOp::LessEq, Kind::I),
            Opcode::OLoad => Shape::Load,
            Opcode::OMulC => Shape::Arith(ArithOp::Mul, Kind::C),
            Opcode::OMulD => Shape::Arith(ArithOp::Mul, Kind::D),
            Opcode::OMulI => Shape::Arith(ArithOp::Mul, Kind::I),
            Opcode::ONegC => Shape::Neg(Kind::C),
            Opcode::ONegD => Shape::Neg(Kind::D),
            Opcode::ONegI => Shape::Neg(Kind::I),
            Opcode::ONop => Shape::Nop,
            Opcode::ONotA => Shape::Invalid,
            Opcode::ONotC => Shape::Not(Kind::C),
            Opcode::ONotD => Shape::Not(Kind::D),
            Opcode::ONotI => Shape::Not(Kind::I),
            Opcode::ONotEqA => Shape::Cmp(CmpOp::NotEq, Kind::A),
            Opcode::ONotEqC => Shape::Cmp(CmpOp::NotEq, Kind::C),
            Opcode::ONotEqD => Shape::Cmp(CmpOp::NotEq, Kind::D),
            Opcode::ONotEqI => Shape::Cmp(CmpOp::NotEq, Kind::I),
            Opcode::OOffset => Shape::Offset,
            Opcode::OOrA => Shape::Or(Kind::A),
            Opcode::OOrC => Shape::Or(Kind::C),
            Opcode::OOrD => Shape::Or(Kind::D),
            Opcode::OOrI => Shape::Or(Kind::I),
            Opcode::OPushFPAddr => Shape::PushFpAddr,
            Opcode::OPushCtA => Shape::PushCt(Kind::A),
            Opcode::OPushCtC => Shape::PushCt(Kind::C),
            Opcode::OPushCtD => Shape::PushCt(Kind::D),
            Opcode::OPushCtI => Shape::PushCt(Kind::I),
            Opcode::ORet => Shape::Ret,
            Opcode::OStore => Shape::Store,
            Opcode::OSubC => Shape::Arith(ArithOp::Sub, Kind::C),
            Opcode::OSubD => Shape::Arith(ArithOp::Sub, Kind::D),
            Opcode::OSubI => Shape::Arith(ArithOp::Sub, Kind::I),
        }
    }

    /// What the opcode does and on which kind of value.
    pub fn get_shape(self) -> (s: Shape)
        ensures
            s == self.shape(),
    {
        match self {
            Opcode::OAddC => Shape::Arith(ArithOp::Add, Kind::C),
            Opcode::OAddD => Shape::Arith(ArithOp::Add, Kind::D),
            Opcode::OAddI => Shape::Arith(ArithOp::Add, Kind::I),
            Opcode::OAndA => Shape::And(Kind::A),
            Opcode::OAndC => Shape::And(Kind::C),
            Opcode::OAndD => Shape::And(Kind::D),
            Opcode::OAndI => Shape::And(Kind::I),
            Opcode::OCall => Shape::Call,
            Opcode::OCallext => Shape::CallExt,
            Opcode::OCastCD => Shape::Cast(Kind::C, Kind::D),
            Opcode::OCastCI => Shape::Cast(Kind::C, Kind::I),
            Opcode::OCastDC => Shape::Cast(Kind::D, Kind::C),
            Opcode::OCastDI => Shape::Cast(Kind::D, Kind::I),
            Opcode::OCastIC => Shape::Cast(Kind::I, Kind::C),
            Opcode::OCastID => Shape::Cast(Kind::I, Kind::D),
            Opcode::ODivC => Shape::Arith(ArithOp::Div, Kind::C),
            Opcode::ODivD => Shape::Arith(ArithOp::Div, Kind::D),
            Opcode::ODivI => Shape::Arith(ArithOp::Div, Kind::I),
            Opcode::ODrop => Shape::Drop,
            Opcode::OEnter => Shape::Enter,
            Opcode::OEqA => Shape::Cmp(CmpOp::Eq, Kind::A),
            Opcode::OEqC => Shape::Cmp(CmpOp::Eq, Kind::C),
            Opcode::OEqD => Shape::Cmp(CmpOp::Eq, Kind::D),
            Opcode::OEqI => Shape::Cmp(CmpOp::Eq, Kind::I),
            Opcode::OGreaterC => Shape::Cmp(CmpOp::Greater, Kind::C),
            Opcode::OGreaterD => Shape::Cmp(CmpOp::Greater, Kind::D),
            Opcode::OGreaterI => Shape::Cmp(CmpOp::Greater, Kind::I),
            Opcode::OGreaterEqC => Shape::Cmp(CmpOp::GreaterEq, Kind::C),
            Opcode::OGreaterEqD => Shape::Cmp(CmpOp::GreaterEq, Kind::D),
            Opcode::OGreaterEqI => Shape::Cmp(CmpOp::GreaterEq, Kind::I),
            Opcode::OHalt => Shape::Halt,
            Opcode::OInsert => Shape::Insert,
            Opcode::OJfA => Shape::Jf(Kind::A),
            Opcode::OJfC => Shape::Jf(Kind::C),
            Opcode::OJfD => Shape::Jf(Kind::D),
            Opcode::OJfI => Shape::Jf(Kind::I),
            Opcode::OJmp => Shape::Jmp,
            Opcode::OJtA => Shape::Jt(Kind::A),
            Opcode::OJtC => Shape::Jt(Kind::C),
            Opcode::OJtD => Shape::Jt(Kind::D),
            Opcode::OJtI => Shape::Jt(Kind::I),
            Opcode::OLessC => Shape::Cmp(CmpOp::Less, Kind::C),
            Opcode::OLessD => Shape::Cmp(CmpOp::Less, Kind::D),
            Opcode::OLessI => Shape::Cmp(CmpOp::Less, Kind::I),
            Opcode::OLessEqC => Shape::Cmp(CmpOp::LessEq, Kind::C),
            Opcode::OLessEqD => Shape::Cmp(CmpOp::LessEq, Kind::D),
            Opcode::OLessEqI => Shape::Cmp(CmpOp::LessEq, Kind::I),
            Opcode::OLoad => Shape::Load,
            Opcode::OMulC => Shape::Arith(ArithOp::Mul, Kind::C),
            Opcode::OMulD => Shape::Arith(ArithOp::Mul, Kind::D),
            Opcode::OMulI => Shape::Arith(ArithOp::Mul, Kind::I),
            Opcode::ONegC => Shape::Neg(Kind::C),
            Opcode::ONegD => Shape::Neg(Kind::D),
            Opcode::ONegI => Shape::Neg(Kind::I),
            Opcode::ONop => Shape::Nop,
            Opcode::ONotA => Shape::Invalid,
            Opcode::ONotC => Shape::Not(Kind::C),
            Opcode::ONotD => Shape::Not(Kind::D),
            Opcode::ONotI => Shape::Not(Kind::I),
            Opcode::ONotEqA => Shape::Cmp(CmpOp::NotEq, Kind::A),
            Opcode::ONotEqC => Shape::Cmp(CmpOp::NotEq, Kind::C),
            Opcode::ONotEqD => Shape::Cmp(CmpOp::NotEq, Kind::D),
            Opcode::ONotEqI => Shape::Cmp(CmpOp::NotEq, Kind::I),
            Opcode::OOffset => Shape::Offset,
            Opcode::OOrA => Shape::Or(Kind::A),
            Opcode::OOrC => Shape::Or(Kind::C),
            Opcode::OOrD => Shape::Or(Kind::D),
            Opcode::OOrI => Shape::Or(Kind::I),
            Opcode::OPushFPAddr => Shape::PushFpAddr,
            Opcode::OPushCtA => Shape::PushCt(Kind::A),
            Opcode::OPushCtC => Shape::PushCt(Kind::C),
            Opcode::OPushCtD => Shape::PushCt(Kind::D),
            Opcode::OPushCtI => Shape::PushCt(Kind::I),
            Opcode::ORet => Shape::Ret,
            Opcode::OStore => Shape::Store,
            Opcode::OSubC => Shape::Arith(ArithOp::Sub, Kind::C),
            Opcode::OSubD => Shape::Arith(ArithOp::Sub, Kind::D),
            Opcode::OSubI => Shape::Arith(ArithOp::Sub, Kind::I),
        }
    }
}

/// Why the machine failed.
#[derive(Clone, Copy, Debug, PartialEq, Eq, Structural)]
pub enum VmError {
    /// The stack has too few bytes for the instruction, or no room for
    /// what it pushes.
    StackError,
    /// An opcode without a meaning, or an instruction without the
    /// arguments that its opcode needs.
    InvalidOpcode,
    /// An address outside the globals and the stack, or an instruction
    /// pointer that points at no instruction.
    InvalidAddress,
    /// A division of integers or characters by zero.
    DivisionByZero,
}

/// An argument of an instruction: an integer or a character, the bits of a
/// real, or an address (of memory, of an instruction, of a routine of the host).
#[derive(Clone, Copy, Debug, PartialEq, Eq, Structural)]
pub enum InstrArg {
    Int(i64),
    Double(u64),
    Addr(usize),
}

impl Default for InstrArg {
    fn default() -> (a: Self)
        ensures
            a == InstrArg::Addr(0),
    {
        InstrArg::Addr(0)
    }
}

impl InstrArg {
    /// The address; 0 for any other argument.
    pub fn get_addr(&self) -> (addr: usize)
        ensures
            addr == (match *self {
                InstrArg::Addr(a) => a,
                _ => 0,
            }),
    {
        match self {
            InstrArg::Addr(a) => *a,
            _ => 0,
        }
    }

    /// The integer; 0 for any other argument.
    pub fn get_int(&self) -> (value: i64)
        ensures
            value == (match *self {
                InstrArg::Int(v) => v,
                _ => 0,
            }),
    {
        match self {
            InstrArg::Int(v) => *v,
            _ => 0,
        }
    }

    /// The bits of the real; those of 0 for any other argument.
    pub fn get_double(&self) -> (bits: u64)
        ensures
            bits == (match *self {
                InstrArg::Double(b) => b,
                _ => 0,
            }),
    {
        match self {
            InstrArg::Double(b) => *b,
            _ => 0,
        }
    }
}

/// An instruction, with the indices of the instructions after and before
/// it in its list.
#[derive(Clone, Copy, Debug, PartialEq, Eq, Structural)]
pub struct Instr {
    pub opcode: Opcode,
    pub arg1: Option<InstrArg>,
    pub arg2: Option<InstrArg>,
    pub next: Option<usize>,
    pub last: Option<usize>,
}

impl Instr {
    pub fn new(op: Opcode) -> (i: Self)
        ensures
            i == (Instr { opcode: op, arg1: None, arg2: None, next: None, last: None }),
    {
        Instr { opcode: op, arg1: None, arg2: None, next: None, last: None }
    }

    pub fn new_arg(op: Opcode, arg: InstrArg) -> (i: Self)
        ensures
            i == (Instr { opcode: op, arg1: Some(arg), arg2: None, next: None, last: None }),
    {
        Instr { opcode: op, arg1: Some(arg), arg2: None, next: None, last: None }
    }

    pub fn new_arg2(op: Opcode, arg1: InstrArg, arg2: InstrArg) -> (i: Self)
        ensures
            i == (Instr { opcode: op, arg1: Some(arg1), arg2: Some(arg2), next: None, last: None }),
    {
        Instr { opcode: op, arg1: Some(arg1), arg2: Some(arg2), next: None, last: None }
    }
}

/// A doubly linked list of instructions. An instruction keeps its index
/// for good, so that jumps can name it.
#[derive(Debug)]
pub struct InstrList {
    pub instrs: Vec<Instr>,
    pub front: Option<usize>,
    pub back: Option<usize>,
}

/// An instruction list as plain values.
pub struct InstrListView {
    pub instrs: Seq<Instr>,
    pub front: Option<usize>,
    pub back: Option<usize>,
}

impl View for InstrList {
    type V = InstrListView;

    open spec fn view(&self) -> InstrListView {
        InstrListView { instrs: self.instrs@, front: self.front, back: self.back }
    }
}

impl InstrListView {
    /// Whether `i` is the index of an instruction of the list.
    pub open spec fn holds(self, i: Option<usize>) -> bool {
        i is Some && i->0 < self.instrs.len()
    }

    /// The list with `instr` appended behind its last instruction.
    pub open spec fn pushed(self, instr: Instr) -> InstrListView {
        let index = self.instrs.len() as usize;
        let node = Instr { next: None, last: self.back, ..instr };
        if self.holds(self.back) {
            InstrListView {
                instrs: self.instrs.update(
                    self.back->0 as int,
                    Instr { next: Some(index), ..self.instrs[self.back->0 as int] },
                ).push(node),
                front: self.front,
                back: Some(index),
            }
        } else {
            InstrListView {
                instrs: self.instrs.push(Instr { last: None, ..node }),
                front: Some(index),
                back: Some(index),
            }
        }
    }

    /// The list with `instr` linked in behind the instruction `after`.
    pub open spec fn inserted(self, after: usize, instr: Instr) -> InstrListView {
        let index = self.instrs.len() as usize;
        let follower = self.instrs[after as int].next;
        let node = Instr { next: follower, last: Some(after), ..instr };
        let linked = self.instrs.update(
            after as int,
            Instr { next: Some(index), ..self.instrs[after as int] },
        );
        if self.holds(follower) && follower->0 != after {
            InstrListView {
                instrs: linked.update(
                    follower->0 as int,
                    Instr { last: Some(index), ..linked[follower->0 as int] },
                ).push(node),
                ..self
            }
        } else {
            InstrListView { instrs: linked.push(node), back: Some(index), ..self }
        }
    }

    /// The instructions in the order of the list, from the index `from`
    /// on, at most `limit` of them.
    pub open spec fn sequence(self, from: Option<usize>, limit: nat) -> Seq<Instr>
        decreases limit,
    {
        if limit == 0 || !self.holds(from) {
            Seq::empty()
        } else {
            seq![self.instrs[from->0 as int]] + self.sequence(
                self.instrs[from->0 as int].next,
                (limit - 1) as nat,
            )
        }
    }
}

impl InstrList {
    pub fn new() -> (l: Self)
        ensures
            l@ == (InstrListView { instrs: Seq::empty(), front: None, back: None }),
    {
        InstrList { instrs: Vec::new(), front: None, back: None }
    }

    /// Appends an instruction and returns its index.
    pub fn push_back(&mut self, i: Instr) -> (index: usize)
        ensures
            index == old(self)@.instrs.len(),
            final(self)@ == old(self)@.pushed(i),
    {
        let index = self.instrs.len();
        let mut node = i;
        node.next = None;
        node.last = self.back;
        let linked = match self.back {
            Some(b) => b < self.instrs.len(),
            None => false,
        };
        if linked {
            let b = self.back.unwrap();
            let mut before = self.instrs[b];
            before.next = Some(index);
            self.instrs.set(b, before);
        } else {
            node.last = None;
            self.front = Some(index);
        }
        self.instrs.push(node);
        self.back = Some(index);
        assert(self@.instrs =~= old(self)@.pushed(i).instrs);
        index
    }

    /// Appends an instruction without arguments and returns its index.
    pub fn push_back_op(&mut self, op: Opcode) -> (index: usize)
        ensures
            index == old(self)@.instrs.len(),
            final(self)@ == old(self)@.pushed(
                Instr { opcode: op, arg1: None, arg2: None, next: None, last: None },
            ),
    {
        self.push_back(Instr::new(op))
    }

    /// Links an instruction in behind the instruction `after` and returns
    /// its index. Where `after` is no instruction of the list, nothing
    /// changes.
    pub fn insert_after(&mut self, after: usize, i: Instr) -> (index: Option<usize>)
        ensures
            after < old(self)@.instrs.len() ==> index == Some(old(self)@.instrs.len() as usize)
                && final(self)@ == old(self)@.inserted(after, i),
            after >= old(self)@.instrs.len() ==> index is None && final(self)@ == old(self)@,
    {
        if after >= self.instrs.len() {
            return None;
        }
        let index = self.instrs.len();
        let mut before = self.instrs[after];
        let follower = before.next;
        let mut node = i;
        node.next = follower;
        node.last = Some(after);
        before.next = Some(index);
        self.instrs.set(after, before);
        let linked = match follower {
            Some(f) => f < self.instrs.len() && f != after,
            None => false,
        };
        if linked {
            let f = follower.unwrap();
            let mut behind = self.instrs[f];
            behind.last = Some(index);
            self.instrs.set(f, behind);
        } else {
            self.back = Some(index);
        }
        self.instrs.push(node);
        assert(self@.instrs =~= old(self)@.inserted(after, i).instrs);
        Some(index)
    }

    /// The instruction of that index, if the list has it.
    pub fn get(&self, index: usize) -> (i: Option<Instr>)
        ensures
            i == (if index < self@.instrs.len() {
                Some(self@.instrs[index as int])
            } else {
                None::<Instr>
            }),
    {
        if index < self.instrs.len() {
            Some(self.instrs[index])
        } else {
            None
        }
    }

    /// The instructions in the order of the list.
    pub fn to_vec(&self) -> (v: Vec<Instr>)
        ensures
            v@ == self@.sequence(self@.front, self@.instrs.len()),
    {
        let mut v: Vec<Instr> = Vec::new();
        let mut cursor = InstrCursor { curr: self.front };
        let mut left: usize = self.instrs.len();
        while left > 0
            invariant
                left <= self@.instrs.len(),
                self@.sequence(self@.front, self@.instrs.len()) == v@ + self@.sequence(
                    cursor.curr,
                    left as nat,
                ),
            decreases left,
        {
            let ghost before = v@;
            let ghost rest = self@.sequence(cursor.curr, left as nat);
            match cursor.next(self) {
                Some(i) => {
                    v.push(i);
                    left = left - 1;
                    assert(before + rest =~= v@ + self@.sequence(cursor.curr, left as nat));
                },
                None => {
                    assert(before + rest =~= before);
                    return v;
                },
            }
        }
        assert(v@ + self@.sequence(cursor.curr, 0) =~= v@);
        v
    }
}

/// A place in an instruction list.
#[derive(Clone, Copy, Debug, PartialEq, Eq, Structural)]
pub struct InstrCursor {
    pub curr: Option<usize>,
}

impl InstrCursor {
    /// The instruction under the cursor, which moves on to the next one;
    /// nothing where the cursor stands on no instruction of the list.
    pub fn next(&mut self, list: &InstrList) -> (i: Option<Instr>)
        ensures
            list@.holds(old(self).curr) ==> i == Some(list@.instrs[old(self).curr->0 as int])
                && final(self).curr == list@.instrs[old(self).curr->0 as int].next,
            !list@.holds(old(self).curr) ==> i is None && *final(self) == *old(self),
    {
        match self.curr {
            Some(c) => match list.get(c) {
                Some(i) => {
                    self.curr = i.next;
                    Some(i)
                },
                None => None,
            },
            None => None,
        }
    }
}

/// The number of bytes of the globals after `size` more are taken, if
/// the area of the globals has room for them.
pub fn check_global_size(num_globals: usize, size: usize) -> (r: Option<usize>)
    ensures
        r == (if num_globals + size <= GLOBAL_SIZE {
            Some((num_globals + size) as usize)
        } else {
            None::<usize>
        }),
{
    if num_globals <= GLOBAL_SIZE && size <= GLOBAL_SIZE - num_globals {
        Some(num_globals + size)
    } else {
        None
    }
}

} // verus!
