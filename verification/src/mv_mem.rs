//! Reading and writing the bytes of the machine's memory, and the
//! arithmetic of its values.

use crate::mv_spec::{
    arith, compare, le_bytes, le_value, negate, raw_at, raw_bytes, truthy, width, write_at,
    ArithOp, CmpOp, Kind, SIGN_BIT,
};
use vstd::prelude::*;

verus! {

/// The number of bytes of a value of the kind.
pub fn width_of(k: Kind) -> (w: usize)
    ensures
        w == width(k),
{
    match k {
        Kind::C => 1,
        _ => 8,
    }
}

/// The value of the kind that the memory holds at `at`.
pub fn get_raw(mem: &Vec<u8>, at: usize, k: Kind) -> (v: u64)
    requires
        at + width(k) <= mem.len(),
    ensures
        v == raw_at(mem@, at as int, k),
{
    match k {
        Kind::C => mem[at] as u64,
        _ => {
            let ghost b = mem@.subrange(at as int, at + 8);
            assert(b[0] == mem@[at as int] && b[1] == mem@[at + 1] && b[2] == mem@[at + 2] && b[3]
                == mem@[at + 3] && b[4] == mem@[at + 4] && b[5] == mem@[at + 5] && b[6] == mem@[at
                + 6] && b[7] == mem@[at + 7]);
            (mem[at] as u64) | ((mem[at + 1] as u64) << 8) | ((mem[at + 2] as u64) << 16) | ((mem[at
                + 3] as u64) << 24) | ((mem[at + 4] as u64) << 32) | ((mem[at + 5] as u64) << 40) | ((
            mem[at + 6] as u64) << 48) | ((mem[at + 7] as u64) << 56)
        },
    }
}

/// Writes a value of the kind to the memory at `at`.
pub fn put_raw(mem: &mut Vec<u8>, at: usize, k: Kind, v: u64)
    requires
        at + width(k) <= old(mem).len(),
    ensures
        final(mem)@ == write_at(old(mem)@, at as int, raw_bytes(k, v)),
{
    match k {
        Kind::C => {
            mem.set(at, (v & 0xff) as u8);
        },
        _ => {
            mem.set(at, (v & 0xff) as u8);
            mem.set(at + 1, ((v >> 8) & 0xff) as u8);
            mem.set(at + 2, ((v >> 16) & 0xff) as u8);
            mem.set(at + 3, ((v >> 24) & 0xff) as u8);
            mem.set(at + 4, ((v >> 32) & 0xff) as u8);
            mem.set(at + 5, ((v >> 40) & 0xff) as u8);
            mem.set(at + 6, ((v >> 48) & 0xff) as u8);
            mem.set(at + 7, ((v >> 56) & 0xff) as u8);
        },
    }
    assert(mem@ =~= write_at(old(mem)@, at as int, raw_bytes(k, v)));
}

/// Copies `n` bytes inside one memory from `src` to `dst`; the two ranges
/// may overlap.
pub fn move_within(mem: &mut Vec<u8>, src: usize, dst: usize, n: usize)
    requires
        src + n <= old(mem).len(),
        dst + n <= old(mem).len(),
    ensures
        final(mem)@ == write_at(
            old(mem)@,
            dst as int,
            old(mem)@.subrange(src as int, src + n),
        ),
{
    let ghost before = mem@;
    if dst <= src {
        let mut i: usize = 0;
        while i < n
            invariant
                i <= n,
                dst <= src,
                src + n <= mem.len(),
                mem.len() == before.len(),
                forall|j: int| 0 <= j < dst + i ==> mem@[j] == write_at(
                    before,
                    dst as int,
                    before.subrange(src as int, src + n),
                )[j],
                forall|j: int| dst + i <= j < mem.len() ==> mem@[j] == before[j],
            decreases n - i,
        {
            let b = mem[src + i];
            mem.set(dst + i, b);
            i = i + 1;
        }
    } else {
        let mut i: usize = n;
        while i > 0
            invariant
                i <= n,
                dst > src,
                dst + n <= mem.len(),
                mem.len() == before.len(),
                forall|j: int| dst + i <= j < mem.len() ==> mem@[j] == write_at(
                    before,
                    dst as int,
                    before.subrange(src as int, src + n),
                )[j],
                forall|j: int| 0 <= j < dst + i ==> mem@[j] == before[j],
            decreases i,
        {
            i = i - 1;
            let b = mem[src + i];
            mem.set(dst + i, b);
        }
    }
    assert(mem@ =~= write_at(before, dst as int, before.subrange(src as int, src + n)));
}

/// Copies `n` bytes from one memory to another.
pub fn copy_between(dst: &mut Vec<u8>, dst_at: usize, src: &Vec<u8>, src_at: usize, n: usize)
    requires
        src_at + n <= src.len(),
        dst_at + n <= old(dst).len(),
    ensures
        final(dst)@ == write_at(
            old(dst)@,
            dst_at as int,
            src@.subrange(src_at as int, src_at + n),
        ),
{
    let ghost before = dst@;
    let mut i: usize = 0;
    while i < n
        invariant
            i <= n,
            src_at + n <= src.len(),
            dst_at + n <= dst.len(),
            dst.len() == before.len(),
            forall|j: int| dst_at <= j < dst_at + i ==> dst@[j] == src@[src_at + j - dst_at],
            forall|j: int|
                0 <= j < dst.len() && !(dst_at <= j < dst_at + i) ==> dst@[j] == before[j],
        decreases n - i,
    {
        let b = src[src_at + i];
        dst.set(dst_at + i, b);
        i = i + 1;
    }
    assert(dst@ =~= write_at(before, dst_at as int, src@.subrange(src_at as int, src_at + n)));
}

/// Whether a value counts as true.
pub fn is_truthy(k: Kind, v: u64) -> (b: bool)
    ensures
        b == truthy(k, v),
{
    match k {
        Kind::D => v != 0 && v != SIGN_BIT,
        _ => v != 0,
    }
}

/// The result of an arithmetic operation on two integers or two characters.
pub fn do_arith(op: ArithOp, k: Kind, a: u64, b: u64) -> (r: Option<u64>)
    ensures
        r == arith(op, k, a, b),
{
    match k {
        Kind::C => {
            let x = (a & 0xff) as u8;
            let y = (b & 0xff) as u8;
            match op {
                ArithOp::Add => Some(x.wrapping_add(y) as u64),
                ArithOp::Sub => Some(x.wrapping_sub(y) as u64),
                ArithOp::Mul => Some(x.wrapping_mul(y) as u64),
                ArithOp::Div => if y == 0 {
                    None
                } else {
                    Some((x / y) as u64)
                },
            }
        },
        _ => {
            let x = a as i64;
            let y = b as i64;
            match op {
                ArithOp::Add => Some(x.wrapping_add(y) as u64),
                ArithOp::Sub => Some(x.wrapping_sub(y) as u64),
                ArithOp::Mul => Some(x.wrapping_mul(y) as u64),
                ArithOp::Div => if y == 0 {
                    None
                } else {
                    let q = match x.checked_div(y) {
                        Some(q) => q,
                        None => x,
                    };
                    Some(q as u64)
                },
            }
        },
    }
}

/// Whether `a op b` holds.
pub fn do_compare(op: CmpOp, k: Kind, a: u64, b: u64) -> (r: bool)
    ensures
        r == compare(op, k, a, b),
{
    match k {
        Kind::I => {
            let x = a as i64;
            let y = b as i64;
            match op {
                CmpOp::Eq => x == y,
                CmpOp::NotEq => x != y,
                CmpOp::Less => x < y,
                CmpOp::LessEq => x <= y,
                CmpOp::Greater => x > y,
                CmpOp::GreaterEq => x >= y,
            }
        },
        _ => match op {
            CmpOp::Eq => a == b,
            CmpOp::NotEq => a != b,
            CmpOp::Less => a < b,
            CmpOp::LessEq => a <= b,
            CmpOp::Greater => a > b,
            CmpOp::GreaterEq => a >= b,
        },
    }
}

/// The negation of a value.
pub fn do_negate(k: Kind, v: u64) -> (r: u64)
    ensures
        r == negate(k, v),
{
    match k {
        Kind::C => 0u8.wrapping_sub((v & 0xff) as u8) as u64,
        Kind::D => v ^ SIGN_BIT,
        _ => 0i64.wrapping_sub(v as i64) as u64,
    }
}

/// The eight bytes of a value give the value back.
pub proof fn lemma_le_round_trip(v: u64)
    ensures
        le_value(le_bytes(v)) == v,
        le_bytes(v).len() == 8,
{
    let b = le_bytes(v);
    assert(((v & 0xff) as u8 as u64) | ((((v >> 8) & 0xff) as u8 as u64) << 8) | ((((v >> 16)
        & 0xff) as u8 as u64) << 16) | ((((v >> 24) & 0xff) as u8 as u64) << 24) | ((((v >> 32)
        & 0xff) as u8 as u64) << 32) | ((((v >> 40) & 0xff) as u8 as u64) << 40) | ((((v >> 48)
        & 0xff) as u8 as u64) << 48) | ((((v >> 56) & 0xff) as u8 as u64) << 56) == v)
        by (bit_vector);
}

} // verus!
