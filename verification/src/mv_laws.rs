//! What holds of every run of the virtual machine.

use crate::mv::Instr;
use crate::mv_mem::lemma_le_round_trip;
use crate::mv_spec::{
    count_arg, execute, ip_of, le_bytes, raw_at, run, step, write_at, Event, Kind, Machine,
    Shape, STACK_SIZE,
};
use vstd::prelude::*;

verus! {

/// The machine after `n` steps, each of which asked for the next
/// instruction and nothing else; none if one of them did not.
pub open spec fn after(m: Machine, prog: Seq<Instr>, n: nat) -> Option<Machine>
    decreases n,
{
    if n == 0 {
        Some(m)
    } else {
        let s = step(m, prog);
        if s.event == Event::Continue {
            after(s.machine, prog, (n - 1) as nat)
        } else {
            None
        }
    }
}

/// Whether the machine comes to the event `e` with its step number `n`,
/// counted from 0, and to none before it.
pub open spec fn stops_at(m: Machine, prog: Seq<Instr>, n: nat, e: Event) -> bool {
    after(m, prog, n) is Some && step(after(m, prog, n)->0, prog).event == e
}

/// A run stops with an event, be it `HALT`, a failure or a call of the
/// host, exactly if the machine comes to that event within the steps of
/// the run, and to none before it: it halts if and only if a `HALT` is
/// reached and nothing fails first.
pub proof fn law_run_stops(m: Machine, prog: Seq<Instr>, fuel: nat, e: Event)
    requires
        e != Event::Continue,
    ensures
        run(m, prog, fuel).event == e <==> exists|n: nat| n < fuel && stops_at(m, prog, n, e),
    decreases fuel,
{
    if fuel == 0 {
    } else {
        let s = step(m, prog);
        if s.event == Event::Continue {
            law_run_stops(s.machine, prog, (fuel - 1) as nat, e);
            if run(m, prog, fuel).event == e {
                let k = choose|k: nat| k < fuel - 1 && stops_at(s.machine, prog, k, e);
                assert(stops_at(m, prog, k + 1, e));
            }
            if exists|n: nat| n < fuel && stops_at(m, prog, n, e) {
                let n = choose|n: nat| n < fuel && stops_at(m, prog, n, e);
                assert(n > 0);
                assert(stops_at(s.machine, prog, (n - 1) as nat, e));
            }
        } else {
            if run(m, prog, fuel).event == e {
                assert(stops_at(m, prog, 0, e));
            }
            if exists|n: nat| n < fuel && stops_at(m, prog, n, e) {
                let n = choose|n: nat| n < fuel && stops_at(m, prog, n, e);
                if n > 0 {
                    assert(after(m, prog, n) is None);
                }
            }
        }
    }
}

/// The machine halts within a run exactly if it reaches a `HALT` within
/// the steps of the run and no instruction before it fails or asks for
/// the host.
pub proof fn law_halts_iff_halt_reached(m: Machine, prog: Seq<Instr>, fuel: nat)
    ensures
        run(m, prog, fuel).event == Event::Halt <==> exists|n: nat|
            n < fuel && stops_at(m, prog, n, Event::Halt),
{
    law_run_stops(m, prog, fuel, Event::Halt);
}

/// A value written to the memory is read back from it.
pub proof fn law_written_is_read(mem: Seq<u8>, at: int, v: u64)
    requires
        0 <= at,
        at + 8 <= mem.len(),
    ensures
        raw_at(write_at(mem, at, le_bytes(v)), at, Kind::A) == v,
{
    lemma_le_round_trip(v);
    assert(write_at(mem, at, le_bytes(v)).subrange(at, at + 8) =~= le_bytes(v));
}

/// A call and its return: where `CALL` is executed with `args` bytes of
/// arguments on the stack, `ENTER n` opens the frame, the body leaves
/// the frame pointer and the 16 bytes below it as they are, and `RET
/// args r` is executed, the frame pointer is that before the call, the
/// instruction pointer is behind the call, the arguments are gone, and
/// the top `r` bytes of the body's stack stand above what was below the
/// arguments.
pub proof fn law_call_enter_ret(
    m: Machine,
    call: Instr,
    enter: Instr,
    body: Machine,
    ret: Instr,
    args: int,
    r: int,
)
    requires
        m.wf(),
        call.opcode.shape() == Shape::Call,
        call.arg1 is Some,
        call.arg1->0 is Addr,
        enter.opcode.shape() == Shape::Enter,
        count_arg(enter.arg1) is Some,
        ret.opcode.shape() == Shape::Ret,
        count_arg(ret.arg1) == Some(args),
        count_arg(ret.arg2) == Some(r),
        args <= m.sp,
        m.sp + 16 + count_arg(enter.arg1)->0 <= STACK_SIZE,
        body.wf(),
        body.fp == m.sp + 16,
        body.stack.subrange(m.sp, m.sp + 16) == execute(
            execute(m, call).machine,
            enter,
        ).machine.stack.subrange(m.sp, m.sp + 16),
        m.sp + 16 <= body.sp,
        r <= body.sp,
        m.sp - args + r <= STACK_SIZE,
    ensures
        execute(m, call).event == Event::Continue,
        execute(execute(m, call).machine, enter).event == Event::Continue,
        execute(execute(m, call).machine, enter).machine.fp == m.sp + 16,
        execute(body, ret).event == Event::Continue,
        execute(body, ret).machine.fp == m.fp,
        execute(body, ret).machine.ip == ip_of(call.next),
        execute(body, ret).machine.sp == m.sp - args + r,
        execute(body, ret).machine.stack.subrange(m.sp - args, m.sp - args + r)
            == body.stack.subrange(body.sp - r, body.sp),
        forall|i: int|
            0 <= i < m.sp - args ==> execute(body, ret).machine.stack[i] == body.stack[i],
{
    let m1 = execute(m, call).machine;
    let m2 = execute(m1, enter).machine;
    let after_ret = execute(body, ret).machine;
    let sp = m.sp;
    lemma_le_round_trip(ip_of(call.next));
    lemma_le_round_trip(m.fp);
    assert(m1.stack == write_at(m.stack, sp, le_bytes(ip_of(call.next))));
    assert(m1.sp == sp + 8);
    assert(m2.stack == write_at(m1.stack, sp + 8, le_bytes(m1.fp)));
    assert(m2.stack.subrange(sp, sp + 8) =~= le_bytes(ip_of(call.next)));
    assert(m2.stack.subrange(sp + 8, sp + 16) =~= le_bytes(m.fp));
    let saved = body.stack.subrange(sp, sp + 16);
    assert(body.stack.subrange(sp, sp + 8) =~= saved.subrange(0, 8));
    assert(body.stack.subrange(sp + 8, sp + 16) =~= saved.subrange(8, 16));
    assert(m2.stack.subrange(sp, sp + 8) =~= m2.stack.subrange(sp, sp + 16).subrange(0, 8));
    assert(m2.stack.subrange(sp + 8, sp + 16) =~= m2.stack.subrange(sp, sp + 16).subrange(8, 16));
    assert(after_ret.stack.subrange(sp - args, sp - args + r) =~= body.stack.subrange(
        body.sp - r,
        body.sp,
    ));
}

} // verus!
