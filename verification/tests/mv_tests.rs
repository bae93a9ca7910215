use atomc::mv::{
    check_global_size, Instr, InstrArg, InstrCursor, InstrList, Opcode, VmError,
};
use atomc::mv_machine::{global_address, VirtualMachine};
use atomc::mv_spec::{Event, Kind, GLOBAL_SIZE, STACK_SIZE};
use atomc::symbols::{add_ext_funcs, require_symbol, Context, PUT_I};

fn op(list: &mut InstrList, o: Opcode) -> usize {
    list.push_back(Instr::new(o))
}

fn op1(list: &mut InstrList, o: Opcode, a: InstrArg) -> usize {
    list.push_back(Instr::new_arg(o, a))
}

fn op2(list: &mut InstrList, o: Opcode, a: InstrArg, b: InstrArg) -> usize {
    list.push_back(Instr::new_arg2(o, a, b))
}

fn on_reals(opcode: Opcode, vm: &mut VirtualMachine) {
    match opcode {
        Opcode::OCastID => {
            let v = vm.pop(Kind::I).unwrap() as i64;
            vm.push(Kind::D, (v as f64).to_bits()).unwrap();
        }
        Opcode::OCastDI => {
            let v = f64::from_bits(vm.pop(Kind::D).unwrap());
            vm.push(Kind::I, (v as i64) as u64).unwrap();
        }
        Opcode::OCastCD => {
            let v = vm.pop(Kind::C).unwrap();
            vm.push(Kind::D, (v as f64).to_bits()).unwrap();
        }
        Opcode::OCastDC => {
            let v = f64::from_bits(vm.pop(Kind::D).unwrap());
            vm.push(Kind::C, (v as u8) as u64).unwrap();
        }
        _ => {
            let b = f64::from_bits(vm.pop(Kind::D).unwrap());
            let a = f64::from_bits(vm.pop(Kind::D).unwrap());
            match opcode {
                Opcode::OAddD => vm.push(Kind::D, (a + b).to_bits()).unwrap(),
                Opcode::OSubD => vm.push(Kind::D, (a - b).to_bits()).unwrap(),
                Opcode::OMulD => vm.push(Kind::D, (a * b).to_bits()).unwrap(),
                Opcode::ODivD => vm.push(Kind::D, (a / b).to_bits()).unwrap(),
                Opcode::OEqD => vm.push(Kind::I, (a == b) as u64).unwrap(),
                Opcode::ONotEqD => vm.push(Kind::I, (a != b) as u64).unwrap(),
                Opcode::OLessD => vm.push(Kind::I, (a < b) as u64).unwrap(),
                Opcode::OLessEqD => vm.push(Kind::I, (a <= b) as u64).unwrap(),
                Opcode::OGreaterD => vm.push(Kind::I, (a > b) as u64).unwrap(),
                Opcode::OGreaterEqD => vm.push(Kind::I, (a >= b) as u64).unwrap(),
                _ => panic!("no operation on reals"),
            }
        }
    }
}

/// Runs a program to its end; `put_i` gathers its arguments in `out`.
fn drive(vm: &mut VirtualMachine, list: &InstrList, out: &mut Vec<i64>) -> Event {
    vm.start(list);
    loop {
        match vm.run(list, 100_000) {
            Event::CallExt(addr) => {
                assert_eq!(addr, PUT_I);
                out.push(vm.pop(Kind::I).unwrap() as i64);
            }
            Event::Real(opcode) => on_reals(opcode, vm),
            other => return other,
        }
    }
}

fn run_program(list: &InstrList) -> (VirtualMachine, Event, Vec<i64>) {
    let mut vm = VirtualMachine::new();
    let mut out = Vec::new();
    let e = drive(&mut vm, list, &mut out);
    (vm, e, out)
}

fn top_int(vm: &VirtualMachine) -> i64 {
    let mut b = [0u8; 8];
    b.copy_from_slice(&vm.stack[vm.sp - 8..vm.sp]);
    i64::from_le_bytes(b)
}

fn eval_int(a: i64, b: i64, o: Opcode) -> (Event, i64) {
    let mut list = InstrList::new();
    op1(&mut list, Opcode::OPushCtI, InstrArg::Int(a));
    op1(&mut list, Opcode::OPushCtI, InstrArg::Int(b));
    op(&mut list, o);
    op(&mut list, Opcode::OHalt);
    let (vm, e, _) = run_program(&list);
    if e == Event::Halt {
        assert_eq!(vm.sp, 8);
        (e, top_int(&vm))
    } else {
        (e, 0)
    }
}

#[test]
fn mv_test() {
    let mut instr_list = InstrList::new();
    let mut contexts = vec![Context::default()];
    add_ext_funcs(&mut contexts[0]).unwrap();
    let g = InstrArg::Addr(global_address(0));
    op1(&mut instr_list, Opcode::OPushCtA, g);
    op1(&mut instr_list, Opcode::OPushCtI, InstrArg::Int(3));
    op1(&mut instr_list, Opcode::OStore, InstrArg::Int(8));
    let l1 = op1(&mut instr_list, Opcode::OPushCtA, g);
    op1(&mut instr_list, Opcode::OLoad, InstrArg::Int(8));
    op1(
        &mut instr_list,
        Opcode::OCallext,
        InstrArg::Addr(require_symbol(&contexts, "put_i").unwrap().ao.get_addr()),
    );
    op1(&mut instr_list, Opcode::OPushCtA, g);
    op1(&mut instr_list, Opcode::OPushCtA, g);
    op1(&mut instr_list, Opcode::OLoad, InstrArg::Int(8));
    op1(&mut instr_list, Opcode::OPushCtI, InstrArg::Int(1));
    op(&mut instr_list, Opcode::OSubI);
    op1(&mut instr_list, Opcode::OStore, InstrArg::Int(8));
    op1(&mut instr_list, Opcode::OPushCtA, g);
    op1(&mut instr_list, Opcode::OLoad, InstrArg::Int(8));
    op1(&mut instr_list, Opcode::OJtI, InstrArg::Addr(l1));

    op1(&mut instr_list, Opcode::OPushCtI, InstrArg::Int(10));
    op1(&mut instr_list, Opcode::OPushCtI, InstrArg::Int(5));
    op(&mut instr_list, Opcode::OSubI);

    op1(&mut instr_list, Opcode::OPushCtD, InstrArg::Double(10f64.to_bits()));
    op1(&mut instr_list, Opcode::OPushCtD, InstrArg::Double(3f64.to_bits()));
    op(&mut instr_list, Opcode::ODivD);

    op1(&mut instr_list, Opcode::OPushCtD, InstrArg::Double(10f64.to_bits()));
    op1(&mut instr_list, Opcode::OPushCtD, InstrArg::Double(3.5f64.to_bits()));
    op(&mut instr_list, Opcode::OMulD);

    op1(&mut instr_list, Opcode::OPushCtI, InstrArg::Int(65));
    op(&mut instr_list, Opcode::OCastIC);

    op1(&mut instr_list, Opcode::OPushCtD, InstrArg::Double(10.5f64.to_bits()));
    op1(&mut instr_list, Opcode::OPushCtD, InstrArg::Double(3.88f64.to_bits()));
    op(&mut instr_list, Opcode::OGreaterD);

    op1(&mut instr_list, Opcode::OPushCtI, InstrArg::Int(10));
    op1(&mut instr_list, Opcode::OPushCtI, InstrArg::Int(0));
    op(&mut instr_list, Opcode::OAndI);

    op1(&mut instr_list, Opcode::OPushCtI, InstrArg::Int(10));
    op1(&mut instr_list, Opcode::OPushCtI, InstrArg::Int(1));
    op(&mut instr_list, Opcode::OAndI);

    op(&mut instr_list, Opcode::OHalt);

    let (mut vm, e, out) = run_program(&instr_list);
    assert_eq!(e, Event::Halt);
    assert_eq!(out, vec![3, 2, 1]);
    assert_eq!(&vm.globals[0..8], &0i64.to_le_bytes());
    assert_eq!(vm.pop(Kind::I), Ok(1));
    assert_eq!(vm.pop(Kind::I), Ok(0));
    assert_eq!(vm.pop(Kind::I), Ok(1));
    assert_eq!(vm.pop(Kind::C), Ok(65));
    assert_eq!(f64::from_bits(vm.pop(Kind::D).unwrap()), 35.0);
    assert_eq!(f64::from_bits(vm.pop(Kind::D).unwrap()), 10.0 / 3.0);
    assert_eq!(vm.pop(Kind::I), Ok(5));
    assert_eq!(vm.sp, 0);
    assert_eq!(vm.pop(Kind::I), Err(VmError::StackError));
}

#[test]
fn empty_program_halts_with_empty_stack() {
    let mut list = InstrList::new();
    op(&mut list, Opcode::OHalt);
    let (vm, e, out) = run_program(&list);
    assert_eq!(e, Event::Halt);
    assert_eq!(vm.sp, 0);
    assert!(out.is_empty());
}

#[test]
fn program_without_halt_runs_off_its_end() {
    let mut list = InstrList::new();
    op(&mut list, Opcode::ONop);
    let (_, e, _) = run_program(&list);
    assert_eq!(e, Event::Fail(VmError::InvalidAddress));
    let (_, e, _) = run_program(&InstrList::new());
    assert_eq!(e, Event::Fail(VmError::InvalidAddress));
}

#[test]
fn fuel_runs_out_on_a_loop() {
    let mut list = InstrList::new();
    let start = op(&mut list, Opcode::ONop);
    op1(&mut list, Opcode::OJmp, InstrArg::Addr(start));
    let mut vm = VirtualMachine::new();
    vm.start(&list);
    assert_eq!(vm.run(&list, 1001), Event::Continue);
    assert_eq!(vm.ip, 1);
    assert_eq!(vm.run(&list, 0), Event::Continue);
    assert_eq!(vm.ip, 1);
}

#[test]
fn arithmetic_scenario_gives_eleven() {
    let mut list = InstrList::new();
    op1(&mut list, Opcode::OPushCtI, InstrArg::Int(3));
    op1(&mut list, Opcode::OPushCtI, InstrArg::Int(4));
    op1(&mut list, Opcode::OPushCtI, InstrArg::Int(2));
    op(&mut list, Opcode::OMulI);
    op(&mut list, Opcode::OAddI);
    op1(&mut list, Opcode::OCallext, InstrArg::Addr(PUT_I));
    op1(&mut list, Opcode::OPushCtI, InstrArg::Int(0));
    op(&mut list, Opcode::OHalt);
    let (mut vm, e, out) = run_program(&list);
    assert_eq!(e, Event::Halt);
    assert_eq!(out, vec![11]);
    assert_eq!(vm.pop(Kind::I), Ok(0));
    assert_eq!(vm.sp, 0);
}

#[test]
fn struct_member_scenario_stores_six() {
    // p.x = 5; p.y = p.x + 1; with p at the start of the globals.
    let mut list = InstrList::new();
    let p = global_address(0);
    op1(&mut list, Opcode::OPushCtA, InstrArg::Addr(p));
    op1(&mut list, Opcode::OPushCtI, InstrArg::Int(0));
    op(&mut list, Opcode::OOffset);
    op1(&mut list, Opcode::OPushCtI, InstrArg::Int(5));
    op1(&mut list, Opcode::OStore, InstrArg::Int(8));
    op1(&mut list, Opcode::OPushCtA, InstrArg::Addr(p));
    op1(&mut list, Opcode::OPushCtI, InstrArg::Int(8));
    op(&mut list, Opcode::OOffset);
    op1(&mut list, Opcode::OPushCtA, InstrArg::Addr(p));
    op1(&mut list, Opcode::OLoad, InstrArg::Int(8));
    op1(&mut list, Opcode::OPushCtI, InstrArg::Int(1));
    op(&mut list, Opcode::OAddI);
    op1(&mut list, Opcode::OStore, InstrArg::Int(8));
    op(&mut list, Opcode::OHalt);
    let (vm, e, _) = run_program(&list);
    assert_eq!(e, Event::Halt);
    assert_eq!(vm.sp, 0);
    assert_eq!(&vm.globals[0..8], &5i64.to_le_bytes());
    assert_eq!(&vm.globals[8..16], &6i64.to_le_bytes());
}

#[test]
fn integer_arithmetic() {
    assert_eq!(eval_int(7, 5, Opcode::OAddI), (Event::Halt, 12));
    assert_eq!(eval_int(7, 5, Opcode::OSubI), (Event::Halt, 2));
    assert_eq!(eval_int(5, 7, Opcode::OSubI), (Event::Halt, -2));
    assert_eq!(eval_int(7, 5, Opcode::OMulI), (Event::Halt, 35));
    assert_eq!(eval_int(7, 2, Opcode::ODivI), (Event::Halt, 3));
    assert_eq!(eval_int(-7, 2, Opcode::ODivI), (Event::Halt, -3));
    assert_eq!(eval_int(7, -2, Opcode::ODivI), (Event::Halt, -3));
    assert_eq!(eval_int(i64::MAX, 1, Opcode::OAddI), (Event::Halt, i64::MIN));
    assert_eq!(eval_int(i64::MIN, 1, Opcode::OSubI), (Event::Halt, i64::MAX));
    assert_eq!(eval_int(i64::MAX, 2, Opcode::OMulI), (Event::Halt, -2));
    assert_eq!(eval_int(i64::MIN, -1, Opcode::ODivI), (Event::Halt, i64::MIN));
    assert_eq!(eval_int(1, 0, Opcode::ODivI).0, Event::Fail(VmError::DivisionByZero));
}

#[test]
fn integer_comparison_and_logic() {
    assert_eq!(eval_int(1, 2, Opcode::OLessI), (Event::Halt, 1));
    assert_eq!(eval_int(2, 1, Opcode::OLessI), (Event::Halt, 0));
    assert_eq!(eval_int(-1, 1, Opcode::OLessI), (Event::Halt, 1));
    assert_eq!(eval_int(2, 2, Opcode::OLessEqI), (Event::Halt, 1));
    assert_eq!(eval_int(3, 2, Opcode::OLessEqI), (Event::Halt, 0));
    assert_eq!(eval_int(3, 2, Opcode::OGreaterI), (Event::Halt, 1));
    assert_eq!(eval_int(2, 3, Opcode::OGreaterEqI), (Event::Halt, 0));
    assert_eq!(eval_int(3, 3, Opcode::OGreaterEqI), (Event::Halt, 1));
    assert_eq!(eval_int(3, 3, Opcode::OEqI), (Event::Halt, 1));
    assert_eq!(eval_int(3, 4, Opcode::OEqI), (Event::Halt, 0));
    assert_eq!(eval_int(3, 4, Opcode::ONotEqI), (Event::Halt, 1));
    assert_eq!(eval_int(10, 0, Opcode::OAndI), (Event::Halt, 0));
    assert_eq!(eval_int(10, 1, Opcode::OAndI), (Event::Halt, 1));
    assert_eq!(eval_int(0, 0, Opcode::OOrI), (Event::Halt, 0));
    assert_eq!(eval_int(0, 7, Opcode::OOrI), (Event::Halt, 1));
}

#[test]
fn unary_operations() {
    let run1 = |v: i64, o: Opcode| {
        let mut list = InstrList::new();
        op1(&mut list, Opcode::OPushCtI, InstrArg::Int(v));
        op(&mut list, o);
        op(&mut list, Opcode::OHalt);
        let (vm, e, _) = run_program(&list);
        assert_eq!(e, Event::Halt);
        top_int(&vm)
    };
    assert_eq!(run1(5, Opcode::ONegI), -5);
    assert_eq!(run1(i64::MIN, Opcode::ONegI), i64::MIN);
    assert_eq!(run1(5, Opcode::ONotI), 0);
    assert_eq!(run1(0, Opcode::ONotI), 1);
    let mut list = InstrList::new();
    op1(&mut list, Opcode::OPushCtD, InstrArg::Double(2.5f64.to_bits()));
    op(&mut list, Opcode::ONegD);
    op1(&mut list, Opcode::OPushCtD, InstrArg::Double((-0.0f64).to_bits()));
    op(&mut list, Opcode::ONotD);
    op(&mut list, Opcode::OHalt);
    let (mut vm, e, _) = run_program(&list);
    assert_eq!(e, Event::Halt);
    assert_eq!(vm.pop(Kind::I), Ok(1));
    assert_eq!(f64::from_bits(vm.pop(Kind::D).unwrap()), -2.5);
}

#[test]
fn character_operations() {
    let mut list = InstrList::new();
    op1(&mut list, Opcode::OPushCtC, InstrArg::Int(200));
    op1(&mut list, Opcode::OPushCtC, InstrArg::Int(100));
    op(&mut list, Opcode::OAddC);
    op1(&mut list, Opcode::OPushCtC, InstrArg::Int(65));
    op(&mut list, Opcode::OCastCI);
    op1(&mut list, Opcode::OPushCtI, InstrArg::Int(0x141));
    op(&mut list, Opcode::OCastIC);
    op1(&mut list, Opcode::OPushCtC, InstrArg::Int(3));
    op1(&mut list, Opcode::OPushCtC, InstrArg::Int(9));
    op(&mut list, Opcode::OLessC);
    op(&mut list, Opcode::OHalt);
    let (mut vm, e, _) = run_program(&list);
    assert_eq!(e, Event::Halt);
    assert_eq!(vm.sp, 1 + 8 + 1 + 8);
    assert_eq!(vm.pop(Kind::I), Ok(1));
    assert_eq!(vm.pop(Kind::C), Ok(0x41));
    assert_eq!(vm.pop(Kind::I), Ok(65));
    assert_eq!(vm.pop(Kind::C), Ok(44));
    let mut list = InstrList::new();
    op1(&mut list, Opcode::OPushCtC, InstrArg::Int(1));
    op1(&mut list, Opcode::OPushCtC, InstrArg::Int(0));
    op(&mut list, Opcode::ODivC);
    assert_eq!(run_program(&list).1, Event::Fail(VmError::DivisionByZero));
}

#[test]
fn jumps_on_true_and_false() {
    for (opcode, value, taken) in [
        (Opcode::OJtI, 1, true),
        (Opcode::OJtI, 0, false),
        (Opcode::OJfI, 0, true),
        (Opcode::OJfI, 5, false),
    ] {
        let mut list = InstrList::new();
        op1(&mut list, Opcode::OPushCtI, InstrArg::Int(value));
        let jump = op1(&mut list, opcode, InstrArg::Addr(0));
        op1(&mut list, Opcode::OPushCtI, InstrArg::Int(111));
        op(&mut list, Opcode::OHalt);
        let target = op1(&mut list, Opcode::OPushCtI, InstrArg::Int(222));
        op(&mut list, Opcode::OHalt);
        list.instrs[jump].arg1 = Some(InstrArg::Addr(target));
        list.instrs[3].next = None;
        let (vm, e, _) = run_program(&list);
        assert_eq!(e, Event::Halt);
        assert_eq!(top_int(&vm), if taken { 222 } else { 111 });
    }
}

#[test]
fn call_enter_ret_restores_the_frame() {
    // main: push 20, push 22, call add, halt;  add: enter 8, ..., ret 16 8
    let mut list = InstrList::new();
    op1(&mut list, Opcode::OPushCtI, InstrArg::Int(7));
    op1(&mut list, Opcode::OPushCtI, InstrArg::Int(20));
    op1(&mut list, Opcode::OPushCtI, InstrArg::Int(22));
    let call = op1(&mut list, Opcode::OCall, InstrArg::Addr(0));
    let halt = op(&mut list, Opcode::OHalt);
    let entry = op1(&mut list, Opcode::OEnter, InstrArg::Int(8));
    op1(&mut list, Opcode::OPushFPAddr, InstrArg::Int(-32));
    op1(&mut list, Opcode::OLoad, InstrArg::Int(8));
    op1(&mut list, Opcode::OPushFPAddr, InstrArg::Int(-24));
    op1(&mut list, Opcode::OLoad, InstrArg::Int(8));
    op(&mut list, Opcode::OAddI);
    op2(&mut list, Opcode::ORet, InstrArg::Int(16), InstrArg::Int(8));
    list.instrs[call].arg1 = Some(InstrArg::Addr(entry));
    list.instrs[halt].next = None;
    let mut vm = VirtualMachine::new();
    vm.fp = 4;
    let mut out = Vec::new();
    let e = drive(&mut vm, &list, &mut out);
    assert_eq!(e, Event::Halt);
    assert_eq!(vm.fp, 4);
    assert_eq!(vm.ip as usize, halt);
    assert_eq!(vm.sp, 16);
    assert_eq!(vm.pop(Kind::I), Ok(42));
    assert_eq!(vm.pop(Kind::I), Ok(7));
}

#[test]
fn insert_and_drop() {
    let mut list = InstrList::new();
    op1(&mut list, Opcode::OPushCtI, InstrArg::Int(1));
    op1(&mut list, Opcode::OPushCtI, InstrArg::Int(2));
    op2(&mut list, Opcode::OInsert, InstrArg::Int(16), InstrArg::Int(8));
    op(&mut list, Opcode::OHalt);
    let (mut vm, e, _) = run_program(&list);
    assert_eq!(e, Event::Halt);
    assert_eq!(vm.sp, 24);
    assert_eq!(vm.pop(Kind::I), Ok(2));
    assert_eq!(vm.pop(Kind::I), Ok(1));
    assert_eq!(vm.pop(Kind::I), Ok(2));
    let mut list = InstrList::new();
    op1(&mut list, Opcode::OPushCtI, InstrArg::Int(1));
    op1(&mut list, Opcode::OPushCtC, InstrArg::Int(2));
    op1(&mut list, Opcode::ODrop, InstrArg::Int(1));
    op(&mut list, Opcode::OHalt);
    let (vm, e, _) = run_program(&list);
    assert_eq!((e, vm.sp), (Event::Halt, 8));
}

#[test]
fn load_and_store_on_the_stack() {
    let mut list = InstrList::new();
    op1(&mut list, Opcode::OEnter, InstrArg::Int(8));
    op1(&mut list, Opcode::OPushFPAddr, InstrArg::Int(0));
    op1(&mut list, Opcode::OPushCtI, InstrArg::Int(99));
    op1(&mut list, Opcode::OStore, InstrArg::Int(8));
    op1(&mut list, Opcode::OPushFPAddr, InstrArg::Int(0));
    op1(&mut list, Opcode::OLoad, InstrArg::Int(8));
    op(&mut list, Opcode::OHalt);
    let (mut vm, e, _) = run_program(&list);
    assert_eq!(e, Event::Halt);
    assert_eq!(vm.fp, 8);
    assert_eq!(vm.sp, 24);
    assert_eq!(vm.pop(Kind::I), Ok(99));
    assert_eq!(vm.pop(Kind::I), Ok(99));
}

#[test]
fn failures_leave_the_machine_as_it_was() {
    let fails = |build: &dyn Fn(&mut InstrList), error: VmError| {
        let mut list = InstrList::new();
        op1(&mut list, Opcode::OPushCtI, InstrArg::Int(1));
        build(&mut list);
        let (vm, e, _) = run_program(&list);
        assert_eq!(e, Event::Fail(error));
        assert_eq!(vm.sp, 8);
        assert_eq!(vm.ip, 1);
    };
    fails(&|l| { op(l, Opcode::OAddI); }, VmError::StackError);
    fails(&|l| { op1(l, Opcode::ODrop, InstrArg::Int(9)); }, VmError::StackError);
    fails(&|l| { op1(l, Opcode::OEnter, InstrArg::Int(40000)); }, VmError::StackError);
    fails(&|l| { op(l, Opcode::ONotA); }, VmError::InvalidOpcode);
    fails(&|l| { op(l, Opcode::OJmp); }, VmError::InvalidOpcode);
    fails(&|l| { op1(l, Opcode::OPushCtI, InstrArg::Addr(1)); }, VmError::InvalidOpcode);
    fails(&|l| { op1(l, Opcode::ODrop, InstrArg::Int(-1)); }, VmError::InvalidOpcode);
    fails(&|l| { op1(l, Opcode::OLoad, InstrArg::Int(8)); }, VmError::InvalidAddress);
    let mut list = InstrList::new();
    op1(&mut list, Opcode::OJmp, InstrArg::Addr(77));
    op(&mut list, Opcode::OHalt);
    let (vm, e, _) = run_program(&list);
    assert_eq!(e, Event::Fail(VmError::InvalidAddress));
    assert_eq!(vm.ip, 77);
}

#[test]
fn stack_overflow_is_an_error() {
    let mut vm = VirtualMachine::new();
    assert_eq!(vm.stack.len(), STACK_SIZE);
    assert_eq!(vm.globals.len(), GLOBAL_SIZE);
    for _ in 0..STACK_SIZE / 8 {
        assert_eq!(vm.push(Kind::I, 1), Ok(()));
    }
    assert!(!vm.check_top(1));
    assert!(vm.check_bot(STACK_SIZE));
    assert_eq!(vm.push(Kind::C, 1), Err(VmError::StackError));
    assert_eq!(vm.sp, STACK_SIZE);
    let mut list = InstrList::new();
    let start = op1(&mut list, Opcode::OPushCtI, InstrArg::Int(1));
    op1(&mut list, Opcode::OJmp, InstrArg::Addr(start));
    let (vm, e, _) = run_program(&list);
    assert_eq!(e, Event::Fail(VmError::StackError));
    assert_eq!(vm.sp, STACK_SIZE);
}

#[test]
fn instruction_list_links() {
    let mut list = InstrList::new();
    assert_eq!(list.front, None);
    let a = list.push_back_op(Opcode::ONop);
    let b = list.push_back_op(Opcode::OHalt);
    assert_eq!((a, b), (0, 1));
    assert_eq!((list.front, list.back), (Some(0), Some(1)));
    let c = list.insert_after(a, Instr::new(Opcode::OAddI)).unwrap();
    assert_eq!(c, 2);
    assert_eq!(list.instrs[a].next, Some(c));
    assert_eq!(list.instrs[c].next, Some(b));
    assert_eq!(list.instrs[c].last, Some(a));
    assert_eq!(list.instrs[b].last, Some(c));
    let d = list.insert_after(b, Instr::new(Opcode::OSubI)).unwrap();
    assert_eq!(list.back, Some(d));
    assert_eq!(list.insert_after(9, Instr::new(Opcode::ONop)), None);
    let order: Vec<Opcode> = list.to_vec().iter().map(|i| i.opcode).collect();
    assert_eq!(order, vec![Opcode::ONop, Opcode::OAddI, Opcode::OHalt, Opcode::OSubI]);
    let mut cursor = InstrCursor { curr: list.front };
    let mut seen = 0;
    while cursor.next(&list).is_some() {
        seen += 1;
    }
    assert_eq!(seen, 4);
    assert_eq!(list.get(2).unwrap().opcode, Opcode::OAddI);
    assert!(list.get(4).is_none());
}

#[test]
fn instruction_arguments() {
    assert_eq!(InstrArg::Addr(9).get_addr(), 9);
    assert_eq!(InstrArg::Int(9).get_addr(), 0);
    assert_eq!(InstrArg::Int(-4).get_int(), -4);
    assert_eq!(InstrArg::Double(7).get_int(), 0);
    assert_eq!(InstrArg::Double(7).get_double(), 7);
    assert_eq!(InstrArg::Addr(7).get_double(), 0);
    assert_eq!(InstrArg::default(), InstrArg::Addr(0));
    let i = Instr::new_arg2(Opcode::ORet, InstrArg::Int(1), InstrArg::Int(2));
    assert_eq!((i.arg1, i.arg2), (Some(InstrArg::Int(1)), Some(InstrArg::Int(2))));
    assert_eq!(Instr::new_arg(Opcode::ODrop, InstrArg::Int(1)).arg2, None);
}

#[test]
fn globals_have_room_for_32_kib() {
    assert_eq!(check_global_size(0, 8), Some(8));
    assert_eq!(check_global_size(GLOBAL_SIZE - 8, 8), Some(GLOBAL_SIZE));
    assert_eq!(check_global_size(GLOBAL_SIZE - 8, 9), None);
    assert_eq!(check_global_size(usize::MAX, 1), None);
    assert_eq!(global_address(16), 65536 + 16);
}
