use atomc::error::{CompileError, Diagnostic, ErrorKind};
use atomc::lexer::{Token, TokenType};
use atomc::symbols::{
    add_ext_func, add_ext_funcs, add_func_arg, find_symbol_in, require_symbol, AddrOffset,
    ClassType, Context, CtVal, RetVal, StorageType, Symbol, SymbolMap, SymbolType, TypeName,
    GET_C, GET_D, GET_I, GET_S, PUT_C, PUT_D, PUT_I, PUT_S, SECONDS,
};

fn var(name: &str, line: usize) -> Symbol {
    Symbol {
        name: String::from(name),
        class: ClassType::ClsVar,
        storage: StorageType::MemArg,
        symbol_type: SymbolType {
            type_base: TypeName::TbChar,
            struct_symbol: None,
            num_elements: -1,
        },
        line,
        ..Default::default()
    }
}

fn scalar(base: TypeName) -> SymbolType {
    SymbolType::new(base, -1)
}

fn array(base: TypeName, n: i64) -> SymbolType {
    SymbolType::new(base, n)
}

fn structure(name: &str, n: i64) -> SymbolType {
    SymbolType {
        type_base: TypeName::TbStruct,
        struct_symbol: Some(String::from(name)),
        num_elements: n,
    }
}

fn at(line: usize) -> Token {
    Token { token_type: TokenType::Semicolon, line }
}

fn cast(src: &SymbolType, dst: &SymbolType) -> Result<(), CompileError> {
    src.cast(dst.clone(), &at(7))
}

#[test]
fn symbol_add_two() {
    let s1 = Symbol {
        name: String::from("x"),
        class: ClassType::ClsVar,
        storage: StorageType::MemArg,
        symbol_type: SymbolType {
            type_base: TypeName::TbChar,
            struct_symbol: None,
            num_elements: -1,
        },
        ..Default::default()
    };
    let s2 = Symbol {
        name: String::from("y"),
        ..s1.clone()
    };
    let mut st = Context::default();
    st.add_symbol(s1).unwrap();
    st.add_symbol(s2).unwrap();
    assert_eq!((&st.symbols).len(), 2);
}

#[test]
fn symbol_add_twice() {
    let s1 = Symbol {
        name: String::from("x"),
        class: ClassType::ClsVar,
        storage: StorageType::MemArg,
        symbol_type: SymbolType {
            type_base: TypeName::TbChar,
            struct_symbol: None,
            num_elements: -1,
        },
        line: 3,
        ..Default::default()
    };
    let s2 = Symbol {
        name: String::from("x"),
        line: 9,
        ..s1.clone()
    };
    let mut st = Context::default();
    assert_eq!(st.add_symbol(s1), Ok(()));
    let second = st.add_symbol(s2);
    assert_eq!(
        second,
        Err(CompileError { diagnostic: Diagnostic::SymbolAlreadyDefined, line: 9 })
    );
    assert_eq!(second.unwrap_err().kind(), ErrorKind::DuplicateSymbol);
    assert_eq!(st.symbols.len(), 1);
    assert_eq!(st.find_symbol("x").unwrap().line, 3);
}

#[test]
fn scope_keeps_the_order_of_definition() {
    let mut st = Context::new(StorageType::MemLocal, 2);
    assert_eq!(st.depth, 2);
    assert_eq!(st.storage, StorageType::MemLocal);
    for name in ["c", "a", "b"] {
        st.add_symbol(var(name, 1)).unwrap();
    }
    let names: Vec<String> = st.symbols.values().iter().map(|s| s.name.clone()).collect();
    assert_eq!(names, vec!["c", "a", "b"]);
    assert!(st.find_symbol("d").is_none());
    st.clear();
    assert_eq!(st.symbols.len(), 0);
    assert!(st.find_symbol("a").is_none());
}

#[test]
fn update_overwrites_in_place() {
    let mut st = Context::default();
    st.add_symbol(var("a", 1)).unwrap();
    st.add_symbol(var("b", 2)).unwrap();
    st.update_symbol(var("a", 10));
    st.update_symbol(var("z", 11));
    let seen: Vec<(String, usize)> =
        st.symbols.values().iter().map(|s| (s.name.clone(), s.line)).collect();
    assert_eq!(
        seen,
        vec![(String::from("a"), 10), (String::from("b"), 2), (String::from("z"), 11)]
    );
}

#[test]
fn symbol_map_insert_returns_the_old_value() {
    let mut m = SymbolMap::new();
    assert!(m.insert(String::from("k"), var("first", 1)).is_none());
    let old = m.insert(String::from("k"), var("second", 2)).unwrap();
    assert_eq!(old.name, "first");
    assert_eq!(m.get("k").unwrap().name, "second");
    assert_eq!(m.len(), 1);
    let copy = m.clone();
    m.clear();
    assert_eq!(m.len(), 0);
    assert_eq!(copy.len(), 1);
    assert_eq!(copy.values()[0].name, "second");
}

#[test]
fn lookup_finds_the_innermost_binding() {
    let mut outer = Context::default();
    outer.add_symbol(var("x", 1)).unwrap();
    outer.add_symbol(var("y", 2)).unwrap();
    let mut inner = Context::new(StorageType::MemLocal, 1);
    inner.add_symbol(var("x", 5)).unwrap();
    let scopes = vec![outer, inner];
    assert_eq!(require_symbol(&scopes, "x").unwrap().line, 5);
    assert_eq!(require_symbol(&scopes, "y").unwrap().line, 2);
    assert_eq!(
        require_symbol(&scopes, "z").unwrap_err(),
        CompileError { diagnostic: Diagnostic::UndefinedSymbol, line: 0 }
    );
    assert_eq!(
        require_symbol(&scopes, "z").unwrap_err().kind(),
        ErrorKind::UndefinedSymbol
    );
    assert!(find_symbol_in(&scopes, "z").is_none());
    assert!(find_symbol_in(&Vec::new(), "x").is_none());
}

#[test]
fn members_of_a_symbol() {
    let mut s = Symbol {
        name: String::from("P"),
        class: ClassType::ClsStruct,
        am: Some(SymbolMap::new()),
        ..Default::default()
    };
    s.add_symbol(var("x", 1)).unwrap();
    s.add_symbol(var("y", 2)).unwrap();
    assert_eq!(
        s.add_symbol(var("x", 3)),
        Err(CompileError { diagnostic: Diagnostic::SymbolAlreadyDefined, line: 3 })
    );
    assert_eq!(s.find_symbol("y").unwrap().line, 2);
    assert!(s.find_symbol("z").is_none());
    s.update_symbol(var("x", 8));
    assert_eq!(s.find_symbol("x").unwrap().line, 8);
    assert_eq!(s.am.as_ref().unwrap().len(), 2);
    let mut plain = var("v", 1);
    assert_eq!(plain.add_symbol(var("m", 1)), Ok(()));
    assert!(plain.am.is_none());
    assert!(plain.find_symbol("m").is_none());
}

#[test]
fn cast_of_a_type_to_itself() {
    for t in [
        scalar(TypeName::TbInt),
        scalar(TypeName::TbChar),
        scalar(TypeName::TbDouble),
        array(TypeName::TbInt, 0),
        array(TypeName::TbDouble, 4),
        structure("S", -1),
        structure("S", 3),
    ] {
        assert_eq!(cast(&t, &t), Ok(()));
    }
    let void = scalar(TypeName::TbVoid);
    assert_eq!(
        cast(&void, &void),
        Err(CompileError { diagnostic: Diagnostic::IncompatibleTypes, line: 7 })
    );
}

#[test]
fn cast_rules() {
    let int = scalar(TypeName::TbInt);
    let chr = scalar(TypeName::TbChar);
    let dbl = scalar(TypeName::TbDouble);
    for a in [&int, &chr, &dbl] {
        for b in [&int, &chr, &dbl] {
            assert_eq!(cast(a, b), Ok(()));
        }
    }
    assert_eq!(cast(&array(TypeName::TbInt, 3), &array(TypeName::TbInt, 0)), Ok(()));
    assert_eq!(cast(&array(TypeName::TbInt, 3), &array(TypeName::TbInt, 8)), Ok(()));
    let fails = |src: &SymbolType, dst: &SymbolType, d: Diagnostic| {
        let e = cast(src, dst).unwrap_err();
        assert_eq!(e, CompileError { diagnostic: d, line: 7 });
        assert_eq!(e.kind(), ErrorKind::TypeError);
    };
    fails(
        &array(TypeName::TbInt, 3),
        &array(TypeName::TbChar, 3),
        Diagnostic::ArrayToArrayOfOtherType,
    );
    fails(&array(TypeName::TbInt, 3), &int, Diagnostic::ArrayToNonArray);
    fails(&int, &array(TypeName::TbInt, 3), Diagnostic::NonArrayToArray);
    fails(&structure("S", -1), &structure("T", -1), Diagnostic::StructToOtherStruct);
    fails(&structure("S", -1), &int, Diagnostic::IncompatibleTypes);
    fails(&int, &structure("S", -1), Diagnostic::IncompatibleTypes);
    fails(&scalar(TypeName::TbVoid), &int, Diagnostic::IncompatibleTypes);
    fails(&scalar(TypeName::TbFunc), &scalar(TypeName::TbFunc), Diagnostic::IncompatibleTypes);
    fails(&scalar(TypeName::TbStruct), &scalar(TypeName::TbStruct), Diagnostic::StructToOtherStruct);
}

#[test]
fn arithmetic_type() {
    let base = |a: TypeName, b: TypeName| {
        scalar(a).get_arith_type(scalar(b)).map(|t| (t.type_base, t.num_elements))
    };
    assert_eq!(base(TypeName::TbChar, TypeName::TbChar), Some((TypeName::TbChar, -1)));
    assert_eq!(base(TypeName::TbInt, TypeName::TbChar), Some((TypeName::TbInt, -1)));
    assert_eq!(base(TypeName::TbChar, TypeName::TbInt), Some((TypeName::TbInt, -1)));
    assert_eq!(base(TypeName::TbInt, TypeName::TbInt), Some((TypeName::TbInt, -1)));
    assert_eq!(base(TypeName::TbDouble, TypeName::TbChar), Some((TypeName::TbDouble, -1)));
    assert_eq!(base(TypeName::TbInt, TypeName::TbDouble), Some((TypeName::TbDouble, -1)));
    assert_eq!(base(TypeName::TbDouble, TypeName::TbDouble), Some((TypeName::TbDouble, -1)));
    assert_eq!(base(TypeName::TbStruct, TypeName::TbInt), None);
    assert_eq!(base(TypeName::TbInt, TypeName::TbVoid), None);
    assert_eq!(base(TypeName::TbFunc, TypeName::TbFunc), None);
    assert!(array(TypeName::TbInt, 2).get_arith_type(scalar(TypeName::TbInt)).is_none());
    assert!(scalar(TypeName::TbInt).get_arith_type(array(TypeName::TbInt, 0)).is_none());
}

#[test]
fn address_or_offset() {
    assert_eq!(AddrOffset::Addr(40).get_addr(), 40);
    assert_eq!(AddrOffset::Addr(40).get_offset(), 0);
    assert_eq!(AddrOffset::Offset(-8).get_offset(), -8);
    assert_eq!(AddrOffset::Offset(-8).get_addr(), 0);
}

#[test]
fn constant_values() {
    assert_eq!(CtVal::IntChar(5).get_int(), 5);
    assert_eq!(CtVal::IntChar(5).get_string(), "");
    assert_eq!(CtVal::Double(String::from("2.5")).get_double(), "2.5");
    assert_eq!(CtVal::Double(String::from("2.5")).get_int(), 0);
    assert_eq!(CtVal::String(String::from("hi")).get_string(), "hi");
    assert_eq!(CtVal::String(String::from("hi")).get_double(), "");
    let rv = RetVal::default();
    assert!(rv.symbol_type.is_none() && !rv.is_lval && !rv.is_ctval && rv.ctval.is_none());
    let t = SymbolType::default();
    assert_eq!((t.type_base, t.num_elements), (TypeName::TbVoid, -1));
    assert!(t.struct_symbol.is_none());
}

#[test]
fn host_routines_are_registered_in_order() {
    let mut global = Context::default();
    assert_eq!(add_ext_funcs(&mut global), Ok(()));
    let all = global.symbols.values();
    let names: Vec<&str> = all.iter().map(|s| s.name.as_str()).collect();
    assert_eq!(
        names,
        vec!["put_s", "get_s", "put_i", "get_i", "put_d", "get_d", "put_c", "get_c", "seconds"]
    );
    let addrs: Vec<usize> = all.iter().map(|s| s.ao.get_addr()).collect();
    assert_eq!(addrs, vec![PUT_S, GET_S, PUT_I, GET_I, PUT_D, GET_D, PUT_C, GET_C, SECONDS]);
    for s in &all {
        assert_eq!(s.class, ClassType::ClsExtFunc);
        assert_eq!(s.storage, StorageType::MemBuiltin);
    }
    let returns: Vec<TypeName> = all.iter().map(|s| s.symbol_type.type_base).collect();
    assert_eq!(
        returns,
        vec![
            TypeName::TbVoid,
            TypeName::TbVoid,
            TypeName::TbVoid,
            TypeName::TbInt,
            TypeName::TbVoid,
            TypeName::TbDouble,
            TypeName::TbVoid,
            TypeName::TbChar,
            TypeName::TbDouble
        ]
    );
    let arity: Vec<usize> = all.iter().map(|s| s.am.as_ref().unwrap().len()).collect();
    assert_eq!(arity, vec![1, 1, 1, 0, 1, 0, 1, 0, 0]);
    let put_s = global.find_symbol("put_s").unwrap();
    let arg = put_s.find_symbol("s").unwrap();
    assert_eq!((arg.symbol_type.type_base, arg.symbol_type.num_elements), (TypeName::TbChar, 0));
    let put_i = require_symbol(&vec![global], "put_i").unwrap();
    assert_eq!(put_i.ao.get_addr(), PUT_I);
    assert_eq!(put_i.find_symbol("i").unwrap().symbol_type.type_base, TypeName::TbInt);
}

#[test]
fn host_routine_twice_is_a_duplicate() {
    let mut global = Context::default();
    global.add_symbol(var("put_i", 4)).unwrap();
    assert_eq!(
        add_ext_funcs(&mut global),
        Err(CompileError { diagnostic: Diagnostic::SymbolAlreadyDefined, line: 0 })
    );
    let names: Vec<String> = global.symbols.values().iter().map(|s| s.name.clone()).collect();
    assert_eq!(names, vec!["put_i", "put_s", "get_s"]);
    let mut c = Context::default();
    let f = add_ext_func("now", scalar(TypeName::TbDouble), &mut c, 42).unwrap();
    assert_eq!(f.ao.get_addr(), 42);
    assert_eq!(f.am.as_ref().unwrap().len(), 0);
    assert!(add_ext_func("now", scalar(TypeName::TbDouble), &mut c, 43).is_err());
    let mut f = f;
    let a = add_func_arg(&mut f, "x", scalar(TypeName::TbInt)).unwrap();
    assert_eq!(a.storage, StorageType::MemLocal);
    assert_eq!(a.class, ClassType::ClsVar);
    assert!(add_func_arg(&mut f, "x", scalar(TypeName::TbInt)).is_err());
    assert_eq!(f.am.as_ref().unwrap().len(), 1);
}
