use atomc::asdr::SyntaxAnalyser;
use atomc::asdr_spec::Level;
use atomc::error::{CompileError, Diagnostic, ErrorKind};
use atomc::lexer::{get_tokens, Lexer};
use atomc::symbols::{ClassType, StorageType, SymbolType, TypeName};

fn analyse(source: &str) -> (SyntaxAnalyser, Result<(), CompileError>) {
    let mut lexer = Lexer::from_string(String::from(source));
    let token_vec = lexer.get_tokens();
    let mut analyser = SyntaxAnalyser::new(token_vec);
    let r = analyser.analyse_syntax();
    (analyser, r)
}

fn check(source: &str) -> Result<(), CompileError> {
    analyse(source).1
}

fn fails(source: &str, diagnostic: Diagnostic, line: usize) {
    let r = check(source);
    assert_eq!(r, Err(CompileError { diagnostic, line }), "source: {}", source);
}

fn kind_of(source: &str) -> ErrorKind {
    check(source).unwrap_err().kind()
}

fn expr_type(body: &str) -> Result<(TypeName, i64, bool, bool), CompileError> {
    let prelude = "struct P { int x; double y; char name[8]; }; int i; char c; double d; \
                   int a[3]; struct P p; struct P ps[2]; int f(int n, double m) { return n; } \
                   void g() { } ";
    let tokens = get_tokens(format!("{}", prelude));
    let mut analyser = SyntaxAnalyser::new(tokens);
    analyser.analyse_syntax().unwrap();
    analyser.token_vec = get_tokens(String::from(body));
    let r = analyser.rule_expr(0)?;
    let (rv, pos) = r.expect("no expression");
    assert_eq!(pos, analyser.token_vec.len() - 1, "expression not read to its end: {}", body);
    let t = rv.symbol_type.unwrap();
    Ok((t.type_base, t.num_elements, rv.is_lval, rv.is_ctval))
}

fn expr_error(body: &str) -> Diagnostic {
    expr_type(body).unwrap_err().diagnostic
}

#[test]
fn syntax_test() {
    let source = "\
struct Pt { int x; int y; };
struct Pt points[10];
int count;
double scale(double v, int by) { return v * by; }
int sum(int n) {
    int i, s;
    s = 0;
    for (i = 0; i < n; i = i + 1) { s = s + i; }
    while (s > 100) s = s - 1;
    if (s == 3 || !n && count) return 1; else { put_i(s); }
    points[0].x = (int)scale(2.5, 4);
    put_s(\"done\\n\");
    put_c('a');
    return s;
}
void main() { count = sum(10); return; }
";
    let (analyser, r) = analyse(source);
    assert_eq!(r, Ok(()));
    assert_eq!(analyser.symbol_tables.len(), 1);
    assert!(analyser.current_symbol.is_none());
    assert!(!analyser.is_function_context);
    assert_eq!(analyser.current_token_idx, analyser.token_vec.len() - 1);
}

#[test]
fn empty_program_parses() {
    let (analyser, r) = analyse("\0");
    assert_eq!(r, Ok(()));
    assert_eq!(analyser.token_vec.len(), 1);
    assert_eq!(analyser.symbol_tables.len(), 1);
    assert_eq!(analyser.symbol_tables[0].symbols.len(), 9);
    assert_eq!(check(""), Ok(()));
    let mut none = SyntaxAnalyser::new(Vec::new());
    assert_eq!(none.analyse_syntax(), Ok(()));
}

#[test]
fn arithmetic_program_is_well_typed() {
    assert_eq!(check("int main(){ put_i(3+4*2); return 0; }"), Ok(()));
}

#[test]
fn loop_program_is_well_typed() {
    assert_eq!(
        check("int n; void main() { n = 3; while(n){ put_i(n); n = n - 1; } }"),
        Ok(())
    );
    fails(
        "int n; n = 3; while(n){ put_i(n); n = n - 1; }",
        Diagnostic::ExpectedDeclaration,
        1,
    );
}

#[test]
fn struct_member_program_is_well_typed() {
    assert_eq!(
        check("struct P{int x; int y;}; struct P p; void main() { p.x = 5; p.y = p.x + 1; }"),
        Ok(())
    );
    fails(
        "struct P{int x; int y;}; struct P p; p.x = 5; p.y = p.x + 1;",
        Diagnostic::ExpectedDeclaration,
        1,
    );
}

#[test]
fn struct_assigned_to_integer_is_a_type_error() {
    let source = "int x; struct S{int a;};\nstruct S s;\nvoid f(){\n x = s; }";
    fails(source, Diagnostic::IncompatibleTypes, 4);
    assert_eq!(kind_of(source), ErrorKind::TypeError);
    let literal = "int x; struct S{int a;}; void f(){ x = (struct S){0}; }";
    fails(literal, Diagnostic::InvalidCastExpression, 1);
    assert_eq!(kind_of(literal), ErrorKind::SyntaxError);
}

#[test]
fn array_assigned_to_scalar_is_a_type_error() {
    let source = "int a[3]; int i;\nvoid f() {\n i=a;\n}";
    fails(source, Diagnostic::ArrayAssigned, 3);
    assert_eq!(kind_of(source), ErrorKind::TypeError);
    fails("int a[3]; int i; i=a;", Diagnostic::ExpectedDeclaration, 1);
}

#[test]
fn symbols_of_a_program() {
    let (analyser, r) = analyse(
        "struct P { int x; double y[4]; };\nint g, h[2];\nint add(int a, char b[]) { double t; return a; }",
    );
    assert_eq!(r, Ok(()));
    let global = &analyser.symbol_tables[0];
    let names: Vec<String> = global.symbols.values().iter().map(|s| s.name.clone()).collect();
    assert_eq!(&names[9..], &["P", "g", "h", "add"]);
    let p = global.find_symbol("P").unwrap();
    assert_eq!(p.class, ClassType::ClsStruct);
    assert_eq!(p.line, 1);
    let fields = p.am.as_ref().unwrap().values();
    assert_eq!(fields.len(), 2);
    assert_eq!((fields[0].name.as_str(), fields[0].storage), ("x", StorageType::MemStruct));
    assert_eq!(fields[1].symbol_type.num_elements, 4);
    assert_eq!(fields[1].symbol_type.type_base, TypeName::TbDouble);
    assert_eq!(fields[1].depth, 1);
    let g = global.find_symbol("g").unwrap();
    assert_eq!((g.class, g.storage, g.depth, g.line), (ClassType::ClsVar, StorageType::MemGlobal, 0, 2));
    assert_eq!(g.symbol_type.num_elements, -1);
    assert_eq!(global.find_symbol("h").unwrap().symbol_type.num_elements, 2);
    let add = global.find_symbol("add").unwrap();
    assert_eq!(add.class, ClassType::ClsFunc);
    assert_eq!(add.symbol_type.type_base, TypeName::TbInt);
    let params = add.am.as_ref().unwrap().values();
    let seen: Vec<(String, TypeName, i64, StorageType)> = params
        .iter()
        .map(|s| (s.name.clone(), s.symbol_type.type_base, s.symbol_type.num_elements, s.storage))
        .collect();
    assert_eq!(
        seen,
        vec![
            (String::from("a"), TypeName::TbInt, -1, StorageType::MemArg),
            (String::from("b"), TypeName::TbChar, 0, StorageType::MemArg)
        ]
    );
    assert!(global.find_symbol("t").is_none());
    let s = analyser.find_symbol_global("P").unwrap();
    let want = SymbolType { type_base: TypeName::TbStruct, struct_symbol: None, num_elements: -1 };
    assert_eq!(s.symbol_type.type_base, want.type_base);
}

#[test]
fn types_of_expressions() {
    assert_eq!(expr_type("1"), Ok((TypeName::TbInt, -1, false, true)));
    assert_eq!(expr_type("'a'"), Ok((TypeName::TbChar, -1, false, true)));
    assert_eq!(expr_type("1.5"), Ok((TypeName::TbDouble, -1, false, true)));
    assert_eq!(expr_type("\"s\""), Ok((TypeName::TbChar, 0, false, true)));
    assert_eq!(expr_type("i"), Ok((TypeName::TbInt, -1, true, false)));
    assert_eq!(expr_type("a"), Ok((TypeName::TbInt, 3, true, false)));
    assert_eq!(expr_type("a[i]"), Ok((TypeName::TbInt, -1, true, false)));
    assert_eq!(expr_type("a['c']"), Ok((TypeName::TbInt, -1, true, false)));
    assert_eq!(expr_type("p.x"), Ok((TypeName::TbInt, -1, true, false)));
    assert_eq!(expr_type("p.name"), Ok((TypeName::TbChar, 8, true, false)));
    assert_eq!(expr_type("ps[1].name[2]"), Ok((TypeName::TbChar, -1, true, false)));
    assert_eq!(expr_type("f"), Ok((TypeName::TbInt, -1, false, false)));
    assert_eq!(expr_type("f(1, 2)"), Ok((TypeName::TbInt, -1, false, false)));
    assert_eq!(expr_type("g()"), Ok((TypeName::TbVoid, -1, false, false)));
    assert_eq!(expr_type("get_d()"), Ok((TypeName::TbDouble, -1, false, false)));
    assert_eq!(expr_type("(i)"), Ok((TypeName::TbInt, -1, true, false)));
    assert_eq!(expr_type("(1)"), Ok((TypeName::TbInt, -1, false, true)));
    assert_eq!(expr_type("-i"), Ok((TypeName::TbInt, -1, false, false)));
    assert_eq!(expr_type("-1"), Ok((TypeName::TbInt, -1, false, false)));
    assert_eq!(expr_type("!d"), Ok((TypeName::TbDouble, -1, false, false)));
    assert_eq!(expr_type("!a"), Ok((TypeName::TbInt, 3, false, false)));
    assert_eq!(expr_type("(double)i"), Ok((TypeName::TbDouble, -1, false, false)));
    assert_eq!(expr_type("(char)(int)d"), Ok((TypeName::TbChar, -1, false, false)));
    assert_eq!(expr_type("(struct P)p"), Ok((TypeName::TbStruct, -1, false, false)));
    assert_eq!(expr_type("i = c"), Ok((TypeName::TbInt, -1, false, false)));
    assert_eq!(expr_type("d = i = c"), Ok((TypeName::TbDouble, -1, false, false)));
    assert_eq!(expr_type("p = ps[0]"), Ok((TypeName::TbStruct, -1, false, false)));
    assert_eq!(expr_type("i < d"), Ok((TypeName::TbInt, -1, false, false)));
    assert_eq!(expr_type("d == c"), Ok((TypeName::TbInt, -1, false, false)));
    assert_eq!(expr_type("d && a || i"), Ok((TypeName::TbInt, -1, false, false)));
    assert_eq!(expr_type("(i + 1) * (c - 2)"), Ok((TypeName::TbInt, -1, false, false)));
}

#[test]
fn arithmetic_takes_the_common_type() {
    for op in ["+", "-", "*", "/"] {
        let t = |l: &str, r: &str| expr_type(&format!("{} {} {}", l, op, r)).unwrap().0;
        assert_eq!(t("c", "c"), TypeName::TbChar);
        assert_eq!(t("i", "c"), TypeName::TbInt);
        assert_eq!(t("c", "i"), TypeName::TbInt);
        assert_eq!(t("i", "i"), TypeName::TbInt);
        assert_eq!(t("d", "c"), TypeName::TbDouble);
        assert_eq!(t("i", "d"), TypeName::TbDouble);
        assert_eq!(t("d", "d"), TypeName::TbDouble);
        assert_eq!(t("c", "c + i"), TypeName::TbInt);
        assert_eq!(expr_error(&format!("a {} i", op)), Diagnostic::ArrayInArithmetic);
        assert_eq!(expr_error(&format!("i {} p", op)), Diagnostic::StructInArithmetic);
        assert_eq!(expr_error(&format!("g() {} i", op)), Diagnostic::IncompatibleTypes);
    }
    assert_eq!(expr_type("i + c * d"), Ok((TypeName::TbDouble, -1, false, false)));
    let scalar = |b: TypeName| SymbolType::new(b, -1);
    assert_eq!(
        atomc::asdr_expr::combine(Level::Add, &scalar(TypeName::TbInt), &scalar(TypeName::TbChar))
            .unwrap()
            .type_base,
        scalar(TypeName::TbInt).get_arith_type(scalar(TypeName::TbChar)).unwrap().type_base
    );
}

#[test]
fn errors_in_expressions() {
    assert_eq!(expr_error("zz"), Diagnostic::UndefinedSymbol);
    assert_eq!(expr_error("i(1)"), Diagnostic::NotAFunction);
    assert_eq!(expr_error("f(1)"), Diagnostic::TooFewArguments);
    assert_eq!(expr_error("f()"), Diagnostic::TooFewArguments);
    assert_eq!(expr_error("f(1, 2, 3)"), Diagnostic::TooManyArguments);
    assert_eq!(expr_error("g(1)"), Diagnostic::TooManyArguments);
    assert_eq!(expr_error("f(a, 2)"), Diagnostic::ArrayToNonArray);
    assert_eq!(expr_error("f(p, 2)"), Diagnostic::IncompatibleTypes);
    assert_eq!(expr_error("put_s(i)"), Diagnostic::NonArrayToArray);
    assert_eq!(expr_error("f(1, )"), Diagnostic::ExpectedArgumentExpression);
    assert_eq!(expr_error("f(1, 2"), Diagnostic::ExpectedCallClose);
    assert_eq!(expr_error("i[0]"), Diagnostic::IndexedNonArray);
    assert_eq!(expr_error("a[p]"), Diagnostic::IncompatibleTypes);
    assert_eq!(expr_error("a[1"), Diagnostic::ExpectedIndexClose);
    assert_eq!(expr_error("a[]"), Diagnostic::ExpectedIndexExpression);
    assert_eq!(expr_error("i.x"), Diagnostic::ParentNotAStruct);
    assert_eq!(expr_error("p.z"), Diagnostic::NoSuchMember);
    assert_eq!(expr_error("p.1"), Diagnostic::ExpectedMemberIdentifier);
    assert_eq!(expr_error("-a"), Diagnostic::NegatedArray);
    assert_eq!(expr_error("-p"), Diagnostic::NegatedStruct);
    assert_eq!(expr_error("!p"), Diagnostic::NotOfStruct);
    assert_eq!(expr_error("-"), Diagnostic::InvalidUnaryExpression);
    assert_eq!(expr_error("(int)p"), Diagnostic::IncompatibleTypes);
    assert_eq!(expr_error("(int[])i"), Diagnostic::NonArrayToArray);
    assert_eq!(expr_error("(int i"), Diagnostic::ExpectedCastClose);
    assert_eq!(expr_error("(int)"), Diagnostic::InvalidCastExpression);
    assert_eq!(expr_error("(struct Q)p"), Diagnostic::UndefinedStruct);
    assert_eq!(expr_error("(struct i)p"), Diagnostic::NotAStruct);
    assert_eq!(expr_error("(struct)p"), Diagnostic::MissingStructIdentifier);
    assert_eq!(expr_error("(i"), Diagnostic::ExpectedParenthesisClose);
    assert_eq!(expr_error("1 = i"), Diagnostic::AssignToNonLvalue);
    assert_eq!(expr_error("f = i"), Diagnostic::AssignToNonLvalue);
    assert_eq!(expr_error("i = a"), Diagnostic::ArrayAssigned);
    assert_eq!(expr_error("a = a"), Diagnostic::ArrayAssigned);
    assert_eq!(expr_error("i = p"), Diagnostic::IncompatibleTypes);
    assert_eq!(expr_error("i ="), Diagnostic::MissingAssignOperand);
    assert_eq!(expr_error("i ||"), Diagnostic::MissingOrOperand);
    assert_eq!(expr_error("i &&"), Diagnostic::MissingAndOperand);
    assert_eq!(expr_error("i =="), Diagnostic::MissingEqualityOperand);
    assert_eq!(expr_error("i <="), Diagnostic::MissingRelationOperand);
    assert_eq!(expr_error("i +"), Diagnostic::MissingAdditionOperand);
    assert_eq!(expr_error("i *"), Diagnostic::MissingMultiplicationOperand);
    assert_eq!(expr_error("p || i"), Diagnostic::StructTested);
    assert_eq!(expr_error("i && p"), Diagnostic::StructTested);
    assert_eq!(expr_error("p == p"), Diagnostic::StructCompared);
    assert_eq!(expr_error("a != a"), Diagnostic::ArrayCompared);
    assert_eq!(expr_error("a < i"), Diagnostic::ArrayCompared);
    assert_eq!(expr_error("i >= p"), Diagnostic::StructCompared);
}

#[test]
fn errors_in_declarations() {
    fails("int x; int x;", Diagnostic::SymbolAlreadyDefined, 1);
    fails("int x;\nint f() { return 1; }\ndouble x;", Diagnostic::SymbolAlreadyDefined, 3);
    fails("int put_i;", Diagnostic::SymbolAlreadyDefined, 1);
    fails("void f(int a, int a) { }", Diagnostic::SymbolAlreadyDefined, 1);
    fails("void f(int a) { int a; }", Diagnostic::SymbolAlreadyDefined, 1);
    fails("struct S { int a;\n char a; };", Diagnostic::SymbolAlreadyDefined, 2);
    fails("struct S { int a; }; struct S { int b; };", Diagnostic::SymbolAlreadyDefined, 1);
    assert_eq!(check("int x; void f(int y) { int x; { int x; int y; } }"), Ok(()));
    assert_eq!(kind_of("int x; int x;"), ErrorKind::DuplicateSymbol);
    fails("struct T t;", Diagnostic::UndefinedStruct, 1);
    assert_eq!(kind_of("struct T t;"), ErrorKind::UndefinedSymbol);
    fails("int T; struct T t;", Diagnostic::NotAStruct, 1);
    assert_eq!(kind_of("int T; struct T t;"), ErrorKind::ScopeError);
    fails("struct ;", Diagnostic::ExpectedStructIdentifier, 1);
    fails("struct S { int a; ", Diagnostic::ExpectedStructEnd, 1);
    fails("struct S { int a; }", Diagnostic::ExpectedSemicolonAfterStruct, 1);
    fails("int ;", Diagnostic::ExpectedIdentifier, 1);
    fails("int x", Diagnostic::ExpectedDeclarationEnd, 1);
    fails("int x[2]", Diagnostic::ExpectedSemicolonAfterDeclaration, 1);
    fails("int x, y z;", Diagnostic::ExpectedSemicolonAfterDeclaration, 1);
    fails("int x, ;", Diagnostic::ExpectedIdentifierAfterComma, 1);
    fails("int x[2;", Diagnostic::ExpectedArrayEnd, 1);
    fails("int n; int x[n];", Diagnostic::ArraySizeNotConstant, 1);
    fails("int x[1+1];", Diagnostic::ArraySizeNotConstant, 1);
    fails("int x[2.5];", Diagnostic::ArraySizeNotInteger, 1);
    fails("int x['a'];", Diagnostic::ArraySizeNotInteger, 1);
    assert_eq!(kind_of("int x[2.5];"), ErrorKind::ArraySizeError);
    assert_eq!(check("int x[]; int y[0x10], z;"), Ok(()));
    fails("void f(int) { }", Diagnostic::ExpectedArgumentIdentifier, 1);
    fails("void f(int a,) { }", Diagnostic::ExpectedArgumentAfterComma, 1);
    fails("void f(int a { }", Diagnostic::ExpectedArgumentsEnd, 1);
    fails("void f(int a) ;", Diagnostic::ExpectedFunctionBody, 1);
    fails("void f() { int g() { } }", Diagnostic::ExpectedDeclarationEnd, 1);
    fails("x = 1;", Diagnostic::ExpectedDeclaration, 1);
    fails("int x;\n\n}", Diagnostic::ExpectedDeclaration, 3);
    assert_eq!(check("int* f() { }"), Ok(()));
}

#[test]
fn errors_in_statements() {
    let body = |s: &str| format!("int i; struct S {{ int a; }}; struct S s;\nint f() {{\n{}\n}}", s);
    let bad = |s: &str, d: Diagnostic| fails(&body(s), d, 3);
    bad("if i) ;", Diagnostic::ExpectedIfOpen);
    bad("if () ;", Diagnostic::ExpectedIfCondition);
    bad("if (i ;", Diagnostic::ExpectedIfClose);
    bad("if (s) ;", Diagnostic::StructTested);
    bad("while i) ;", Diagnostic::ExpectedWhileOpen);
    bad("while () ;", Diagnostic::ExpectedWhileCondition);
    bad("while (i ;", Diagnostic::ExpectedWhileClose);
    bad("while (s) ;", Diagnostic::StructTested);
    bad("for i;;) ;", Diagnostic::ExpectedForOpen);
    bad("for (i ) ;", Diagnostic::ExpectedForFirstSemicolon);
    bad("for (i; i ) ;", Diagnostic::ExpectedForSecondSemicolon);
    bad("for (i; i; i ;", Diagnostic::ExpectedForClose);
    bad("for (; s; ) ;", Diagnostic::StructTested);
    bad("break }", Diagnostic::ExpectedSemicolonAfterBreak);
    bad("return 1 }", Diagnostic::ExpectedSemicolonAfterReturn);
    bad("return;", Diagnostic::MissingReturnValue);
    bad("return s;", Diagnostic::IncompatibleTypes);
    bad("i = 1 }", Diagnostic::ExpectedSemicolonAfterExpression);
    fails(&body("if (i)"), Diagnostic::ExpectedIfStatement, 4);
    fails(&body("if (i) ; else"), Diagnostic::ExpectedElseStatement, 4);
    fails(&body("while (i)"), Diagnostic::ExpectedWhileStatement, 4);
    fails(&body("for (;;)"), Diagnostic::ExpectedForStatement, 4);
    fails("void f() { int x; ", Diagnostic::ExpectedBlockEnd, 1);
    fails("void f() {\n return 1; }", Diagnostic::VoidReturnsValue, 2);
    assert_eq!(kind_of("void f() { return 1; }"), ErrorKind::TypeError);
    assert_eq!(check(&body("for (;;) break; ; {} { ; } if (i) ; else ; return 'a';")), Ok(()));
    assert_eq!(check("void f() { return; }"), Ok(()));
    assert_eq!(check("struct S { int a; }; struct S f(struct S s) { return s; }"), Ok(()));
}

#[test]
fn error_token_ends_the_analysis() {
    fails("int x;\nint y; #", Diagnostic::InvalidToken, 2);
    assert_eq!(kind_of("int x = 0x;"), ErrorKind::LexError);
    fails("int x; \"abc", Diagnostic::InvalidToken, 1);
}

#[test]
fn analysis_is_repeatable() {
    let (mut analyser, r) = analyse("int x; void f() { x = 1; }");
    assert_eq!(r, Ok(()));
    assert_eq!(analyser.analyse_syntax(), Ok(()));
    assert_eq!(analyser.symbol_tables.len(), 1);
    assert_eq!(analyser.symbol_tables[0].symbols.len(), 11);
}

#[test]
fn positions_and_lines() {
    let tokens = get_tokens(String::from("int x;\nint y"));
    let a = SyntaxAnalyser::new(tokens);
    assert_eq!(a.tag(0), 7);
    assert_eq!(a.tag(1), 0);
    assert_eq!(a.tag(2), 33);
    assert_eq!(a.tag(5), 16);
    assert_eq!(a.tag(500), 16);
    assert_eq!(a.line(0), 1);
    assert_eq!(a.line(4), 2);
    assert_eq!(a.line(500), 2);
    assert_eq!(a.name(1), "x");
    assert_eq!(a.error(3, Diagnostic::ExpectedIdentifier).line, 2);
    assert_eq!(SyntaxAnalyser::new(Vec::new()).line(0), 0);
}
