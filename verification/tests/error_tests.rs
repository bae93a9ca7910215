use atomc::asdr::SyntaxAnalyser;
use atomc::error::{decimal, CompileError, Diagnostic, ErrorKind};
use atomc::lexer::{chars_of, get_tokens, Lexer};

#[test]
fn report_has_the_line_and_the_words() {
    let e = CompileError::new(Diagnostic::IncompatibleTypes, 12);
    assert_eq!(e.report(), "Error at line 12: incompatible types");
    assert_eq!(e.kind(), ErrorKind::TypeError);
    let e = CompileError { diagnostic: Diagnostic::ExpectedIdentifier, line: 0 };
    assert_eq!(e.report(), "Error at line 0: expected identifier");
    assert_eq!(Diagnostic::InvalidToken.message(), "invalid token");
    assert_eq!(
        Diagnostic::ExpectedBlockEnd.message(),
        "expected } at the end of the statement"
    );
}

#[test]
fn report_of_a_failed_analysis() {
    let tokens = get_tokens(String::from("int x;\nint f() {\n  return y;\n}\n"));
    let mut analyser = SyntaxAnalyser::new(tokens);
    let e = analyser.analyse_syntax().unwrap_err();
    assert_eq!(e.kind(), ErrorKind::UndefinedSymbol);
    assert_eq!(e.report(), "Error at line 3: undefined symbol");
}

#[test]
fn numbers_in_decimal() {
    assert_eq!(decimal(0), "0");
    assert_eq!(decimal(7), "7");
    assert_eq!(decimal(10), "10");
    assert_eq!(decimal(1234567890), "1234567890");
    assert_eq!(decimal(usize::MAX), usize::MAX.to_string());
}

#[test]
fn every_kind_of_error_has_a_diagnostic() {
    let kinds = [
        (Diagnostic::InvalidToken, ErrorKind::LexError),
        (Diagnostic::ExpectedDeclaration, ErrorKind::SyntaxError),
        (Diagnostic::ExpectedCallClose, ErrorKind::SyntaxError),
        (Diagnostic::UndefinedSymbol, ErrorKind::UndefinedSymbol),
        (Diagnostic::UndefinedStruct, ErrorKind::UndefinedSymbol),
        (Diagnostic::SymbolAlreadyDefined, ErrorKind::DuplicateSymbol),
        (Diagnostic::FunctionBelowGlobalScope, ErrorKind::ScopeError),
        (Diagnostic::NotAStruct, ErrorKind::ScopeError),
        (Diagnostic::StructTested, ErrorKind::TypeError),
        (Diagnostic::ArrayInArithmetic, ErrorKind::TypeError),
        (Diagnostic::NotAFunction, ErrorKind::TypeError),
        (Diagnostic::ParentNotAStruct, ErrorKind::MemberError),
        (Diagnostic::NoSuchMember, ErrorKind::MemberError),
        (Diagnostic::TooManyArguments, ErrorKind::ArityError),
        (Diagnostic::TooFewArguments, ErrorKind::ArityError),
        (Diagnostic::ArraySizeNotConstant, ErrorKind::ArraySizeError),
        (Diagnostic::ArraySizeNotInteger, ErrorKind::ArraySizeError),
    ];
    for (d, k) in kinds {
        assert_eq!(d.kind(), k);
        assert!(!d.message().is_empty());
    }
}

#[test]
fn characters_of_a_string() {
    assert_eq!(chars_of(&String::from("a\u{e9}b")), vec!['a', '\u{e9}', 'b']);
    assert!(chars_of(&String::new()).is_empty());
    let long: String = std::iter::repeat('x').take(100_000).collect();
    assert_eq!(chars_of(&long).len(), 100_000);
}

#[test]
fn cursor_behind_the_stream() {
    let mut lexer = Lexer::from_string(String::from("int x;\n// end\n"));
    let tokens = lexer.get_tokens();
    assert_eq!(tokens.len(), 4);
    assert_eq!(lexer.text_idx, lexer.text.len() - 1);
    assert_eq!(lexer.current_line, 3);
    let again = lexer.get_tokens();
    assert_eq!(again.len(), 1);
    assert_eq!(again[0].line, 3);
}
