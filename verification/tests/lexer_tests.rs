use atomc::lexer::{get_next_token, get_tokens, KeywordType, Lexer, Token, TokenType};

fn kinds(source: &str) -> Vec<String> {
    get_tokens(String::from(source))
        .iter()
        .map(|t| format!("{:?}", t.token_type))
        .collect()
}

fn lines(source: &str) -> Vec<usize> {
    get_tokens(String::from(source)).iter().map(|t| t.line).collect()
}

#[test]
fn lexer_from_string() {
    let contents = String::from("int main()\n{\n  int x;\n  x = 08.5e1;\n  return x;\n}\n");
    let mut lexer = Lexer::from_string(contents);
    let token_vec = lexer.get_tokens();
    for elem in &token_vec {
        println!("{:?}", elem);
    }
    assert_eq!(token_vec.len(), 17);
    assert!(matches!(token_vec[16].token_type, TokenType::End));
    assert_eq!(token_vec[16].line, 7);
}

#[test]
fn empty_source_is_one_end_token() {
    let tokens = get_tokens(String::from(""));
    assert_eq!(tokens.len(), 1);
    assert!(matches!(tokens[0].token_type, TokenType::End));
    assert_eq!(tokens[0].line, 1);
    let tokens = get_tokens(String::from("\0"));
    assert_eq!(tokens.len(), 1);
    assert!(matches!(tokens[0].token_type, TokenType::End));
}

#[test]
fn from_string_appends_the_sentinel() {
    let lexer = Lexer::from_string(String::from("ab"));
    assert_eq!(lexer.text, vec!['a', 'b', '\0']);
    assert_eq!(lexer.text_idx, 0);
    assert_eq!(lexer.current_line, 1);
}

#[test]
fn arithmetic_program_tokens() {
    let source = "int main(){ put_i(3+4*2); return 0; }";
    let tokens = get_tokens(String::from(source));
    assert_eq!(tokens.len(), 19);
    assert_eq!(
        kinds(source),
        vec![
            "Int",
            "Id(\"main\")",
            "Lpar",
            "Rpar",
            "Lacc",
            "Id(\"put_i\")",
            "Lpar",
            "CtInt(3)",
            "Add",
            "CtInt(4)",
            "Mul",
            "CtInt(2)",
            "Rpar",
            "Semicolon",
            "Return",
            "CtInt(0)",
            "Semicolon",
            "Racc",
            "End"
        ]
    );
}

#[test]
fn keywords_and_identifiers() {
    assert_eq!(
        kinds("break char double else for if int return struct void while"),
        vec![
            "Break", "Char", "Double", "Else", "For", "If", "Int", "Return", "Struct", "Void",
            "While", "End"
        ]
    );
    assert_eq!(
        kinds("breaks _x1 If whileTrue"),
        vec!["Id(\"breaks\")", "Id(\"_x1\")", "Id(\"If\")", "Id(\"whileTrue\")", "End"]
    );
    assert_eq!(KeywordType::from_word(&String::from("for")), Some(KeywordType::For));
    assert_eq!(KeywordType::from_word(&String::from("fort")), None);
}

#[test]
fn operators_and_delimiters() {
    assert_eq!(
        kinds("+ - * / . && || ! != == = < <= > >= , ; ( ) [ ] { }"),
        vec![
            "Add",
            "Sub",
            "Mul",
            "Div",
            "Dot",
            "And",
            "Or",
            "Not",
            "NotEq",
            "Equal",
            "Assign",
            "Less",
            "LessEq",
            "Greater",
            "GreaterEq",
            "Comma",
            "Semicolon",
            "Lpar",
            "Rpar",
            "Lbracket",
            "Rbracket",
            "Lacc",
            "Racc",
            "End"
        ]
    );
    assert_eq!(kinds("a<=b"), vec!["Id(\"a\")", "LessEq", "Id(\"b\")", "End"]);
    assert_eq!(kinds("!x"), vec!["Not", "Id(\"x\")", "End"]);
    assert_eq!(kinds("a & b"), vec!["Id(\"a\")", "Error"]);
    assert_eq!(kinds("a | b"), vec!["Id(\"a\")", "Error"]);
}

#[test]
fn integer_literals() {
    assert_eq!(kinds("0"), vec!["CtInt(0)", "End"]);
    assert_eq!(kinds("0;"), vec!["CtInt(0)", "Semicolon", "End"]);
    assert_eq!(kinds("123"), vec!["CtInt(123)", "End"]);
    assert_eq!(kinds("017"), vec!["CtInt(15)", "End"]);
    assert_eq!(kinds("0x1F"), vec!["CtInt(31)", "End"]);
    assert_eq!(kinds("0xff"), vec!["CtInt(255)", "End"]);
    assert_eq!(kinds("9223372036854775807"), vec!["CtInt(9223372036854775807)", "End"]);
    assert_eq!(kinds("9223372036854775808"), vec!["CtInt(-1)", "End"]);
    assert_eq!(kinds("0xffffffffffffffffff"), vec!["CtInt(0)", "End"]);
    assert_eq!(kinds("07777777777777777777777777"), vec!["CtInt(0)", "End"]);
    assert_eq!(kinds("0x"), vec!["Error"]);
    assert_eq!(kinds("089"), vec!["Error"]);
    assert_eq!(kinds("0X1"), vec!["CtInt(0)", "Id(\"X1\")", "End"]);
}

#[test]
fn real_literals_keep_their_text() {
    assert_eq!(kinds("3.14"), vec!["CtReal(\"3.14\")", "End"]);
    assert_eq!(kinds("1e5"), vec!["CtReal(\"1e5\")", "End"]);
    assert_eq!(kinds("1E-5"), vec!["CtReal(\"1E-5\")", "End"]);
    assert_eq!(kinds("2.5e+10"), vec!["CtReal(\"2.5e+10\")", "End"]);
    assert_eq!(kinds("089.5"), vec!["CtReal(\"089.5\")", "End"]);
    assert_eq!(kinds("0.5"), vec!["CtReal(\"0.5\")", "End"]);
    assert_eq!(kinds("0e1"), vec!["CtReal(\"0e1\")", "End"]);
    assert_eq!(kinds("1."), vec!["Error"]);
    assert_eq!(kinds("1.e5"), vec!["Error"]);
    assert_eq!(kinds("1e"), vec!["Error"]);
    assert_eq!(kinds("1e+"), vec!["Error"]);
    let tokens = get_tokens(String::from("10.5 3.88"));
    let a: f32 = tokens[0].token_type.get_double().parse().unwrap();
    let b: f32 = tokens[1].token_type.get_double().parse().unwrap();
    assert_eq!(a, 10.5f32);
    assert_eq!(b, 3.88f32);
}

#[test]
fn character_literals() {
    assert_eq!(kinds("'a'"), vec!["CtChar('a')", "End"]);
    assert_eq!(kinds("'\\n'"), vec!["CtChar('\\n')", "End"]);
    assert_eq!(kinds("'\\0'"), vec!["CtChar('\\0')", "End"]);
    assert_eq!(kinds("'\\\\'"), vec!["CtChar('\\\\')", "End"]);
    assert_eq!(kinds("'\\''"), vec!["CtChar('\\'')", "End"]);
    assert_eq!(kinds("'\\?'"), vec!["CtChar('?')", "End"]);
    let escapes = get_tokens(String::from("'\\a' '\\b' '\\t' '\\v' '\\f' '\\r' '\\\"'"));
    let values: Vec<char> = escapes.iter().map(|t| t.token_type.get_char()).collect();
    assert_eq!(values, vec!['\x07', '\x08', '\t', '\x0B', '\x0C', '\r', '"', '\0']);
    assert_eq!(kinds("'ab'"), vec!["Error"]);
    assert_eq!(kinds("'\\q'"), vec!["Error"]);
    assert_eq!(kinds("'a"), vec!["Error"]);
    assert_eq!(kinds("'"), vec!["Error"]);
}

#[test]
fn string_literals() {
    assert_eq!(kinds("\"\""), vec!["CtString(\"\")", "End"]);
    assert_eq!(kinds("\"hello\""), vec!["CtString(\"hello\")", "End"]);
    assert_eq!(kinds("\"a\\tb\\n\""), vec!["CtString(\"a\\tb\\n\")", "End"]);
    assert_eq!(kinds("\"say \\\"hi\\\"\""), vec!["CtString(\"say \\\"hi\\\"\")", "End"]);
    assert_eq!(kinds("\"a\nb\""), vec!["Error"]);
    assert_eq!(kinds("\"abc"), vec!["Error"]);
    assert_eq!(kinds("\"a\\qb\""), vec!["Error"]);
    let tokens = get_tokens(String::from("\"x\\0y\""));
    assert_eq!(tokens[0].token_type.get_string(), String::from("x\0y"));
}

#[test]
fn comments_are_passed_over() {
    assert_eq!(kinds("a // b c\nd"), vec!["Id(\"a\")", "Id(\"d\")", "End"]);
    assert_eq!(kinds("a // to the end"), vec!["Id(\"a\")", "End"]);
    assert_eq!(kinds("a /* b */ c"), vec!["Id(\"a\")", "Id(\"c\")", "End"]);
    assert_eq!(kinds("a /* b **/ c"), vec!["Id(\"a\")", "Id(\"c\")", "End"]);
    assert_eq!(
        kinds("a /* /* b */ c */"),
        vec!["Id(\"a\")", "Id(\"c\")", "Mul", "Div", "End"]
    );
    assert_eq!(kinds("a /* never closed"), vec!["Id(\"a\")", "Error"]);
    assert_eq!(kinds("a / b"), vec!["Id(\"a\")", "Div", "Id(\"b\")", "End"]);
}

#[test]
fn lines_are_counted_and_never_decrease() {
    assert_eq!(lines("a\nb\n\nc"), vec![1, 2, 4, 4]);
    assert_eq!(lines("a /* x\ny\nz */ b // c\nd"), vec![1, 3, 4, 4]);
    assert_eq!(lines("\n\n\"abc"), vec![3]);
    let source = "int x;\n// one\n/* two\nthree */ x = 1;\n";
    let ls = lines(source);
    let max_line = 1 + source.matches('\n').count();
    for w in ls.windows(2) {
        assert!(w[0] <= w[1]);
    }
    for l in &ls {
        assert!(1 <= *l && *l <= max_line);
    }
}

#[test]
fn stray_character_is_an_error_at_its_line() {
    let tokens = get_tokens(String::from("a\n#"));
    assert_eq!(tokens.len(), 2);
    assert!(matches!(tokens[1].token_type, TokenType::Error));
    assert_eq!(tokens[1].line, 2);
    assert_eq!(kinds("a @ b"), vec!["Id(\"a\")", "Error"]);
    assert_eq!(kinds("caf\u{e9}"), vec!["Id(\"caf\")", "Error"]);
}

#[test]
fn stream_ends_with_exactly_one_end() {
    for source in ["", "int x;", "a b c", "x = y + 1; // done", "struct S { int a; };"] {
        let tokens = get_tokens(String::from(source));
        let ends = tokens.iter().filter(|t| matches!(t.token_type, TokenType::End)).count();
        let errors = tokens.iter().filter(|t| matches!(t.token_type, TokenType::Error)).count();
        assert_eq!(ends, 1);
        assert_eq!(errors, 0);
        assert!(matches!(tokens.last().unwrap().token_type, TokenType::End));
    }
}

#[test]
fn next_token_moves_the_cursor() {
    let text: Vec<char> = "ab  <= 7".chars().collect();
    let mut idx = 0usize;
    let mut line = 1usize;
    let t: Token = get_next_token(&text, &mut idx, &mut line);
    assert_eq!(t.token_type.get_id(), "ab");
    assert_eq!(idx, 2);
    let t = get_next_token(&text, &mut idx, &mut line);
    assert!(matches!(t.token_type, TokenType::LessEq));
    assert_eq!(idx, 6);
    let t = get_next_token(&text, &mut idx, &mut line);
    assert_eq!(t.token_type.get_int(), 7);
    assert_eq!(idx, 8);
    let t = get_next_token(&text, &mut idx, &mut line);
    assert!(matches!(t.token_type, TokenType::End));
    assert_eq!(idx, 8);
    let t = get_next_token(&text, &mut idx, &mut line);
    assert!(matches!(t.token_type, TokenType::End));
    assert_eq!(line, 1);
}

#[test]
fn error_leaves_the_cursor_at_the_offending_character() {
    let text: Vec<char> = "0x;".chars().collect();
    let mut idx = 0usize;
    let mut line = 1usize;
    let t = get_next_token(&text, &mut idx, &mut line);
    assert!(matches!(t.token_type, TokenType::Error));
    assert_eq!(idx, 2);
    let mut lexer = Lexer::from_string(String::from("a $ b"));
    let tokens = lexer.get_tokens();
    assert_eq!(tokens.len(), 2);
    assert_eq!(lexer.text_idx, 2);
}

#[test]
fn tags_tell_the_kinds_apart() {
    assert_eq!(TokenType::Id(String::from("a")).discriminant_value(), 0);
    assert_eq!(
        TokenType::Id(String::from("a")).discriminant_value(),
        TokenType::Id(String::new()).discriminant_value()
    );
    assert_eq!(TokenType::CtInt(5).discriminant_value(), TokenType::CtInt(0).discriminant_value());
    assert_eq!(TokenType::End.discriminant_value(), 16);
    assert_eq!(TokenType::Error.discriminant_value(), 40);
    assert_ne!(TokenType::Lpar.discriminant_value(), TokenType::Rpar.discriminant_value());
    assert_eq!(TokenType::CtString(String::from("s")).get_id(), "");
    assert_eq!(TokenType::Id(String::from("s")).get_int(), 0);
}
