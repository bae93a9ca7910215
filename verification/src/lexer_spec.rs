//! The mathematical description of tokenisation: what the token stream of a
//! character buffer is, stated over sequences of characters.

use crate::lexer::keyword_of;
use vstd::prelude::*;

verus! {

/// The kind of a token, with text payloads as character sequences.
pub enum TokenTypeView {
    Id(Seq<char>),
    Break,
    Char,
    Double,
    Else,
    For,
    If,
    Int,
    Return,
    Struct,
    Void,
    While,
    CtReal(Seq<char>),
    CtInt(int),
    CtChar(char),
    CtString(Seq<char>),
    End,
    Div,
    Add,
    Sub,
    Mul,
    Dot,
    And,
    Or,
    Not,
    NotEq,
    Equal,
    Assign,
    Less,
    LessEq,
    Greater,
    GreaterEq,
    Comma,
    Semicolon,
    Lpar,
    Rpar,
    Lbracket,
    Rbracket,
    Lacc,
    Racc,
    Error,
}

/// A token: its kind and the line on which it was emitted.
pub struct TokenView {
    pub kind: TokenTypeView,
    pub line: int,
}

/// The classes of characters of which maximal runs are scanned.
#[derive(Clone, Copy, PartialEq, Eq, Structural)]
pub enum CharClass {
    /// Letters, digits and the underscore: the body of an identifier.
    Ident,
    /// `0` to `9`.
    Digit,
    /// `0` to `9`, `a` to `f`, `A` to `F`.
    Hex,
}

/// The outcome of scanning one token: its kind, the cursor behind it and
/// the line counter at the moment of emission.
pub struct Scan {
    pub kind: TokenTypeView,
    pub next: int,
    pub line: int,
}

/// The character under the cursor; behind the end of the buffer it is the
/// sentinel `NUL`.
pub open spec fn char_at(text: Seq<char>, pos: int) -> char {
    if 0 <= pos < text.len() {
        text[pos]
    } else {
        '\0'
    }
}

pub open spec fn is_space(c: char) -> bool {
    c == ' ' || c == '\r' || c == '\n' || c == '\t'
}

pub open spec fn is_letter(c: char) -> bool {
    ('a' <= c && c <= 'z') || ('A' <= c && c <= 'Z') || c == '_'
}

pub open spec fn is_digit(c: char) -> bool {
    '0' <= c && c <= '9'
}

pub open spec fn is_octal_digit(c: char) -> bool {
    '0' <= c && c <= '7'
}

pub open spec fn is_hex_digit(c: char) -> bool {
    is_digit(c) || ('a' <= c && c <= 'f') || ('A' <= c && c <= 'F')
}

pub open spec fn in_class(class: CharClass, c: char) -> bool {
    match class {
        CharClass::Ident => is_letter(c) || is_digit(c),
        CharClass::Digit => is_digit(c),
        CharClass::Hex => is_hex_digit(c),
    }
}

/// The value of one digit in any radix up to sixteen.
pub open spec fn digit_value(c: char) -> int {
    if is_digit(c) {
        c as int - '0' as int
    } else if 'a' <= c && c <= 'f' {
        c as int - 'a' as int + 10
    } else if 'A' <= c && c <= 'F' {
        c as int - 'A' as int + 10
    } else {
        0
    }
}

/// The number that a run of digits denotes in the given radix.
pub open spec fn digits_value(digits: Seq<char>, radix: int) -> int
    decreases digits.len(),
{
    if digits.len() == 0 {
        0
    } else {
        digits_value(digits.drop_last(), radix) * radix + digit_value(digits.last())
    }
}

/// The value of an integer literal: the number its digits denote where a
/// signed 64-bit integer holds it, else the fallback.
pub open spec fn int_literal(digits: Seq<char>, radix: int, fallback: int) -> int {
    let v = digits_value(digits, radix);
    if v <= i64::MAX {
        v
    } else {
        fallback
    }
}

/// The end of the maximal run of characters of one class that starts at `pos`.
pub open spec fn run_end(text: Seq<char>, pos: int, class: CharClass) -> int
    decreases text.len() - pos,
{
    if 0 <= pos < text.len() && in_class(class, text[pos]) {
        run_end(text, pos + 1, class)
    } else {
        pos
    }
}

/// The line counter after one more newline. It stops at the largest line
/// number that the machine can hold.
pub open spec fn bump_line(line: int) -> int {
    if line < usize::MAX {
        line + 1
    } else {
        line
    }
}

/// The character that an escape sequence denotes, by the character behind
/// the backslash.
pub open spec fn escape_char(c: char) -> Option<char> {
    if c == 'a' {
        Some('\x07')
    } else if c == 'b' {
        Some('\x08')
    } else if c == 't' {
        Some('\x09')
    } else if c == 'n' {
        Some('\x0A')
    } else if c == 'v' {
        Some('\x0B')
    } else if c == 'f' {
        Some('\x0C')
    } else if c == 'r' {
        Some('\x0D')
    } else if c == '0' {
        Some('\0')
    } else if c == '?' || c == '"' || c == '\'' || c == '\\' {
        Some(c)
    } else {
        None
    }
}

/// The keyword that a word is, or the identifier of that name.
pub open spec fn word_kind(word: Seq<char>) -> TokenTypeView {
    match keyword_of(word) {
        Some(k) => k.token_view(),
        None => TokenTypeView::Id(word),
    }
}

/// The kind of a literal and the cursor behind it.
pub struct Literal {
    pub kind: TokenTypeView,
    pub next: int,
}

/// The exponent of a real literal, whose text starts at `start`; `pos` is
/// behind the `e` or `E`.
pub open spec fn scan_exponent(text: Seq<char>, start: int, pos: int) -> Literal {
    let c = char_at(text, pos);
    let first = if c == '+' || c == '-' {
        pos + 1
    } else {
        pos
    };
    let end = run_end(text, first, CharClass::Digit);
    if end == first {
        Literal { kind: TokenTypeView::Error, next: first }
    } else {
        Literal { kind: TokenTypeView::CtReal(text.subrange(start, end)), next: end }
    }
}

/// The fraction of a real literal, whose text starts at `start`; `pos` is
/// behind the `.`.
pub open spec fn scan_fraction(text: Seq<char>, start: int, pos: int) -> Literal {
    let end = run_end(text, pos, CharClass::Digit);
    let c = char_at(text, end);
    if end == pos {
        Literal { kind: TokenTypeView::Error, next: pos }
    } else if c == 'e' || c == 'E' {
        scan_exponent(text, start, end + 1)
    } else {
        Literal { kind: TokenTypeView::CtReal(text.subrange(start, end)), next: end }
    }
}

/// Whether every character of the range is an octal digit.
pub open spec fn all_octal(text: Seq<char>, from: int, to: int) -> bool {
    forall|k: int| from <= k < to ==> is_octal_digit(#[trigger] char_at(text, k))
}

/// A numeric literal that starts at `pos` with a digit.
///
/// - `0x` and hexadecimal digits: a hexadecimal integer; without a digit, an error.
/// - `0` and octal digits: an octal integer; `0` alone is zero.
/// - `1` to `9` and digits: a decimal integer.
/// - Any run of digits followed by a fraction or an exponent: a real, kept as its text.
/// - A run of digits that starts with `0`, holds `8` or `9` and does not become a real: an error.
pub open spec fn scan_number(text: Seq<char>, pos: int) -> Literal {
    if char_at(text, pos) == '0' && char_at(text, pos + 1) == 'x' {
        let end = run_end(text, pos + 2, CharClass::Hex);
        if end == pos + 2 {
            Literal { kind: TokenTypeView::Error, next: end }
        } else {
            Literal {
                kind: TokenTypeView::CtInt(int_literal(text.subrange(pos + 2, end), 16, 0)),
                next: end,
            }
        }
    } else {
        let end = run_end(text, pos + 1, CharClass::Digit);
        let c = char_at(text, end);
        if c == '.' {
            scan_fraction(text, pos, end + 1)
        } else if c == 'e' || c == 'E' {
            scan_exponent(text, pos, end + 1)
        } else if char_at(text, pos) != '0' {
            Literal {
                kind: TokenTypeView::CtInt(int_literal(text.subrange(pos, end), 10, -1)),
                next: end,
            }
        } else if all_octal(text, pos + 1, end) {
            Literal {
                kind: TokenTypeView::CtInt(int_literal(text.subrange(pos + 1, end), 8, 0)),
                next: end,
            }
        } else {
            Literal { kind: TokenTypeView::Error, next: end }
        }
    }
}

/// A character literal; `pos` is behind the opening quote.
pub open spec fn scan_char(text: Seq<char>, pos: int) -> Literal {
    let c = char_at(text, pos);
    if c == '\0' {
        Literal { kind: TokenTypeView::Error, next: pos }
    } else if c == '\\' {
        match escape_char(char_at(text, pos + 1)) {
            Some(e) => if char_at(text, pos + 2) == '\'' {
                Literal { kind: TokenTypeView::CtChar(e), next: pos + 3 }
            } else {
                Literal { kind: TokenTypeView::Error, next: pos + 2 }
            },
            None => Literal { kind: TokenTypeView::Error, next: pos + 1 },
        }
    } else if char_at(text, pos + 1) == '\'' {
        Literal { kind: TokenTypeView::CtChar(c), next: pos + 2 }
    } else {
        Literal { kind: TokenTypeView::Error, next: pos + 1 }
    }
}

/// The rest of a string literal from `pos`, with the characters gathered so
/// far. A newline or the end of the input before the closing quote, or an
/// unknown escape sequence, is an error.
pub open spec fn scan_string(text: Seq<char>, pos: int, acc: Seq<char>) -> Literal
    decreases text.len() - pos,
{
    let c = char_at(text, pos);
    if c == '"' {
        Literal { kind: TokenTypeView::CtString(acc), next: pos + 1 }
    } else if c == '\n' || c == '\0' {
        Literal { kind: TokenTypeView::Error, next: pos }
    } else if c == '\\' {
        match escape_char(char_at(text, pos + 1)) {
            Some(e) => scan_string(text, pos + 2, acc.push(e)),
            None => Literal { kind: TokenTypeView::Error, next: pos + 1 },
        }
    } else {
        scan_string(text, pos + 1, acc.push(c))
    }
}

/// Whether a character alone is an operator or a delimiter.
pub open spec fn single_kind(c: char) -> Option<TokenTypeView> {
    if c == '+' {
        Some(TokenTypeView::Add)
    } else if c == '-' {
        Some(TokenTypeView::Sub)
    } else if c == '*' {
        Some(TokenTypeView::Mul)
    } else if c == '.' {
        Some(TokenTypeView::Dot)
    } else if c == ',' {
        Some(TokenTypeView::Comma)
    } else if c == ';' {
        Some(TokenTypeView::Semicolon)
    } else if c == '(' {
        Some(TokenTypeView::Lpar)
    } else if c == ')' {
        Some(TokenTypeView::Rpar)
    } else if c == '[' {
        Some(TokenTypeView::Lbracket)
    } else if c == ']' {
        Some(TokenTypeView::Rbracket)
    } else if c == '{' {
        Some(TokenTypeView::Lacc)
    } else if c == '}' {
        Some(TokenTypeView::Racc)
    } else {
        None
    }
}

/// An operator of one or two characters that starts at `pos` with `&`, `|`,
/// `!`, `=`, `<` or `>`.
pub open spec fn scan_operator(text: Seq<char>, pos: int) -> Literal {
    let c = char_at(text, pos);
    let d = char_at(text, pos + 1);
    if c == '&' {
        if d == '&' {
            Literal { kind: TokenTypeView::And, next: pos + 2 }
        } else {
            Literal { kind: TokenTypeView::Error, next: pos + 1 }
        }
    } else if c == '|' {
        if d == '|' {
            Literal { kind: TokenTypeView::Or, next: pos + 2 }
        } else {
            Literal { kind: TokenTypeView::Error, next: pos + 1 }
        }
    } else if d == '=' {
        Literal {
            kind: if c == '!' {
                TokenTypeView::NotEq
            } else if c == '=' {
                TokenTypeView::Equal
            } else if c == '<' {
                TokenTypeView::LessEq
            } else {
                TokenTypeView::GreaterEq
            },
            next: pos + 2,
        }
    } else {
        Literal {
            kind: if c == '!' {
                TokenTypeView::Not
            } else if c == '=' {
                TokenTypeView::Assign
            } else if c == '<' {
                TokenTypeView::Less
            } else {
                TokenTypeView::Greater
            },
            next: pos + 1,
        }
    }
}

pub open spec fn is_operator_start(c: char) -> bool {
    c == '&' || c == '|' || c == '!' || c == '=' || c == '<' || c == '>'
}

/// The token that starts at `pos`, where the character there is neither
/// white space nor the start of a comment.
pub open spec fn scan_plain(text: Seq<char>, pos: int) -> Literal {
    let c = char_at(text, pos);
    if is_letter(c) {
        let end = run_end(text, pos + 1, CharClass::Ident);
        Literal { kind: word_kind(text.subrange(pos, end)), next: end }
    } else if c == '\0' {
        Literal { kind: TokenTypeView::End, next: pos }
    } else if single_kind(c) is Some {
        Literal { kind: single_kind(c)->0, next: pos + 1 }
    } else if is_operator_start(c) {
        scan_operator(text, pos)
    } else if c == '/' {
        Literal { kind: TokenTypeView::Div, next: pos + 1 }
    } else if is_digit(c) {
        scan_number(text, pos)
    } else if c == '\'' {
        scan_char(text, pos + 1)
    } else if c == '"' {
        scan_string(text, pos + 1, Seq::empty())
    } else {
        Literal { kind: TokenTypeView::Error, next: pos }
    }
}

/// What the scanner is passing over before the next token.
#[derive(Clone, Copy, PartialEq, Eq, Structural)]
pub enum SkipMode {
    /// White space between tokens.
    Code,
    /// A comment from `//` to the end of the line.
    LineComment,
    /// A comment from `/*` to the first `*/`.
    BlockComment,
}

pub open spec fn mode_rank(mode: SkipMode) -> int {
    match mode {
        SkipMode::Code => 0,
        _ => 1,
    }
}

/// The next token of `text` from the cursor `pos`, with the line counter at
/// `line`, while the scanner is in `mode`: white space and comments are
/// passed over, each newline counts a line, a line comment ends before a
/// newline, a carriage return or the end of the input, and a block comment
/// that the input ends in is an error.
pub open spec fn scan_from(text: Seq<char>, pos: int, line: int, mode: SkipMode) -> Scan
    decreases text.len() - pos, mode_rank(mode),
{
    let c = char_at(text, pos);
    let d = char_at(text, pos + 1);
    match mode {
        SkipMode::LineComment => if c == '\n' || c == '\r' || c == '\0' {
            scan_from(text, pos, line, SkipMode::Code)
        } else {
            scan_from(text, pos + 1, line, SkipMode::LineComment)
        },
        SkipMode::BlockComment => if c == '\0' {
            Scan { kind: TokenTypeView::Error, next: pos, line }
        } else if c == '*' && d == '/' {
            scan_from(text, pos + 2, line, SkipMode::Code)
        } else if c == '\n' {
            scan_from(text, pos + 1, bump_line(line), SkipMode::BlockComment)
        } else {
            scan_from(text, pos + 1, line, SkipMode::BlockComment)
        },
        SkipMode::Code => if c == '\n' {
            scan_from(text, pos + 1, bump_line(line), SkipMode::Code)
        } else if is_space(c) {
            scan_from(text, pos + 1, line, SkipMode::Code)
        } else if c == '/' && d == '/' {
            scan_from(text, pos + 2, line, SkipMode::LineComment)
        } else if c == '/' && d == '*' {
            scan_from(text, pos + 2, line, SkipMode::BlockComment)
        } else {
            let lit = scan_plain(text, pos);
            Scan { kind: lit.kind, next: lit.next, line }
        },
    }
}

/// The next token of `text` from the cursor `pos`, with the line counter at
/// `line`.
pub open spec fn scan_token(text: Seq<char>, pos: int, line: int) -> Scan {
    scan_from(text, pos, line, SkipMode::Code)
}

/// Whether a token of this kind ends the stream.
pub open spec fn is_final(kind: TokenTypeView) -> bool {
    kind is End || kind is Error
}

/// The token stream of `text` from the cursor `pos`: the tokens in order, up
/// to and including the first `End` or `Error`.
pub open spec fn lex_from(text: Seq<char>, pos: int, line: int) -> Seq<TokenView>
    decreases text.len() - pos,
{
    let s = scan_token(text, pos, line);
    let token = TokenView { kind: s.kind, line: s.line };
    if is_final(s.kind) || s.next <= pos || s.next > text.len() {
        seq![token]
    } else {
        seq![token] + lex_from(text, s.next, s.line)
    }
}

/// The scan of the last token of the token stream from the cursor `pos`:
/// where the cursor and the line counter stand behind the stream.
pub open spec fn lex_stop(text: Seq<char>, pos: int, line: int) -> Scan
    decreases text.len() - pos,
{
    let s = scan_token(text, pos, line);
    if is_final(s.kind) || s.next <= pos || s.next > text.len() {
        s
    } else {
        lex_stop(text, s.next, s.line)
    }
}

/// The token stream of a whole buffer, counted from line 1.
pub open spec fn lex(text: Seq<char>) -> Seq<TokenView> {
    lex_from(text, 0, 1)
}

} // verus!
