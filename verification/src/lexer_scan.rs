//! The scanners of the single kinds of token.

use crate::lexer::{KeywordType, TokenType};
use crate::lexer_spec::{
    all_octal, char_at, digit_value, digits_value, escape_char, in_class, int_literal,
    is_digit, is_hex_digit, is_letter, is_octal_digit, is_operator_start, is_space, run_end,
    scan_char, scan_exponent, scan_fraction, scan_number, scan_operator, scan_plain,
    scan_string, single_kind, CharClass, Literal,
};
use vstd::prelude::*;

verus! {

/// The character under the cursor, or `NUL` behind the end of the buffer.
pub fn peek(text: &Vec<char>, pos: usize) -> (c: char)
    ensures
        c == char_at(text@, pos as int),
{
    if pos < text.len() {
        text[pos]
    } else {
        '\0'
    }
}

pub fn is_space_char(c: char) -> (b: bool)
    ensures
        b == is_space(c),
{
    c == ' ' || c == '\r' || c == '\n' || c == '\t'
}

pub fn is_letter_char(c: char) -> (b: bool)
    ensures
        b == is_letter(c),
{
    ('a' <= c && c <= 'z') || ('A' <= c && c <= 'Z') || c == '_'
}

pub fn is_digit_char(c: char) -> (b: bool)
    ensures
        b == is_digit(c),
{
    '0' <= c && c <= '9'
}

pub fn is_hex_digit_char(c: char) -> (b: bool)
    ensures
        b == is_hex_digit(c),
{
    is_digit_char(c) || ('a' <= c && c <= 'f') || ('A' <= c && c <= 'F')
}

/// Whether `c` belongs to the class.
pub fn class_holds(class: CharClass, c: char) -> (b: bool)
    ensures
        b == in_class(class, c),
{
    match class {
        CharClass::Ident => is_letter_char(c) || is_digit_char(c),
        CharClass::Digit => is_digit_char(c),
        CharClass::Hex => is_hex_digit_char(c),
    }
}

/// The value of a digit in any radix up to sixteen; 0 for any other character.
pub fn digit_of(c: char) -> (d: i64)
    ensures
        d == digit_value(c),
        0 <= d < 16,
{
    let code: u32 = c as u32;
    if is_digit_char(c) {
        (code - 48) as i64
    } else if 'a' <= c && c <= 'f' {
        (code - 97 + 10) as i64
    } else if 'A' <= c && c <= 'F' {
        (code - 65 + 10) as i64
    } else {
        0
    }
}

/// A run either ends where it starts or goes on by one character.
pub proof fn lemma_run_end_bounds(text: Seq<char>, pos: int, class: CharClass)
    ensures
        pos <= run_end(text, pos, class),
        pos <= text.len() ==> run_end(text, pos, class) <= text.len(),
        !in_class(class, char_at(text, run_end(text, pos, class))),
        forall|k: int| pos <= k < run_end(text, pos, class) ==> in_class(class, #[trigger] char_at(text, k)),
    decreases text.len() - pos,
{
    if 0 <= pos < text.len() && in_class(class, text[pos]) {
        lemma_run_end_bounds(text, pos + 1, class);
    }
}

/// The end of the maximal run of characters of the class from `pos`.
pub fn scan_run(text: &Vec<char>, pos: usize, class: CharClass) -> (end: usize)
    ensures
        end == run_end(text@, pos as int, class),
        pos <= end,
        pos <= text.len() ==> end <= text.len(),
{
    let mut end: usize = pos;
    proof {
        lemma_run_end_bounds(text@, pos as int, class);
    }
    while end < text.len() && class_holds(class, text[end])
        invariant
            pos <= end,
            run_end(text@, end as int, class) == run_end(text@, pos as int, class),
        decreases text.len() - end,
    {
        end = end + 1;
    }
    end
}

/// The text of the buffer from `start` to `end` as a string.
pub fn text_of(text: &Vec<char>, start: usize, end: usize) -> (s: String)
    requires
        start <= end <= text.len(),
    ensures
        s@ == text@.subrange(start as int, end as int),
{
    let mut s = String::new();
    let mut i: usize = start;
    while i < end
        invariant
            start <= i <= end <= text.len(),
            s@ == text@.subrange(start as int, i as int),
        decreases end - i,
    {
        s.push(text[i]);
        i = i + 1;
        assert(s@ =~= text@.subrange(start as int, i as int));
    }
    s
}

/// Adding a digit never makes the number smaller.
pub proof fn lemma_digits_value_grows(digits: Seq<char>, radix: int)
    requires
        radix >= 1,
    ensures
        digits_value(digits, radix) >= 0,
        digits.len() > 0 ==> digits_value(digits, radix) >= digits_value(
            digits.drop_last(),
            radix,
        ),
    decreases digits.len(),
{
    if digits.len() > 0 {
        lemma_digits_value_grows(digits.drop_last(), radix);
        let v = digits_value(digits.drop_last(), radix);
        assert(v * radix >= v) by (nonlinear_arith)
            requires
                v >= 0,
                radix >= 1,
        ;
    }
}

/// The value of the integer literal whose digits stand from `start` to
/// `end`: the number they denote, or `fallback` where 64 bits do not hold it.
pub fn int_of_digits(text: &Vec<char>, start: usize, end: usize, radix: i64, fallback: i64) -> (v:
    i64)
    requires
        start <= end <= text.len(),
        2 <= radix <= 16,
    ensures
        v == int_literal(text@.subrange(start as int, end as int), radix as int, fallback as int),
{
    let mut acc: i64 = 0;
    let mut over: bool = false;
    let mut i: usize = start;
    while i < end
        invariant
            start <= i <= end <= text.len(),
            2 <= radix <= 16,
            !over ==> 0 <= acc && acc == digits_value(
                text@.subrange(start as int, i as int),
                radix as int,
            ),
            over ==> digits_value(text@.subrange(start as int, i as int), radix as int) > i64::MAX,
        decreases end - i,
    {
        let d = digit_of(text[i]);
        proof {
            let longer = text@.subrange(start as int, i + 1);
            assert(longer.drop_last() =~= text@.subrange(start as int, i as int));
            assert(longer.last() == text@[i as int]);
            lemma_digits_value_grows(longer, radix as int);
        }
        if !over {
            match acc.checked_mul(radix) {
                Some(m) => match m.checked_add(d) {
                    Some(n) => {
                        acc = n;
                    },
                    None => {
                        over = true;
                    },
                },
                None => {
                    over = true;
                },
            }
        }
        i = i + 1;
    }
    if over {
        fallback
    } else {
        acc
    }
}

/// The character that an escape sequence denotes.
pub fn escape_of(c: char) -> (e: Option<char>)
    ensures
        e == escape_char(c),
{
    if c == 'a' {
        Some('\x07')
    } else if c == 'b' {
        Some('\x08')
    } else if c == 't' {
        Some('\x09')
    } else if c == 'n' {
        Some('\x0A')
    } else if c == 'v' {
        Some('\x0B')
    } else if c == 'f' {
        Some('\x0C')
    } else if c == 'r' {
        Some('\x0D')
    } else if c == '0' {
        Some('\0')
    } else if c == '?' || c == '"' || c == '\'' || c == '\\' {
        Some(c)
    } else {
        None
    }
}

/// Whether what a scanner returns is what the description says.
pub open spec fn scanned(result: (TokenType, usize), lit: Literal) -> bool {
    result.0@ == lit.kind && result.1 == lit.next
}

/// The exponent of a real literal; `pos` is behind the `e` or `E`.
pub fn scan_exponent_at(text: &Vec<char>, start: usize, pos: usize) -> (r: (TokenType, usize))
    requires
        start < pos <= text.len(),
    ensures
        scanned(r, scan_exponent(text@, start as int, pos as int)),
        start < r.1 <= text.len(),
{
    let c = peek(text, pos);
    let first: usize = if c == '+' || c == '-' {
        pos + 1
    } else {
        pos
    };
    let end = scan_run(text, first, CharClass::Digit);
    if end == first {
        (TokenType::Error, first)
    } else {
        (TokenType::CtReal(text_of(text, start, end)), end)
    }
}

/// The fraction of a real literal; `pos` is behind the `.`.
pub fn scan_fraction_at(text: &Vec<char>, start: usize, pos: usize) -> (r: (TokenType, usize))
    requires
        start < pos <= text.len(),
    ensures
        scanned(r, scan_fraction(text@, start as int, pos as int)),
        start < r.1 <= text.len(),
{
    let end = scan_run(text, pos, CharClass::Digit);
    let c = peek(text, end);
    if end == pos {
        (TokenType::Error, pos)
    } else if c == 'e' || c == 'E' {
        scan_exponent_at(text, start, end + 1)
    } else {
        (TokenType::CtReal(text_of(text, start, end)), end)
    }
}

/// Whether every character from `from` to `to` is an octal digit.
pub fn check_all_octal(text: &Vec<char>, from: usize, to: usize) -> (b: bool)
    requires
        from <= to <= text.len(),
    ensures
        b == all_octal(text@, from as int, to as int),
{
    let mut i: usize = from;
    while i < to
        invariant
            from <= i <= to <= text.len(),
            all_octal(text@, from as int, i as int),
        decreases to - i,
    {
        let c = text[i];
        if !('0' <= c && c <= '7') {
            assert(!is_octal_digit(char_at(text@, i as int)));
            return false;
        }
        i = i + 1;
    }
    true
}

/// A numeric literal that starts at `pos`.
pub fn scan_number_at(text: &Vec<char>, pos: usize) -> (r: (TokenType, usize))
    requires
        pos < text.len(),
        is_digit(text@[pos as int]),
    ensures
        scanned(r, scan_number(text@, pos as int)),
        pos < r.1 <= text.len(),
{
    if text[pos] == '0' && peek(text, pos + 1) == 'x' {
        let end = scan_run(text, pos + 2, CharClass::Hex);
        if end == pos + 2 {
            (TokenType::Error, end)
        } else {
            (TokenType::CtInt(int_of_digits(text, pos + 2, end, 16, 0)), end)
        }
    } else {
        let end = scan_run(text, pos + 1, CharClass::Digit);
        let c = peek(text, end);
        if c == '.' {
            scan_fraction_at(text, pos, end + 1)
        } else if c == 'e' || c == 'E' {
            scan_exponent_at(text, pos, end + 1)
        } else if text[pos] != '0' {
            (TokenType::CtInt(int_of_digits(text, pos, end, 10, -1)), end)
        } else if check_all_octal(text, pos + 1, end) {
            (TokenType::CtInt(int_of_digits(text, pos + 1, end, 8, 0)), end)
        } else {
            (TokenType::Error, end)
        }
    }
}

/// A character literal; `pos` is behind the opening quote.
pub fn scan_char_at(text: &Vec<char>, pos: usize) -> (r: (TokenType, usize))
    requires
        pos <= text.len(),
    ensures
        scanned(r, scan_char(text@, pos as int)),
        pos <= r.1 <= text.len(),
{
    let c = peek(text, pos);
    if c == '\0' {
        (TokenType::Error, pos)
    } else if c == '\\' {
        match escape_of(peek(text, pos + 1)) {
            Some(e) => if peek(text, pos + 2) == '\'' {
                (TokenType::CtChar(e), pos + 3)
            } else {
                (TokenType::Error, pos + 2)
            },
            None => (TokenType::Error, pos + 1),
        }
    } else if peek(text, pos + 1) == '\'' {
        (TokenType::CtChar(c), pos + 2)
    } else {
        (TokenType::Error, pos + 1)
    }
}

/// A string literal; `pos` is behind the opening quote.
pub fn scan_string_at(text: &Vec<char>, pos: usize) -> (r: (TokenType, usize))
    requires
        pos <= text.len(),
    ensures
        scanned(r, scan_string(text@, pos as int, Seq::empty())),
        pos <= r.1 <= text.len(),
{
    let mut acc = String::new();
    let mut i: usize = pos;
    loop
        invariant
            pos <= i <= text.len(),
            scan_string(text@, i as int, acc@) == scan_string(text@, pos as int, Seq::empty()),
        decreases text.len() - i,
    {
        let c = peek(text, i);
        if c == '"' {
            return (TokenType::CtString(acc), i + 1);
        } else if c == '\n' || c == '\0' {
            return (TokenType::Error, i);
        } else if c == '\\' {
            match escape_of(peek(text, i + 1)) {
                Some(e) => {
                    acc.push(e);
                    i = i + 2;
                },
                None => {
                    return (TokenType::Error, i + 1);
                },
            }
        } else {
            acc.push(c);
            i = i + 1;
        }
    }
}

/// The operator or delimiter that `c` alone is.
pub fn single_of(c: char) -> (t: Option<TokenType>)
    ensures
        match t {
            Some(k) => single_kind(c) == Some(k@),
            None => single_kind(c) is None,
        },
{
    if c == '+' {
        Some(TokenType::Add)
    } else if c == '-' {
        Some(TokenType::Sub)
    } else if c == '*' {
        Some(TokenType::Mul)
    } else if c == '.' {
        Some(TokenType::Dot)
    } else if c == ',' {
        Some(TokenType::Comma)
    } else if c == ';' {
        Some(TokenType::Semicolon)
    } else if c == '(' {
        Some(TokenType::Lpar)
    } else if c == ')' {
        Some(TokenType::Rpar)
    } else if c == '[' {
        Some(TokenType::Lbracket)
    } else if c == ']' {
        Some(TokenType::Rbracket)
    } else if c == '{' {
        Some(TokenType::Lacc)
    } else if c == '}' {
        Some(TokenType::Racc)
    } else {
        None
    }
}

/// An operator of one or two characters that starts at `pos`.
pub fn scan_operator_at(text: &Vec<char>, pos: usize) -> (r: (TokenType, usize))
    requires
        pos < text.len(),
        is_operator_start(text@[pos as int]),
    ensures
        scanned(r, scan_operator(text@, pos as int)),
        pos < r.1 <= text.len(),
{
    let c = text[pos];
    let d = peek(text, pos + 1);
    if c == '&' {
        if d == '&' {
            (TokenType::And, pos + 2)
        } else {
            (TokenType::Error, pos + 1)
        }
    } else if c == '|' {
        if d == '|' {
            (TokenType::Or, pos + 2)
        } else {
            (TokenType::Error, pos + 1)
        }
    } else if d == '=' {
        (
            if c == '!' {
                TokenType::NotEq
            } else if c == '=' {
                TokenType::Equal
            } else if c == '<' {
                TokenType::LessEq
            } else {
                TokenType::GreaterEq
            },
            pos + 2,
        )
    } else {
        (
            if c == '!' {
                TokenType::Not
            } else if c == '=' {
                TokenType::Assign
            } else if c == '<' {
                TokenType::Less
            } else {
                TokenType::Greater
            },
            pos + 1,
        )
    }
}

/// The token that starts at `pos`, where neither white space nor a comment
/// starts there.
pub fn scan_plain_at(text: &Vec<char>, pos: usize) -> (r: (TokenType, usize))
    ensures
        scanned(r, scan_plain(text@, pos as int)),
        pos <= r.1,
        pos <= text.len() ==> r.1 <= text.len(),
{
    let c = peek(text, pos);
    assert(c != '\0' ==> pos < text.len());
    if is_letter_char(c) {
        let end = scan_run(text, pos + 1, CharClass::Ident);
        let word = text_of(text, pos, end);
        match KeywordType::from_word(&word) {
            Some(k) => (k.token_type(), end),
            None => (TokenType::Id(word), end),
        }
    } else if c == '\0' {
        (TokenType::End, pos)
    } else if c == '/' {
        (TokenType::Div, pos + 1)
    } else if is_digit_char(c) {
        scan_number_at(text, pos)
    } else if c == '\'' {
        scan_char_at(text, pos + 1)
    } else if c == '"' {
        scan_string_at(text, pos + 1)
    } else if c == '&' || c == '|' || c == '!' || c == '=' || c == '<' || c == '>' {
        scan_operator_at(text, pos)
    } else {
        match single_of(c) {
            Some(t) => (t, pos + 1),
            None => (TokenType::Error, pos),
        }
    }
}

} // verus!
