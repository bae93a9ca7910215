//! The lexer: a character buffer becomes a stream of tokens.

use crate::lexer_laws::lemma_scan_progress;
use crate::lexer_scan::{is_space_char, peek, scan_plain_at};
use crate::lexer_spec::{
    bump_line, lex, lex_from, lex_stop, mode_rank, scan_from, scan_token, SkipMode, TokenTypeView,
    TokenView,
};
use vstd::prelude::*;
use vstd::std_specs::iter::IteratorSpec;
use vstd::string::StringExecFns;

verus! {

/// `String::push` appends one character to the end of the string.
pub assume_specification[ std::string::String::push ](text: &mut std::string::String, ch: char)
    ensures
        final(text)@ == old(text)@.push(ch),
;

/// The reserved words of the language.
#[derive(Debug, Clone, Copy, PartialEq, Eq, Structural)]
pub enum KeywordType {
    Break,
    Char,
    Double,
    Else,
    For,
    If,
    Int,
    Return,
    Struct,
    Void,
    While,
}

/// The keyword that a word spells, if it spells one.
pub open spec fn keyword_of(word: Seq<char>) -> Option<KeywordType> {
    if word == "break"@ {
        Some(KeywordType::Break)
    } else if word == "char"@ {
        Some(KeywordType::Char)
    } else if word == "double"@ {
        Some(KeywordType::Double)
    } else if word == "else"@ {
        Some(KeywordType::Else)
    } else if word == "for"@ {
        Some(KeywordType::For)
    } else if word == "if"@ {
        Some(KeywordType::If)
    } else if word == "int"@ {
        Some(KeywordType::Int)
    } else if word == "return"@ {
        Some(KeywordType::Return)
    } else if word == "struct"@ {
        Some(KeywordType::Struct)
    } else if word == "void"@ {
        Some(KeywordType::Void)
    } else if word == "while"@ {
        Some(KeywordType::While)
    } else {
        None
    }
}

impl KeywordType {
    /// The kind of token that this keyword is.
    pub open spec fn token_view(self) -> TokenTypeView {
        match self {
            KeywordType::Break => TokenTypeView::Break,
            KeywordType::Char => TokenTypeView::Char,
            KeywordType::Double => TokenTypeView::Double,
            KeywordType::Else => TokenTypeView::Else,
            KeywordType::For => TokenTypeView::For,
            KeywordType::If => TokenTypeView::If,
            KeywordType::Int => TokenTypeView::Int,
            KeywordType::Return => TokenTypeView::Return,
            KeywordType::Struct => TokenTypeView::Struct,
            KeywordType::Void => TokenTypeView::Void,
            KeywordType::While => TokenTypeView::While,
        }
    }

    /// The keyword that `word` spells, if it spells one.
    pub fn from_word(word: &String) -> (k: Option<KeywordType>)
        ensures
            k == keyword_of(word@),
    {
        if *word == String::from_str("break") {
            Some(KeywordType::Break)
        } else if *word == String::from_str("char") {
            Some(KeywordType::Char)
        } else if *word == String::from_str("double") {
            Some(KeywordType::Double)
        } else if *word == String::from_str("else") {
            Some(KeywordType::Else)
        } else if *word == String::from_str("for") {
            Some(KeywordType::For)
        } else if *word == String::from_str("if") {
            Some(KeywordType::If)
        } else if *word == String::from_str("int") {
            Some(KeywordType::Int)
        } else if *word == String::from_str("return") {
            Some(KeywordType::Return)
        } else if *word == String::from_str("struct") {
            Some(KeywordType::Struct)
        } else if *word == String::from_str("void") {
            Some(KeywordType::Void)
        } else if *word == String::from_str("while") {
            Some(KeywordType::While)
        } else {
            None
        }
    }

    /// The token of this keyword.
    pub fn token_type(self) -> (t: TokenType)
        ensures
            t@ == self.token_view(),
    {
        match self {
            KeywordType::Break => TokenType::Break,
            KeywordType::Char => TokenType::Char,
            KeywordType::Double => TokenType::Double,
            KeywordType::Else => TokenType::Else,
            KeywordType::For => TokenType::For,
            KeywordType::If => TokenType::If,
            KeywordType::Int => TokenType::Int,
            KeywordType::Return => TokenType::Return,
            KeywordType::Struct => TokenType::Struct,
            KeywordType::Void => TokenType::Void,
            KeywordType::While => TokenType::While,
        }
    }
}

/// The kind of a token. A real literal carries its text as written; an
/// integer literal its value.
#[derive(Debug)]
pub enum TokenType {
    Id(String),
    Break,
    Char,
    Double,
    Else,
    For,
    If,
    Int,
    Return,
    Struct,
    Void,
    While,
    CtReal(String),
    CtInt(i64),
    CtChar(char),
    CtString(String),
    End,
    Div,
    Add,
    Sub,
    Mul,
    Dot,
    And,
    Or,
    Not,
    NotEq,
    Equal,
    Assign,
    Less,
    LessEq,
    Greater,
    GreaterEq,
    Comma,
    Semicolon,
    Lpar,
    Rpar,
    Lbracket,
    Rbracket,
    Lacc,
    Racc,
    Error,
}

impl View for TokenType {
    type V = TokenTypeView;

    open spec fn view(&self) -> TokenTypeView {
        match self {
            TokenType::Id(s) => TokenTypeView::Id(s@),
            TokenType::Break => TokenTypeView::Break,
            TokenType::Char => TokenTypeView::Char,
            TokenType::Double => TokenTypeView::Double,
            TokenType::Else => TokenTypeView::Else,
            TokenType::For => TokenTypeView::For,
            TokenType::If => TokenTypeView::If,
            TokenType::Int => TokenTypeView::Int,
            TokenType::Return => TokenTypeView::Return,
            TokenType::Struct => TokenTypeView::Struct,
            TokenType::Void => TokenTypeView::Void,
            TokenType::While => TokenTypeView::While,
            TokenType::CtReal(s) => TokenTypeView::CtReal(s@),
            TokenType::CtInt(i) => TokenTypeView::CtInt(*i as int),
            TokenType::CtChar(c) => TokenTypeView::CtChar(*c),
            TokenType::CtString(s) => TokenTypeView::CtString(s@),
            TokenType::End => TokenTypeView::End,
            TokenType::Div => TokenTypeView::Div,
            TokenType::Add => TokenTypeView::Add,
            TokenType::Sub => TokenTypeView::Sub,
            TokenType::Mul => TokenTypeView::Mul,
            TokenType::Dot => TokenTypeView::Dot,
            TokenType::And => TokenTypeView::And,
            TokenType::Or => TokenTypeView::Or,
            TokenType::Not => TokenTypeView::Not,
            TokenType::NotEq => TokenTypeView::NotEq,
            TokenType::Equal => TokenTypeView::Equal,
            TokenType::Assign => TokenTypeView::Assign,
            TokenType::Less => TokenTypeView::Less,
            TokenType::LessEq => TokenTypeView::LessEq,
            TokenType::Greater => TokenTypeView::Greater,
            TokenType::GreaterEq => TokenTypeView::GreaterEq,
            TokenType::Comma => TokenTypeView::Comma,
            TokenType::Semicolon => TokenTypeView::Semicolon,
            TokenType::Lpar => TokenTypeView::Lpar,
            TokenType::Rpar => TokenTypeView::Rpar,
            TokenType::Lbracket => TokenTypeView::Lbracket,
            TokenType::Rbracket => TokenTypeView::Rbracket,
            TokenType::Lacc => TokenTypeView::Lacc,
            TokenType::Racc => TokenTypeView::Racc,
            TokenType::Error => TokenTypeView::Error,
        }
    }
}

impl TokenTypeView {
    /// The tag of the kind: its place in the list of kinds, counted from 0.
    /// Two tokens have one tag exactly when they are of one kind, whatever
    /// they carry.
    pub open spec fn tag(self) -> u8 {
        match self {
            TokenTypeView::Id(_) => 0,
            TokenTypeView::Break => 1,
            TokenTypeView::Char => 2,
            TokenTypeView::Double => 3,
            TokenTypeView::Else => 4,
            TokenTypeView::For => 5,
            TokenTypeView::If => 6,
            TokenTypeView::Int => 7,
            TokenTypeView::Return => 8,
            TokenTypeView::Struct => 9,
            TokenTypeView::Void => 10,
            TokenTypeView::While => 11,
            TokenTypeView::CtReal(_) => 12,
            TokenTypeView::CtInt(_) => 13,
            TokenTypeView::CtChar(_) => 14,
            TokenTypeView::CtString(_) => 15,
            TokenTypeView::End => 16,
            TokenTypeView::Div => 17,
            TokenTypeView::Add => 18,
            TokenTypeView::Sub => 19,
            TokenTypeView::Mul => 20,
            TokenTypeView::Dot => 21,
            TokenTypeView::And => 22,
            TokenTypeView::Or => 23,
            TokenTypeView::Not => 24,
            TokenTypeView::NotEq => 25,
            TokenTypeView::Equal => 26,
            TokenTypeView::Assign => 27,
            TokenTypeView::Less => 28,
            TokenTypeView::LessEq => 29,
            TokenTypeView::Greater => 30,
            TokenTypeView::GreaterEq => 31,
            TokenTypeView::Comma => 32,
            TokenTypeView::Semicolon => 33,
            TokenTypeView::Lpar => 34,
            TokenTypeView::Rpar => 35,
            TokenTypeView::Lbracket => 36,
            TokenTypeView::Rbracket => 37,
            TokenTypeView::Lacc => 38,
            TokenTypeView::Racc => 39,
            TokenTypeView::Error => 40,
        }
    }
}

impl Clone for TokenType {
    fn clone(&self) -> (res: Self)
        ensures
            res == *self,
    {
        match self {
            TokenType::Id(s) => TokenType::Id(s.clone()),
            TokenType::Break => TokenType::Break,
            TokenType::Char => TokenType::Char,
            TokenType::Double => TokenType::Double,
            TokenType::Else => TokenType::Else,
            TokenType::For => TokenType::For,
            TokenType::If => TokenType::If,
            TokenType::Int => TokenType::Int,
            TokenType::Return => TokenType::Return,
            TokenType::Struct => TokenType::Struct,
            TokenType::Void => TokenType::Void,
            TokenType::While => TokenType::While,
            TokenType::CtReal(s) => TokenType::CtReal(s.clone()),
            TokenType::CtInt(i) => TokenType::CtInt(*i),
            TokenType::CtChar(c) => TokenType::CtChar(*c),
            TokenType::CtString(s) => TokenType::CtString(s.clone()),
            TokenType::End => TokenType::End,
            TokenType::Div => TokenType::Div,
            TokenType::Add => TokenType::Add,
            TokenType::Sub => TokenType::Sub,
            TokenType::Mul => TokenType::Mul,
            TokenType::Dot => TokenType::Dot,
            TokenType::And => TokenType::And,
            TokenType::Or => TokenType::Or,
            TokenType::Not => TokenType::Not,
            TokenType::NotEq => TokenType::NotEq,
            TokenType::Equal => TokenType::Equal,
            TokenType::Assign => TokenType::Assign,
            TokenType::Less => TokenType::Less,
            TokenType::LessEq => TokenType::LessEq,
            TokenType::Greater => TokenType::Greater,
            TokenType::GreaterEq => TokenType::GreaterEq,
            TokenType::Comma => TokenType::Comma,
            TokenType::Semicolon => TokenType::Semicolon,
            TokenType::Lpar => TokenType::Lpar,
            TokenType::Rpar => TokenType::Rpar,
            TokenType::Lbracket => TokenType::Lbracket,
            TokenType::Rbracket => TokenType::Rbracket,
            TokenType::Lacc => TokenType::Lacc,
            TokenType::Racc => TokenType::Racc,
            TokenType::Error => TokenType::Error,
        }
    }
}

impl TokenType {
    /// The 8-bit tag by which the parser tells the kinds apart.
    pub fn discriminant_value(&self) -> (tag: u8)
        ensures
            tag == self@.tag(),
    {
        match self {
            TokenType::Id(_) => 0,
            TokenType::Break => 1,
            TokenType::Char => 2,
            TokenType::Double => 3,
            TokenType::Else => 4,
            TokenType::For => 5,
            TokenType::If => 6,
            TokenType::Int => 7,
            TokenType::Return => 8,
            TokenType::Struct => 9,
            TokenType::Void => 10,
            TokenType::While => 11,
            TokenType::CtReal(_) => 12,
            TokenType::CtInt(_) => 13,
            TokenType::CtChar(_) => 14,
            TokenType::CtString(_) => 15,
            TokenType::End => 16,
            TokenType::Div => 17,
            TokenType::Add => 18,
            TokenType::Sub => 19,
            TokenType::Mul => 20,
            TokenType::Dot => 21,
            TokenType::And => 22,
            TokenType::Or => 23,
            TokenType::Not => 24,
            TokenType::NotEq => 25,
            TokenType::Equal => 26,
            TokenType::Assign => 27,
            TokenType::Less => 28,
            TokenType::LessEq => 29,
            TokenType::Greater => 30,
            TokenType::GreaterEq => 31,
            TokenType::Comma => 32,
            TokenType::Semicolon => 33,
            TokenType::Lpar => 34,
            TokenType::Rpar => 35,
            TokenType::Lbracket => 36,
            TokenType::Rbracket => 37,
            TokenType::Lacc => 38,
            TokenType::Racc => 39,
            TokenType::Error => 40,
        }
    }

    /// The name that an identifier carries; the empty string for any other kind.
    pub fn get_id(&self) -> (name: String)
        ensures
            name@ == (match self@ {
                TokenTypeView::Id(s) => s,
                _ => Seq::empty(),
            }),
    {
        match self {
            TokenType::Id(s) => s.clone(),
            _ => String::new(),
        }
    }

    /// The value of an integer literal; 0 for any other kind.
    pub fn get_int(&self) -> (value: i64)
        ensures
            value == (match self@ {
                TokenTypeView::CtInt(i) => i,
                _ => 0,
            }),
    {
        match self {
            TokenType::CtInt(i) => *i,
            _ => 0,
        }
    }

    /// The character of a character literal; `NUL` for any other kind.
    pub fn get_char(&self) -> (value: char)
        ensures
            value == (match self@ {
                TokenTypeView::CtChar(c) => c,
                _ => '\0',
            }),
    {
        match self {
            TokenType::CtChar(c) => *c,
            _ => '\0',
        }
    }

    /// The text of a real literal as written; the empty string for any other kind.
    pub fn get_double(&self) -> (text: String)
        ensures
            text@ == (match self@ {
                TokenTypeView::CtReal(s) => s,
                _ => Seq::empty(),
            }),
    {
        match self {
            TokenType::CtReal(s) => s.clone(),
            _ => String::new(),
        }
    }

    /// The characters of a string literal; the empty string for any other kind.
    pub fn get_string(&self) -> (text: String)
        ensures
            text@ == (match self@ {
                TokenTypeView::CtString(s) => s,
                _ => Seq::empty(),
            }),
    {
        match self {
            TokenType::CtString(s) => s.clone(),
            _ => String::new(),
        }
    }
}

/// A token and the line on which it was emitted.
#[derive(Debug)]
pub struct Token {
    pub token_type: TokenType,
    pub line: usize,
}

impl View for Token {
    type V = TokenView;

    open spec fn view(&self) -> TokenView {
        TokenView { kind: self.token_type@, line: self.line as int }
    }
}

impl Clone for Token {
    fn clone(&self) -> (res: Self)
        ensures
            res == *self,
    {
        Token { token_type: self.token_type.clone(), line: self.line }
    }
}

/// The views of the tokens of a sequence, in order.
pub open spec fn token_views(tokens: Seq<Token>) -> Seq<TokenView> {
    tokens.map_values(|t: Token| t@)
}

/// The line counter after one more newline.
pub fn next_line(line: usize) -> (l: usize)
    ensures
        l == bump_line(line as int),
{
    if line < usize::MAX {
        line + 1
    } else {
        line
    }
}

/// Scans the next token of `text` from the cursor `text_idx`, with the line
/// counter at `current_line`, and leaves the cursor behind the token (at
/// the offending character after an `Error`, and on the `NUL` after `End`).
pub fn get_next_token(text: &Vec<char>, text_idx: &mut usize, current_line: &mut usize) -> (token:
    Token)
    ensures
        token@.kind == scan_token(text@, *old(text_idx) as int, *old(current_line) as int).kind,
        token@.line == scan_token(text@, *old(text_idx) as int, *old(current_line) as int).line,
        *final(text_idx) == scan_token(text@, *old(text_idx) as int, *old(current_line) as int).next,
        *final(current_line) == token.line,
{
    let mut pos: usize = *text_idx;
    let mut line: usize = *current_line;
    let mut mode = SkipMode::Code;
    loop
        invariant
            scan_from(text@, pos as int, line as int, mode) == scan_token(
                text@,
                *old(text_idx) as int,
                *old(current_line) as int,
            ),
        decreases text.len() - pos, mode_rank(mode),
    {
        let c = peek(text, pos);
        assert(c != '\0' ==> pos < text.len());
        let d = if c != '\0' {
            peek(text, pos + 1)
        } else {
            '\0'
        };
        assert(d != '\0' ==> pos + 1 < text.len());
        match mode {
            SkipMode::LineComment => {
                if c == '\n' || c == '\r' || c == '\0' {
                    mode = SkipMode::Code;
                } else {
                    pos = pos + 1;
                }
            },
            SkipMode::BlockComment => {
                if c == '\0' {
                    *text_idx = pos;
                    *current_line = line;
                    return Token { token_type: TokenType::Error, line };
                } else if c == '*' && d == '/' {
                    pos = pos + 2;
                    mode = SkipMode::Code;
                } else if c == '\n' {
                    pos = pos + 1;
                    line = next_line(line);
                } else {
                    pos = pos + 1;
                }
            },
            SkipMode::Code => {
                if c == '\n' {
                    pos = pos + 1;
                    line = next_line(line);
                } else if is_space_char(c) {
                    pos = pos + 1;
                } else if c == '/' && d == '/' {
                    pos = pos + 2;
                    mode = SkipMode::LineComment;
                } else if c == '/' && d == '*' {
                    pos = pos + 2;
                    mode = SkipMode::BlockComment;
                } else {
                    let (token_type, next) = scan_plain_at(text, pos);
                    *text_idx = next;
                    *current_line = line;
                    return Token { token_type, line };
                }
            },
        }
    }
}

/// A lexer over a character buffer, with its cursor and its line counter.
pub struct Lexer {
    /// The characters of the source, with a `NUL` at the end.
    pub text: Vec<char>,
    /// The cursor: the index of the next character to read.
    pub text_idx: usize,
    /// The line of the cursor, counted from 1.
    pub current_line: usize,
}

impl Lexer {
    /// A lexer at the start of `content`: the buffer is the characters of
    /// `content` and a closing `NUL`, the cursor is at 0, the line is 1.
    pub fn from_string(content: String) -> (lexer: Lexer)
        ensures
            lexer.text@ == content@.push('\0'),
            lexer.text_idx == 0,
            lexer.current_line == 1,
    {
        let mut chars = chars_of(&content);
        chars.push('\0');
        Lexer { text: chars, text_idx: 0, current_line: 1 }
    }

    /// Scans the next token and moves the cursor behind it.
    pub fn next_token(&mut self) -> (token: Token)
        ensures
            token@.kind == scan_token(
                old(self).text@,
                old(self).text_idx as int,
                old(self).current_line as int,
            ).kind,
            token@.line == final(self).current_line,
            final(self).text == old(self).text,
            final(self).text_idx == scan_token(
                old(self).text@,
                old(self).text_idx as int,
                old(self).current_line as int,
            ).next,
            final(self).current_line == scan_token(
                old(self).text@,
                old(self).text_idx as int,
                old(self).current_line as int,
            ).line,
    {
        let mut idx = self.text_idx;
        let mut line = self.current_line;
        let token = get_next_token(&self.text, &mut idx, &mut line);
        self.text_idx = idx;
        self.current_line = line;
        token
    }

    /// The tokens from the cursor on, up to and including the first `End`
    /// or `Error`; the cursor is left where that token left it.
    pub fn get_tokens(&mut self) -> (tokens: Vec<Token>)
        ensures
            token_views(tokens@) == lex_from(
                old(self).text@,
                old(self).text_idx as int,
                old(self).current_line as int,
            ),
            final(self).text == old(self).text,
            final(self).text_idx == lex_stop(
                old(self).text@,
                old(self).text_idx as int,
                old(self).current_line as int,
            ).next,
            final(self).current_line == lex_stop(
                old(self).text@,
                old(self).text_idx as int,
                old(self).current_line as int,
            ).line,
    {
        let mut token_vec: Vec<Token> = Vec::new();
        let ghost text = self.text@;
        let ghost start = self.text_idx as int;
        let ghost line0 = self.current_line as int;
        loop
            invariant
                self.text@ == text,
                self.text == old(self).text,
                start == old(self).text_idx,
                line0 == old(self).current_line,
                lex_stop(text, start, line0) == lex_stop(
                    text,
                    self.text_idx as int,
                    self.current_line as int,
                ),
                lex_from(text, start, line0) == token_views(token_vec@) + lex_from(
                    text,
                    self.text_idx as int,
                    self.current_line as int,
                ),
            decreases text.len() - self.text_idx,
        {
            let ghost pos = self.text_idx as int;
            let ghost line = self.current_line as int;
            let ghost before = token_views(token_vec@);
            let t = self.next_token();
            proof {
                lemma_scan_progress(text, pos, line, SkipMode::Code);
            }
            let stop = match t.token_type {
                TokenType::End => true,
                TokenType::Error => true,
                _ => false,
            };
            token_vec.push(t);
            proof {
                assert(token_views(token_vec@) =~= before.push(t@));
                assert(t@ == TokenView { kind: t@.kind, line: t@.line });
            }
            if stop {
                assert(token_views(token_vec@) =~= before + lex_from(text, pos, line));
                return token_vec;
            }
            assert(before + lex_from(text, pos, line) =~= token_views(token_vec@) + lex_from(
                text,
                self.text_idx as int,
                self.current_line as int,
            ));
        }
    }
}

/// The tokens of `text`, which need not end in `NUL`.
pub fn get_tokens(text: String) -> (tokens: Vec<Token>)
    ensures
        token_views(tokens@) == lex(text@.push('\0')),
{
    let mut lexer = Lexer::from_string(text);
    lexer.get_tokens()
}

/// The characters of a string, in order.
pub fn chars_of(s: &String) -> (chars: Vec<char>)
    ensures
        chars@ == s@,
{
    let mut chars: Vec<char> = Vec::new();
    let mut rest = s.as_str().chars();
    assert(chars@ + rest.remaining() =~= s@);
    loop
        invariant
            chars@ + rest.remaining() == s@,
            rest.decrease() is Some,
        decreases rest.decrease()->0,
    {
        let ghost before = rest.remaining();
        match rest.next() {
            Some(c) => {
                chars.push(c);
                assert(chars@ + rest.remaining() =~= s@) by {
                    assert(before =~= seq![c] + before.drop_first());
                }
            },
            None => {
                assert(chars@ + before =~= chars@);
                return chars;
            },
        }
    }
}

} // verus!
