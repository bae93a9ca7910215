//! The mathematical description of the analysis of expressions: which
//! tokens form an expression, what its type is, and which error ends the
//! analysis.

use crate::error::{CompileError, Diagnostic};
use crate::lexer::Token;
use crate::lexer_spec::TokenTypeView;
use crate::symbols::{
    arith_result, cast_failure, find_entry, ClassType, ContextView, CtValView, RetValView,
    SymbolTypeView, SymbolView, TypeName,
};
use vstd::prelude::*;

verus! {

/// What the analysis knows of the program so far.
pub struct Env {
    /// The scopes that are open, the global one first, the innermost last.
    pub scopes: Seq<ContextView>,
    /// The function or the structure that is being defined.
    pub current_symbol: Option<SymbolView>,
    /// Whether the parameters of a function are being read, so that the
    /// body that follows opens no scope of its own.
    pub is_function_context: bool,
}

/// The outcome of the analysis of an expression from some token on.
pub enum ExprResult {
    /// An expression stands there: what it is, and the index of the token
    /// behind it.
    Match { rv: RetValView, pos: int },
    /// No expression stands there.
    NoMatch,
    /// The analysis ends with an error.
    Fail { error: CompileError },
}

/// The outcome of the analysis of a type from some token on.
pub enum TypeResult {
    Match { ty: SymbolTypeView, pos: int },
    NoMatch,
    Fail { error: CompileError },
}

/// The outcome of the analysis of an array declaration from some token on.
pub enum SizeResult {
    Match { size: int, pos: int },
    NoMatch,
    Fail { error: CompileError },
}

/// The levels of the binary operators, the loosest first.
#[derive(Clone, Copy, Debug, PartialEq, Eq, Structural)]
pub enum Level {
    Or,
    And,
    Eq,
    Rel,
    Add,
    Mul,
}

pub const TAG_ID: u8 = 0;

pub const TAG_BREAK: u8 = 1;

pub const TAG_CHAR: u8 = 2;

pub const TAG_DOUBLE: u8 = 3;

pub const TAG_ELSE: u8 = 4;

pub const TAG_FOR: u8 = 5;

pub const TAG_IF: u8 = 6;

pub const TAG_INT: u8 = 7;

pub const TAG_RETURN: u8 = 8;

pub const TAG_STRUCT: u8 = 9;

pub const TAG_VOID: u8 = 10;

pub const TAG_WHILE: u8 = 11;

pub const TAG_CT_REAL: u8 = 12;

pub const TAG_CT_INT: u8 = 13;

pub const TAG_CT_CHAR: u8 = 14;

pub const TAG_CT_STRING: u8 = 15;

pub const TAG_END: u8 = 16;

pub const TAG_DIV: u8 = 17;

pub const TAG_ADD: u8 = 18;

pub const TAG_SUB: u8 = 19;

pub const TAG_MUL: u8 = 20;

pub const TAG_DOT: u8 = 21;

pub const TAG_AND: u8 = 22;

pub const TAG_OR: u8 = 23;

pub const TAG_NOT: u8 = 24;

pub const TAG_NOT_EQ: u8 = 25;

pub const TAG_EQUAL: u8 = 26;

pub const TAG_ASSIGN: u8 = 27;

pub const TAG_LESS: u8 = 28;

pub const TAG_LESS_EQ: u8 = 29;

pub const TAG_GREATER: u8 = 30;

pub const TAG_GREATER_EQ: u8 = 31;

pub const TAG_COMMA: u8 = 32;

pub const TAG_SEMICOLON: u8 = 33;

pub const TAG_LPAR: u8 = 34;

pub const TAG_RPAR: u8 = 35;

pub const TAG_LBRACKET: u8 = 36;

pub const TAG_RBRACKET: u8 = 37;

pub const TAG_LACC: u8 = 38;

pub const TAG_RACC: u8 = 39;

pub const TAG_ERROR: u8 = 40;

/// The tag of the token at `pos`; behind the last token stands `End`.
pub open spec fn tag_at(t: Seq<Token>, pos: int) -> u8 {
    if 0 <= pos < t.len() {
        t[pos]@.kind.tag()
    } else {
        TAG_END
    }
}

/// The line of the token at `pos`; behind the last token, the line of the
/// last, and 0 where there is none.
pub open spec fn line_at(t: Seq<Token>, pos: int) -> usize {
    if 0 <= pos < t.len() {
        t[pos].line
    } else if t.len() > 0 {
        t.last().line
    } else {
        0
    }
}

/// The name that the token at `pos` carries, if it is an identifier.
pub open spec fn name_at(t: Seq<Token>, pos: int) -> Seq<char> {
    match t[pos]@.kind {
        TokenTypeView::Id(s) => s,
        _ => Seq::empty(),
    }
}

/// Whether the analysis has gone on from `pos` to `p`, inside the tokens.
pub open spec fn progress(t: Seq<Token>, pos: int, p: int) -> bool {
    pos < p && p <= t.len()
}

/// An error at the line of the token at `pos`.
pub open spec fn error_at(t: Seq<Token>, pos: int, d: Diagnostic) -> CompileError {
    CompileError { diagnostic: d, line: line_at(t, pos) }
}

/// The symbol that the open scopes bind to a name: that of the innermost
/// scope that binds it.
pub open spec fn find_in_scopes(scopes: Seq<ContextView>, name: Seq<char>) -> Option<SymbolView>
    decreases scopes.len(),
{
    if scopes.len() == 0 {
        None
    } else {
        match find_entry(scopes.last().symbols, name) {
            Some(s) => Some(s),
            None => find_in_scopes(scopes.drop_last(), name),
        }
    }
}

/// The symbol that the global scope binds to a name.
pub open spec fn find_global(scopes: Seq<ContextView>, name: Seq<char>) -> Option<SymbolView> {
    if scopes.len() == 0 {
        None
    } else {
        find_entry(scopes[0].symbols, name)
    }
}

pub open spec fn is_struct(ty: SymbolTypeView) -> bool {
    ty.type_base == TypeName::TbStruct
}

pub open spec fn int_type() -> SymbolTypeView {
    SymbolTypeView::scalar(TypeName::TbInt)
}

/// An expression that is neither a storage location nor a constant.
pub open spec fn plain(ty: SymbolTypeView) -> RetValView {
    RetValView { symbol_type: Some(ty), is_lval: false, is_ctval: false, ctval: None }
}

/// A storage location of the type.
pub open spec fn location(ty: SymbolTypeView) -> RetValView {
    RetValView { symbol_type: Some(ty), is_lval: true, is_ctval: false, ctval: None }
}

/// A constant of the type.
pub open spec fn constant(ty: SymbolTypeView, value: CtValView) -> RetValView {
    RetValView { symbol_type: Some(ty), is_lval: false, is_ctval: true, ctval: Some(value) }
}

/// The type of an analysed expression.
pub open spec fn type_of(rv: RetValView) -> SymbolTypeView {
    match rv.symbol_type {
        Some(ty) => ty,
        None => SymbolTypeView::scalar(TypeName::TbVoid),
    }
}

pub open spec fn level_rank(level: Level) -> int {
    match level {
        Level::Or => 6,
        Level::And => 5,
        Level::Eq => 4,
        Level::Rel => 3,
        Level::Add => 2,
        Level::Mul => 1,
    }
}

/// Whether a token is an operator of the level.
pub open spec fn is_operator(level: Level, tag: u8) -> bool {
    match level {
        Level::Or => tag == TAG_OR,
        Level::And => tag == TAG_AND,
        Level::Eq => tag == TAG_EQUAL || tag == TAG_NOT_EQ,
        Level::Rel => tag == TAG_LESS || tag == TAG_LESS_EQ || tag == TAG_GREATER || tag
            == TAG_GREATER_EQ,
        Level::Add => tag == TAG_ADD || tag == TAG_SUB,
        Level::Mul => tag == TAG_MUL || tag == TAG_DIV,
    }
}

/// The error that says that the right operand of an operator is missing.
pub open spec fn missing_operand(level: Level) -> Diagnostic {
    match level {
        Level::Or => Diagnostic::MissingOrOperand,
        Level::And => Diagnostic::MissingAndOperand,
        Level::Eq => Diagnostic::MissingEqualityOperand,
        Level::Rel => Diagnostic::MissingRelationOperand,
        Level::Add => Diagnostic::MissingAdditionOperand,
        Level::Mul => Diagnostic::MissingMultiplicationOperand,
    }
}

/// Why the operands of a binary operator of the level do not go together,
/// if they do not: no operand is a structure; only the logical operators
/// take arrays; the operands of an arithmetic operator have a common
/// arithmetic type.
pub open spec fn operand_failure(level: Level, a: SymbolTypeView, b: SymbolTypeView) -> Option<
    Diagnostic,
> {
    match level {
        Level::Or | Level::And => if is_struct(a) || is_struct(b) {
            Some(Diagnostic::StructTested)
        } else {
            None
        },
        Level::Eq | Level::Rel => if a.is_array() || b.is_array() {
            Some(Diagnostic::ArrayCompared)
        } else if is_struct(a) || is_struct(b) {
            Some(Diagnostic::StructCompared)
        } else {
            None
        },
        Level::Add | Level::Mul => if a.is_array() || b.is_array() {
            Some(Diagnostic::ArrayInArithmetic)
        } else if is_struct(a) || is_struct(b) {
            Some(Diagnostic::StructInArithmetic)
        } else if arith_result(a, b) is None {
            Some(Diagnostic::IncompatibleTypes)
        } else {
            None
        },
    }
}

/// The type of the result of a binary operator of the level on operands
/// that go together: the common arithmetic type for an arithmetic
/// operator, else an integer.
pub open spec fn operator_type(level: Level, a: SymbolTypeView, b: SymbolTypeView) -> SymbolTypeView {
    match level {
        Level::Add | Level::Mul => match arith_result(a, b) {
            Some(ty) => ty,
            None => int_type(),
        },
        _ => int_type(),
    }
}

/// The parameters of a function, in the order of their declaration.
pub open spec fn parameters(f: SymbolView) -> Seq<SymbolView> {
    match f.am {
        Some(entries) => Seq::new(entries.len(), |i: int| entries[i].1),
        None => Seq::empty(),
    }
}

pub open spec fn is_function(s: SymbolView) -> bool {
    s.class == ClassType::ClsFunc || s.class == ClassType::ClsExtFunc
}

/// A type: `int`, `double`, `char`, or `struct` and the name of a
/// structure of the global scope.
pub open spec fn type_base(t: Seq<Token>, env: Env, pos: int) -> TypeResult {
    let tag = tag_at(t, pos);
    if tag == TAG_INT {
        TypeResult::Match { ty: SymbolTypeView::scalar(TypeName::TbInt), pos: pos + 1 }
    } else if tag == TAG_DOUBLE {
        TypeResult::Match { ty: SymbolTypeView::scalar(TypeName::TbDouble), pos: pos + 1 }
    } else if tag == TAG_CHAR {
        TypeResult::Match { ty: SymbolTypeView::scalar(TypeName::TbChar), pos: pos + 1 }
    } else if tag == TAG_STRUCT {
        if tag_at(t, pos + 1) != TAG_ID {
            TypeResult::Fail { error: error_at(t, pos + 1, Diagnostic::MissingStructIdentifier) }
        } else {
            match find_global(env.scopes, name_at(t, pos + 1)) {
                Some(s) => if s.class == ClassType::ClsStruct {
                    TypeResult::Match {
                        ty: SymbolTypeView {
                            type_base: TypeName::TbStruct,
                            struct_symbol: Some(name_at(t, pos + 1)),
                            num_elements: -1,
                        },
                        pos: pos + 2,
                    }
                } else {
                    TypeResult::Fail { error: error_at(t, pos + 2, Diagnostic::NotAStruct) }
                },
                None => TypeResult::Fail { error: error_at(t, pos + 2, Diagnostic::UndefinedStruct) },
            }
        }
    } else {
        TypeResult::NoMatch
    }
}

/// An array declaration: `[`, an optional size, `]`. The size is a
/// constant expression of type integer; without one the size is 0.
pub open spec fn array_decl(t: Seq<Token>, env: Env, pos: int) -> SizeResult
    decreases t.len() - pos, 30int, 0int,
{
    if tag_at(t, pos) != TAG_LBRACKET {
        SizeResult::NoMatch
    } else {
        match expr(t, env, pos + 1) {
            ExprResult::Match { rv, pos: p } => if !rv.is_ctval {
                SizeResult::Fail { error: error_at(t, p, Diagnostic::ArraySizeNotConstant) }
            } else if type_of(rv).type_base != TypeName::TbInt || !(rv.ctval matches Some(
                CtValView::IntChar(_),
            )) {
                SizeResult::Fail { error: error_at(t, p, Diagnostic::ArraySizeNotInteger) }
            } else if tag_at(t, p) != TAG_RBRACKET {
                SizeResult::Fail { error: error_at(t, p, Diagnostic::ExpectedArrayEnd) }
            } else {
                SizeResult::Match { size: rv.ctval->0->IntChar_0, pos: p + 1 }
            },
            ExprResult::NoMatch => if tag_at(t, pos + 1) != TAG_RBRACKET {
                SizeResult::Fail { error: error_at(t, pos + 1, Diagnostic::ExpectedArrayEnd) }
            } else {
                SizeResult::Match { size: 0, pos: pos + 2 }
            },
            ExprResult::Fail { error } => SizeResult::Fail { error },
        }
    }
}

/// A type name: a type and an optional array declaration.
pub open spec fn full_type(t: Seq<Token>, env: Env, pos: int) -> TypeResult
    decreases t.len() - pos, 31int, 0int,
{
    match type_base(t, env, pos) {
        TypeResult::Match { ty, pos: p } => if !progress(t, pos, p) {
            TypeResult::NoMatch
        } else {
            match array_decl(t, env, p) {
                SizeResult::Match { size, pos: q } => TypeResult::Match {
                    ty: SymbolTypeView { num_elements: size, ..ty },
                    pos: q,
                },
                SizeResult::NoMatch => TypeResult::Match { ty, pos: p },
                SizeResult::Fail { error } => TypeResult::Fail { error },
            }
        },
        other => other,
    }
}

/// An expression.
pub open spec fn expr(t: Seq<Token>, env: Env, pos: int) -> ExprResult
    decreases t.len() - pos, 20int, 1int,
{
    expr_assign(t, env, pos)
}

/// An assignment, `unary = assignment`, or an expression of the binary
/// operators. The left side of an assignment is a storage location,
/// neither side is an array, and the right side can be cast to the left;
/// its result has the type of the left side.
pub open spec fn expr_assign(t: Seq<Token>, env: Env, pos: int) -> ExprResult
    decreases t.len() - pos, 20int, 0int,
{
    match expr_unary(t, env, pos) {
        ExprResult::Match { rv, pos: p } => if p > pos && tag_at(t, p) == TAG_ASSIGN {
            match expr_assign(t, env, p + 1) {
                ExprResult::Match { rv: right, pos: q } => if !rv.is_lval {
                    ExprResult::Fail { error: error_at(t, q, Diagnostic::AssignToNonLvalue) }
                } else if type_of(rv).is_array() || type_of(right).is_array() {
                    ExprResult::Fail { error: error_at(t, q, Diagnostic::ArrayAssigned) }
                } else {
                    match cast_failure(type_of(right), type_of(rv)) {
                        Some(d) => ExprResult::Fail { error: error_at(t, q, d) },
                        None => ExprResult::Match { rv: plain(type_of(rv)), pos: q },
                    }
                },
                ExprResult::NoMatch => ExprResult::Fail {
                    error: error_at(t, p + 1, Diagnostic::MissingAssignOperand),
                },
                ExprResult::Fail { error } => ExprResult::Fail { error },
            }
        } else {
            expr_binary(t, env, pos, Level::Or)
        },
        ExprResult::NoMatch => expr_binary(t, env, pos, Level::Or),
        ExprResult::Fail { error } => ExprResult::Fail { error },
    }
}

/// An operand of a binary operator of the level: an expression of the
/// next tighter level, and a cast for the tightest.
pub open spec fn operand(t: Seq<Token>, env: Env, pos: int, level: Level) -> ExprResult
    decreases t.len() - pos, 10 + level_rank(level), 0int,
{
    match level {
        Level::Or => expr_binary(t, env, pos, Level::And),
        Level::And => expr_binary(t, env, pos, Level::Eq),
        Level::Eq => expr_binary(t, env, pos, Level::Rel),
        Level::Rel => expr_binary(t, env, pos, Level::Add),
        Level::Add => expr_binary(t, env, pos, Level::Mul),
        Level::Mul => expr_cast(t, env, pos),
    }
}

/// Operands of one level with the operators of the level between them,
/// taken from the left.
pub open spec fn expr_binary(t: Seq<Token>, env: Env, pos: int, level: Level) -> ExprResult
    decreases t.len() - pos, 10 + level_rank(level), 1int,
{
    match operand(t, env, pos, level) {
        ExprResult::Match { rv, pos: p } => if !progress(t, pos, p) {
            ExprResult::NoMatch
        } else {
            binary_tail(t, env, p, level, rv)
        },
        other => other,
    }
}

/// What follows the operands read so far, whose result is `left`: an
/// operator of the level and a further operand, as often as they come.
pub open spec fn binary_tail(t: Seq<Token>, env: Env, pos: int, level: Level, left: RetValView) -> ExprResult
    decreases t.len() - pos, 10 + level_rank(level), 2int,
{
    if 0 <= pos < t.len() && is_operator(level, tag_at(t, pos)) {
        match operand(t, env, pos + 1, level) {
            ExprResult::Match { rv: right, pos: p } => if !progress(t, pos + 1, p) {
                ExprResult::NoMatch
            } else {
                match operand_failure(level, type_of(left), type_of(right)) {
                    Some(d) => ExprResult::Fail { error: error_at(t, p, d) },
                    None => binary_tail(
                        t,
                        env,
                        p,
                        level,
                        plain(operator_type(level, type_of(left), type_of(right))),
                    ),
                }
            },
            ExprResult::NoMatch => ExprResult::Fail {
                error: error_at(t, pos + 1, missing_operand(level)),
            },
            ExprResult::Fail { error } => ExprResult::Fail { error },
        }
    } else {
        ExprResult::Match { rv: left, pos }
    }
}

/// A cast, `( type ) cast`, or a unary expression. The operand can be
/// cast to the type, which is the type of the result.
pub open spec fn expr_cast(t: Seq<Token>, env: Env, pos: int) -> ExprResult
    decreases t.len() - pos, 9int, 0int,
{
    if 0 <= pos < t.len() && tag_at(t, pos) == TAG_LPAR && !(full_type(t, env, pos + 1)
        is NoMatch) {
        match full_type(t, env, pos + 1) {
            TypeResult::Match { ty, pos: p } => if !progress(t, pos, p) {
                ExprResult::NoMatch
            } else if tag_at(t, p) != TAG_RPAR {
                ExprResult::Fail { error: error_at(t, p, Diagnostic::ExpectedCastClose) }
            } else {
                match expr_cast(t, env, p + 1) {
                    ExprResult::Match { rv, pos: q } => match cast_failure(type_of(rv), ty) {
                        Some(d) => ExprResult::Fail { error: error_at(t, q - 1, d) },
                        None => ExprResult::Match { rv: plain(ty), pos: q },
                    },
                    ExprResult::NoMatch => ExprResult::Fail {
                        error: error_at(t, p + 1, Diagnostic::InvalidCastExpression),
                    },
                    ExprResult::Fail { error } => ExprResult::Fail { error },
                }
            },
            TypeResult::NoMatch => ExprResult::NoMatch,
            TypeResult::Fail { error } => ExprResult::Fail { error },
        }
    } else {
        expr_unary(t, env, pos)
    }
}

/// `-` or `!` before a unary expression, or a postfix expression. `-`
/// takes neither an array nor a structure, `!` no structure.
pub open spec fn expr_unary(t: Seq<Token>, env: Env, pos: int) -> ExprResult
    decreases t.len() - pos, 8int, 0int,
{
    let tag = tag_at(t, pos);
    if 0 <= pos < t.len() && (tag == TAG_SUB || tag == TAG_NOT) {
        match expr_unary(t, env, pos + 1) {
            ExprResult::Match { rv, pos: p } => if tag == TAG_SUB && type_of(rv).is_array() {
                ExprResult::Fail { error: error_at(t, p, Diagnostic::NegatedArray) }
            } else if tag == TAG_SUB && is_struct(type_of(rv)) {
                ExprResult::Fail { error: error_at(t, p, Diagnostic::NegatedStruct) }
            } else if tag == TAG_NOT && is_struct(type_of(rv)) {
                ExprResult::Fail { error: error_at(t, p, Diagnostic::NotOfStruct) }
            } else {
                ExprResult::Match { rv: plain(type_of(rv)), pos: p }
            },
            ExprResult::NoMatch => ExprResult::Fail {
                error: error_at(t, pos + 1, Diagnostic::InvalidUnaryExpression),
            },
            ExprResult::Fail { error } => ExprResult::Fail { error },
        }
    } else {
        expr_postfix(t, env, pos)
    }
}

/// A primary expression with the indexes and member accesses behind it.
pub open spec fn expr_postfix(t: Seq<Token>, env: Env, pos: int) -> ExprResult
    decreases t.len() - pos, 7int, 0int,
{
    match expr_primary(t, env, pos) {
        ExprResult::Match { rv, pos: p } => if !progress(t, pos, p) {
            ExprResult::NoMatch
        } else {
            postfix_tail(t, env, p, rv)
        },
        other => other,
    }
}

/// What follows a postfix expression whose result is `left`: `[ index ]`
/// on an array, with an index that can be cast to an integer, gives an
/// element; `. name` on a structure gives the member of that name.
pub open spec fn postfix_tail(t: Seq<Token>, env: Env, pos: int, left: RetValView) -> ExprResult
    decreases t.len() - pos, 7int, 1int,
{
    let tag = tag_at(t, pos);
    if 0 <= pos < t.len() && tag == TAG_LBRACKET {
        match expr(t, env, pos + 1) {
            ExprResult::Match { rv: index, pos: p } => if !progress(t, pos + 1, p) {
                ExprResult::NoMatch
            } else if !type_of(left).is_array() {
                ExprResult::Fail { error: error_at(t, p, Diagnostic::IndexedNonArray) }
            } else {
                match cast_failure(type_of(index), int_type()) {
                    Some(d) => ExprResult::Fail { error: error_at(t, p, d) },
                    None => if tag_at(t, p) != TAG_RBRACKET {
                        ExprResult::Fail { error: error_at(t, p, Diagnostic::ExpectedIndexClose) }
                    } else {
                        postfix_tail(
                            t,
                            env,
                            p + 1,
                            location(SymbolTypeView { num_elements: -1, ..type_of(left) }),
                        )
                    },
                }
            },
            ExprResult::NoMatch => ExprResult::Fail {
                error: error_at(t, pos + 1, Diagnostic::ExpectedIndexExpression),
            },
            ExprResult::Fail { error } => ExprResult::Fail { error },
        }
    } else if 0 <= pos < t.len() && tag == TAG_DOT {
        if tag_at(t, pos + 1) != TAG_ID {
            ExprResult::Fail { error: error_at(t, pos + 1, Diagnostic::ExpectedMemberIdentifier) }
        } else {
            match member_type(env, type_of(left), name_at(t, pos + 1)) {
                Ok(ty) => postfix_tail(t, env, pos + 2, location(ty)),
                Err(d) => ExprResult::Fail { error: error_at(t, pos + 2, d) },
            }
        }
    } else {
        ExprResult::Match { rv: left, pos }
    }
}

/// The type of the member `name` of a value of type `ty`: the type is a
/// structure, which the global scope holds, and the structure has the member.
pub open spec fn member_type(env: Env, ty: SymbolTypeView, name: Seq<char>) -> Result<
    SymbolTypeView,
    Diagnostic,
> {
    match ty.struct_symbol {
        None => Err(Diagnostic::ParentNotAStruct),
        Some(s) => match find_global(env.scopes, s) {
            None => Err(Diagnostic::ParentNotAStruct),
            Some(def) => match def.member(name) {
                Some(m) => Ok(m.symbol_type),
                None => Err(Diagnostic::NoSuchMember),
            },
        },
    }
}

/// The arguments of a call from the `count`-th on, `pos` standing behind
/// `(` or behind an argument: each can be cast to the parameter in its
/// place, there are as many as parameters, and `)` follows. The result
/// is the index of the token behind `)`.
pub open spec fn call_args(
    t: Seq<Token>,
    env: Env,
    pos: int,
    params: Seq<SymbolView>,
    count: int,
    first: bool,
) -> Result<int, CompileError>
    decreases t.len() - pos, 25int, 0int,
{
    if !first && tag_at(t, pos) != TAG_COMMA || !(0 <= pos < t.len()) {
        close_call(t, pos, params, count)
    } else {
        let start = if first {
            pos
        } else {
            pos + 1
        };
        match expr(t, env, start) {
            ExprResult::Match { rv, pos: p } => if !progress(t, start, p) {
                close_call(t, pos, params, count)
            } else if count < 0 || count >= params.len() {
                Err(error_at(t, p, Diagnostic::TooManyArguments))
            } else {
                match cast_failure(type_of(rv), params[count].symbol_type) {
                    Some(d) => Err(error_at(t, p, d)),
                    None => call_args(t, env, p, params, count + 1, false),
                }
            },
            ExprResult::NoMatch => if first {
                close_call(t, pos, params, count)
            } else {
                Err(error_at(t, start, Diagnostic::ExpectedArgumentExpression))
            },
            ExprResult::Fail { error } => Err(error),
        }
    }
}

/// The end of a call with `count` arguments.
pub open spec fn close_call(
    t: Seq<Token>,
    pos: int,
    params: Seq<SymbolView>,
    count: int,
) -> Result<int, CompileError> {
    if tag_at(t, pos) != TAG_RPAR {
        Err(error_at(t, pos, Diagnostic::ExpectedCallClose))
    } else if count < params.len() {
        Err(error_at(t, pos + 1, Diagnostic::TooFewArguments))
    } else {
        Ok(pos + 1)
    }
}

/// A primary expression: a name, which a scope binds, with the arguments
/// of a call where it is called; a literal; or an expression in parentheses.
pub open spec fn expr_primary(t: Seq<Token>, env: Env, pos: int) -> ExprResult
    decreases t.len() - pos, 6int, 0int,
{
    if !(0 <= pos < t.len()) {
        ExprResult::NoMatch
    } else {
        match t[pos]@.kind {
            TokenTypeView::Id(name) => match find_in_scopes(env.scopes, name) {
                None => ExprResult::Fail { error: error_at(t, pos + 1, Diagnostic::UndefinedSymbol) },
                Some(s) => if tag_at(t, pos + 1) == TAG_LPAR {
                    if !is_function(s) {
                        ExprResult::Fail { error: error_at(t, pos + 2, Diagnostic::NotAFunction) }
                    } else {
                        match call_args(t, env, pos + 2, parameters(s), 0, true) {
                            Ok(p) => ExprResult::Match { rv: plain(s.symbol_type), pos: p },
                            Err(error) => ExprResult::Fail { error },
                        }
                    }
                } else if is_function(s) {
                    ExprResult::Match { rv: plain(s.symbol_type), pos: pos + 1 }
                } else {
                    ExprResult::Match { rv: location(s.symbol_type), pos: pos + 1 }
                },
            },
            TokenTypeView::CtInt(i) => ExprResult::Match {
                rv: constant(int_type(), CtValView::IntChar(i)),
                pos: pos + 1,
            },
            TokenTypeView::CtChar(c) => ExprResult::Match {
                rv: constant(SymbolTypeView::scalar(TypeName::TbChar), CtValView::IntChar(c as int)),
                pos: pos + 1,
            },
            TokenTypeView::CtReal(s) => ExprResult::Match {
                rv: constant(SymbolTypeView::scalar(TypeName::TbDouble), CtValView::Double(s)),
                pos: pos + 1,
            },
            TokenTypeView::CtString(s) => ExprResult::Match {
                rv: constant(
                    SymbolTypeView { type_base: TypeName::TbChar, struct_symbol: None, num_elements: 0 },
                    CtValView::String(s),
                ),
                pos: pos + 1,
            },
            TokenTypeView::Lpar => match expr(t, env, pos + 1) {
                ExprResult::Match { rv, pos: p } => if tag_at(t, p) != TAG_RPAR {
                    ExprResult::Fail { error: error_at(t, p, Diagnostic::ExpectedParenthesisClose) }
                } else {
                    ExprResult::Match { rv, pos: p + 1 }
                },
                ExprResult::NoMatch => ExprResult::NoMatch,
                ExprResult::Fail { error } => ExprResult::Fail { error },
            },
            _ => ExprResult::NoMatch,
        }
    }
}

/// The type of `a op b`, where `op` is one of `+ - * /` and the operands
/// go together, is the common arithmetic type of the types of `a` and `b`.
pub proof fn law_arithmetic_type(level: Level, a: SymbolTypeView, b: SymbolTypeView)
    requires
        level == Level::Add || level == Level::Mul,
        operand_failure(level, a, b) is None,
    ensures
        arith_result(a, b) == Some(operator_type(level, a, b)),
{
}

/// An operator and its right operand behind operands whose result is
/// `left` give an expression of the type of the operator, which is
/// neither a storage location nor a constant, before the rest is read.
pub proof fn law_binary_step(
    t: Seq<Token>,
    env: Env,
    pos: int,
    level: Level,
    left: RetValView,
    right: RetValView,
    p: int,
)
    requires
        0 <= pos < t.len(),
        is_operator(level, tag_at(t, pos)),
        operand(t, env, pos + 1, level) == (ExprResult::Match { rv: right, pos: p }),
        progress(t, pos + 1, p),
        operand_failure(level, type_of(left), type_of(right)) is None,
    ensures
        binary_tail(t, env, pos, level, left) == binary_tail(
            t,
            env,
            p,
            level,
            plain(operator_type(level, type_of(left), type_of(right))),
        ),
{
}

} // verus!
