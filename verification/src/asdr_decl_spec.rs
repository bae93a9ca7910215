//! The mathematical description of the analysis of declarations and
//! statements: which tokens form them, which symbols they define in which
//! scope, and which error ends the analysis.

use crate::asdr_spec::{
    array_decl, error_at, expr, is_struct, line_at, name_at, progress, tag_at, type_base,
    type_of, Env, ExprResult, SizeResult, TypeResult, TAG_BREAK, TAG_COMMA, TAG_ELSE, TAG_END,
    TAG_ERROR, TAG_FOR, TAG_ID, TAG_IF, TAG_LACC, TAG_LPAR, TAG_MUL, TAG_RACC, TAG_RETURN,
    TAG_RPAR, TAG_SEMICOLON, TAG_STRUCT, TAG_VOID, TAG_WHILE,
};
use crate::error::{CompileError, Diagnostic};
use crate::lexer::Token;
use crate::symbols::{
    cast_failure, find_entry, insert_entry, register_builtins, AddrOffset, ClassType,
    ContextView, StorageType, SymbolTypeView, SymbolView, TypeName,
};
use vstd::prelude::*;

verus! {

/// The outcome of the analysis of a declaration or a statement from some
/// token on.
pub enum StmResult {
    /// One stands there: what is known of the program behind it, and the
    /// index of the token behind it.
    Match { env: Env, pos: int },
    /// None stands there, and nothing has changed.
    NoMatch,
    /// The analysis ends with an error.
    Fail { error: CompileError },
}

/// A symbol without members and without a place in memory yet.
#[verifier::opaque]
pub open spec fn new_symbol(
    name: Seq<char>,
    class: ClassType,
    storage: StorageType,
    symbol_type: SymbolTypeView,
    line: usize,
    env: Env,
    members: bool,
) -> SymbolView {
    SymbolView {
        name,
        class,
        storage,
        symbol_type,
        depth: if env.scopes.len() > 0 {
            env.scopes.last().depth
        } else {
            0
        },
        line: line as int,
        am: if members {
            Some(Seq::empty())
        } else {
            None
        },
        table: if class == ClassType::ClsVar && storage != StorageType::MemArg
            && env.scopes.len() > 0 {
            env.scopes.len() - 1
        } else {
            0
        },
        ao: AddrOffset::Offset(0),
    }
}

/// The program with one more scope opened, inside the innermost.
pub open spec fn open_scope(env: Env, storage: StorageType) -> Env {
    Env {
        scopes: env.scopes.push(
            ContextView { symbols: Seq::empty(), storage, depth: env.scopes.len() as int },
        ),
        ..env
    }
}

/// The program with the innermost scope closed.
pub open spec fn close_scope(env: Env) -> Env {
    if env.scopes.len() > 0 {
        Env { scopes: env.scopes.drop_last(), ..env }
    } else {
        env
    }
}

/// The program after a symbol is defined in the innermost scope. A symbol
/// of its name in that scope makes it an error at the line of the new one.
#[verifier::opaque]
pub open spec fn define(env: Env, symbol: SymbolView) -> Result<Env, CompileError> {
    if env.scopes.len() == 0 {
        Ok(env)
    } else if find_entry(env.scopes.last().symbols, symbol.name) is Some {
        Err(CompileError { diagnostic: Diagnostic::SymbolAlreadyDefined, line: symbol.line as usize })
    } else {
        Ok(
            Env {
                scopes: env.scopes.update(
                    env.scopes.len() - 1,
                    ContextView {
                        symbols: env.scopes.last().symbols.push((symbol.name, symbol)),
                        ..env.scopes.last()
                    },
                ),
                ..env
            },
        )
    }
}

/// The program after a member is added to the symbol that is being
/// defined, which the global scope then binds anew. A member of that
/// name makes it an error at the line of the new one.
#[verifier::opaque]
pub open spec fn add_member(env: Env, member: SymbolView) -> Result<Env, CompileError> {
    match env.current_symbol {
        None => Ok(env),
        Some(cs) => if cs.member(member.name) is Some {
            Err(
                CompileError {
                    diagnostic: Diagnostic::SymbolAlreadyDefined,
                    line: member.line as usize,
                },
            )
        } else if env.scopes.len() == 0 {
            Ok(Env { current_symbol: Some(cs.with_member(member)), ..env })
        } else {
            Ok(
                Env {
                    scopes: env.scopes.update(
                        0,
                        ContextView {
                            symbols: insert_entry(
                                env.scopes[0].symbols,
                                cs.name,
                                cs.with_member(member),
                            ),
                            ..env.scopes[0]
                        },
                    ),
                    current_symbol: Some(cs.with_member(member)),
                    ..env
                },
            )
        },
    }
}

/// The program after a variable is declared: inside the definition of a
/// structure it is a member of the structure; inside a function it is a
/// local of the innermost scope; else it is a global.
#[verifier::opaque]
pub open spec fn add_var(env: Env, name: Seq<char>, line: usize, ty: SymbolTypeView) -> Result<
    Env,
    CompileError,
> {
    match env.current_symbol {
        Some(cs) => if cs.class == ClassType::ClsStruct {
            add_member(
                env,
                new_symbol(name, ClassType::ClsVar, StorageType::MemStruct, ty, line, env, false),
            )
        } else if cs.class == ClassType::ClsFunc {
            define(
                env,
                new_symbol(name, ClassType::ClsVar, StorageType::MemLocal, ty, line, env, false),
            )
        } else {
            Ok(env)
        },
        None => define(
            env,
            new_symbol(name, ClassType::ClsVar, StorageType::MemGlobal, ty, line, env, false),
        ),
    }
}

/// The program after a parameter of the function that is being defined is
/// declared: a symbol of the scope of the function and, while the
/// parameters are read, a member of the function.
#[verifier::opaque]
pub open spec fn add_func_arg(env: Env, name: Seq<char>, line: usize, ty: SymbolTypeView) -> Result<
    Env,
    CompileError,
> {
    let symbol = new_symbol(name, ClassType::ClsVar, StorageType::MemArg, ty, line, env, false);
    match define(env, symbol) {
        Err(e) => Err(e),
        Ok(defined) => if env.is_function_context {
            add_member(defined, symbol)
        } else {
            Ok(defined)
        },
    }
}

/// The type of a declared name: the declared type as an array of the
/// declared size, or as a scalar without an array declaration.
pub open spec fn declared_type(ty: SymbolTypeView, size: Option<int>) -> SymbolTypeView {
    SymbolTypeView {
        num_elements: match size {
            Some(n) => n,
            None => -1,
        },
        ..ty
    }
}

/// The names of a variable declaration behind the first, and its end:
/// `, name array?` as often as it comes, and `;`.
pub open spec fn decl_var_rest(
    t: Seq<Token>,
    env: Env,
    pos: int,
    ty: SymbolTypeView,
    is_array: bool,
) -> StmResult
    decreases t.len() - pos, 40int, 0int,
{
    if 0 <= pos < t.len() && tag_at(t, pos) == TAG_COMMA {
        if tag_at(t, pos + 1) != TAG_ID {
            StmResult::Fail { error: error_at(t, pos + 1, Diagnostic::ExpectedIdentifierAfterComma) }
        } else {
            match array_decl(t, env, pos + 2) {
                SizeResult::Match { size, pos: q } => if !progress(t, pos, q) {
                    StmResult::Match { env, pos }
                } else {
                    match add_var(
                        env,
                        name_at(t, pos + 1),
                        line_at(t, pos + 1),
                        declared_type(ty, Some(size)),
                    ) {
                        Ok(e) => decl_var_rest(t, e, q, ty, true),
                        Err(error) => StmResult::Fail { error },
                    }
                },
                SizeResult::NoMatch => match add_var(
                    env,
                    name_at(t, pos + 1),
                    line_at(t, pos + 1),
                    declared_type(ty, None),
                ) {
                    Ok(e) => decl_var_rest(t, e, pos + 2, ty, true),
                    Err(error) => StmResult::Fail { error },
                },
                SizeResult::Fail { error } => StmResult::Fail { error },
            }
        }
    } else if tag_at(t, pos) == TAG_SEMICOLON {
        StmResult::Match { env, pos: pos + 1 }
    } else if is_array {
        StmResult::Fail { error: error_at(t, pos, Diagnostic::ExpectedSemicolonAfterDeclaration) }
    } else {
        StmResult::Fail { error: error_at(t, pos, Diagnostic::ExpectedDeclarationEnd) }
    }
}

/// A declaration of variables: a type, a name with an optional array
/// declaration, further names after commas, and `;`.
pub open spec fn decl_var(t: Seq<Token>, env: Env, pos: int) -> StmResult {
    match type_base(t, env, pos) {
        TypeResult::Match { ty, pos: p } => if tag_at(t, p) != TAG_ID {
            StmResult::Fail { error: error_at(t, p, Diagnostic::ExpectedIdentifier) }
        } else {
            match array_decl(t, env, p + 1) {
                SizeResult::Match { size, pos: q } => match add_var(
                    env,
                    name_at(t, p),
                    line_at(t, p),
                    declared_type(ty, Some(size)),
                ) {
                    Ok(e) => decl_var_rest(t, e, q, ty, true),
                    Err(error) => StmResult::Fail { error },
                },
                SizeResult::NoMatch => match add_var(
                    env,
                    name_at(t, p),
                    line_at(t, p),
                    declared_type(ty, None),
                ) {
                    Ok(e) => decl_var_rest(t, e, p + 1, ty, false),
                    Err(error) => StmResult::Fail { error },
                },
                SizeResult::Fail { error } => StmResult::Fail { error },
            }
        },
        TypeResult::NoMatch => StmResult::NoMatch,
        TypeResult::Fail { error } => StmResult::Fail { error },
    }
}

/// The members of a structure: declarations of variables, as many as come.
pub open spec fn struct_fields(t: Seq<Token>, env: Env, pos: int) -> StmResult
    decreases t.len() - pos,
{
    match decl_var(t, env, pos) {
        StmResult::Match { env: e, pos: p } => if !progress(t, pos, p) {
            StmResult::Match { env, pos }
        } else {
            struct_fields(t, e, p)
        },
        StmResult::NoMatch => StmResult::Match { env, pos },
        StmResult::Fail { error } => StmResult::Fail { error },
    }
}

/// The definition of a structure: `struct name { members } ;`. The
/// structure is a symbol of the global scope with its members.
pub open spec fn decl_struct(t: Seq<Token>, env: Env, pos: int) -> StmResult {
    if tag_at(t, pos) != TAG_STRUCT {
        StmResult::NoMatch
    } else if tag_at(t, pos + 1) != TAG_ID {
        StmResult::Fail { error: error_at(t, pos + 1, Diagnostic::ExpectedStructIdentifier) }
    } else if tag_at(t, pos + 2) != TAG_LACC {
        StmResult::NoMatch
    } else {
        let symbol = new_symbol(
            name_at(t, pos + 1),
            ClassType::ClsStruct,
            StorageType::MemGlobal,
            SymbolTypeView::scalar(TypeName::TbStruct),
            line_at(t, pos + 1),
            env,
            true,
        );
        match define(env, symbol) {
            Err(error) => StmResult::Fail { error },
            Ok(defined) => match struct_fields(
                t,
                Env { current_symbol: Some(symbol), ..open_scope(defined, StorageType::MemStruct) },
                pos + 3,
            ) {
                StmResult::Match { env: e, pos: q } => if tag_at(t, q) != TAG_RACC {
                    StmResult::Fail { error: error_at(t, q, Diagnostic::ExpectedStructEnd) }
                } else if tag_at(t, q + 1) != TAG_SEMICOLON {
                    StmResult::Fail {
                        error: error_at(t, q + 1, Diagnostic::ExpectedSemicolonAfterStruct),
                    }
                } else {
                    StmResult::Match { env: Env { current_symbol: None, ..close_scope(e) }, pos: q + 2 }
                },
                StmResult::NoMatch => StmResult::NoMatch,
                StmResult::Fail { error } => StmResult::Fail { error },
            },
        }
    }
}

/// A parameter of a function: a type, a name and an optional array
/// declaration.
pub open spec fn func_arg(t: Seq<Token>, env: Env, pos: int) -> StmResult {
    match type_base(t, env, pos) {
        TypeResult::Match { ty, pos: p } => if tag_at(t, p) != TAG_ID {
            StmResult::Fail { error: error_at(t, p, Diagnostic::ExpectedArgumentIdentifier) }
        } else {
            match array_decl(t, env, p + 1) {
                SizeResult::Match { size, pos: q } => match add_func_arg(
                    env,
                    name_at(t, p),
                    line_at(t, p),
                    declared_type(ty, Some(size)),
                ) {
                    Ok(e) => StmResult::Match { env: e, pos: q },
                    Err(error) => StmResult::Fail { error },
                },
                SizeResult::NoMatch => match add_func_arg(
                    env,
                    name_at(t, p),
                    line_at(t, p),
                    declared_type(ty, None),
                ) {
                    Ok(e) => StmResult::Match { env: e, pos: p + 1 },
                    Err(error) => StmResult::Fail { error },
                },
                SizeResult::Fail { error } => StmResult::Fail { error },
            }
        },
        TypeResult::NoMatch => StmResult::NoMatch,
        TypeResult::Fail { error } => StmResult::Fail { error },
    }
}

/// The parameters of a function behind the first, and `)`.
pub open spec fn func_args_rest(t: Seq<Token>, env: Env, pos: int) -> StmResult
    decreases t.len() - pos,
{
    if 0 <= pos < t.len() && tag_at(t, pos) == TAG_COMMA {
        match func_arg(t, env, pos + 1) {
            StmResult::Match { env: e, pos: p } => if !progress(t, pos, p) {
                StmResult::Match { env, pos }
            } else {
                func_args_rest(t, e, p)
            },
            StmResult::NoMatch => StmResult::Fail {
                error: error_at(t, pos + 1, Diagnostic::ExpectedArgumentAfterComma),
            },
            StmResult::Fail { error } => StmResult::Fail { error },
        }
    } else if tag_at(t, pos) != TAG_RPAR {
        StmResult::Fail { error: error_at(t, pos, Diagnostic::ExpectedArgumentsEnd) }
    } else {
        StmResult::Match { env, pos: pos + 1 }
    }
}

/// The head of the definition of a function: its return type, `type`,
/// `type *` or `void`, behind which its name stands.
pub open spec fn func_head(t: Seq<Token>, env: Env, pos: int) -> TypeResult {
    match type_base(t, env, pos) {
        TypeResult::Match { ty, pos: p } => if tag_at(t, p) == TAG_MUL {
            TypeResult::Match { ty: declared_type(ty, Some(0)), pos: p + 1 }
        } else {
            TypeResult::Match { ty: declared_type(ty, None), pos: p }
        },
        TypeResult::NoMatch => if tag_at(t, pos) == TAG_VOID {
            TypeResult::Match { ty: SymbolTypeView::scalar(TypeName::TbVoid), pos: pos + 1 }
        } else {
            TypeResult::NoMatch
        },
        TypeResult::Fail { error } => TypeResult::Fail { error },
    }
}

/// The definition of a function: its head, its name, its parameters in
/// parentheses and its body. The function is a symbol of the global
/// scope with its parameters as members; the parameters and the locals
/// of the body live in one scope, which is closed behind the body.
pub open spec fn decl_func(t: Seq<Token>, env: Env, pos: int) -> StmResult {
    match func_head(t, env, pos) {
        TypeResult::Match { ty, pos: p } => if tag_at(t, p) != TAG_ID || tag_at(t, p + 1)
            != TAG_LPAR {
            StmResult::NoMatch
        } else if env.scopes.len() != 1 {
            StmResult::Fail { error: error_at(t, p + 2, Diagnostic::FunctionBelowGlobalScope) }
        } else {
            let symbol = new_symbol(
                name_at(t, p),
                ClassType::ClsFunc,
                StorageType::MemGlobal,
                ty,
                line_at(t, p),
                env,
                true,
            );
            match define(env, symbol) {
                Err(error) => StmResult::Fail { error },
                Ok(defined) => {
                    let inside = Env {
                        current_symbol: Some(symbol),
                        is_function_context: true,
                        ..open_scope(defined, StorageType::MemLocal)
                    };
                    let args = match func_arg(t, inside, p + 2) {
                        StmResult::Match { env: e, pos: q } => func_args_rest(t, e, q),
                        StmResult::NoMatch => func_args_rest(t, inside, p + 2),
                        StmResult::Fail { error } => StmResult::Fail { error },
                    };
                    match args {
                        StmResult::Match { env: e, pos: q } => match stm_compound(t, e, q) {
                            StmResult::Match { env: body, pos: r } => StmResult::Match {
                                env: Env {
                                    current_symbol: None,
                                    is_function_context: false,
                                    ..close_scope(body)
                                },
                                pos: r,
                            },
                            StmResult::NoMatch => StmResult::Fail {
                                error: error_at(t, q, Diagnostic::ExpectedFunctionBody),
                            },
                            StmResult::Fail { error } => StmResult::Fail { error },
                        },
                        other => other,
                    }
                },
            }
        },
        TypeResult::NoMatch => StmResult::NoMatch,
        TypeResult::Fail { error } => StmResult::Fail { error },
    }
}

/// The return type of the function that is being defined.
pub open spec fn return_type(env: Env) -> SymbolTypeView {
    match env.current_symbol {
        Some(s) => s.symbol_type,
        None => SymbolTypeView::scalar(TypeName::TbVoid),
    }
}

/// A condition in parentheses, behind the keyword at `pos - 1`: `(`, an
/// expression that is no structure, and `)`. The result is the index of
/// the token behind `)`.
pub open spec fn condition(
    t: Seq<Token>,
    env: Env,
    pos: int,
    open: Diagnostic,
    missing: Diagnostic,
    close: Diagnostic,
) -> Result<int, CompileError> {
    if tag_at(t, pos) != TAG_LPAR {
        Err(error_at(t, pos, open))
    } else {
        match expr(t, env, pos + 1) {
            ExprResult::Match { rv, pos: p } => if is_struct(type_of(rv)) {
                Err(error_at(t, p, Diagnostic::StructTested))
            } else if tag_at(t, p) != TAG_RPAR {
                Err(error_at(t, p, close))
            } else {
                Ok(p + 1)
            },
            ExprResult::NoMatch => Err(error_at(t, pos + 1, missing)),
            ExprResult::Fail { error } => Err(error),
        }
    }
}

/// An optional expression and the token `end` behind it, from `pos` on:
/// the index of the token behind `end`. Where `test` holds, the
/// expression is no structure.
pub open spec fn optional_expr(
    t: Seq<Token>,
    env: Env,
    pos: int,
    end: u8,
    test: bool,
    missing: Diagnostic,
) -> Result<int, CompileError> {
    match expr(t, env, pos) {
        ExprResult::Match { rv, pos: p } => if test && is_struct(type_of(rv)) {
            Err(error_at(t, p, Diagnostic::StructTested))
        } else if tag_at(t, p) != end {
            Err(error_at(t, p, missing))
        } else {
            Ok(p + 1)
        },
        ExprResult::NoMatch => if tag_at(t, pos) != end {
            Err(error_at(t, pos, missing))
        } else {
            Ok(pos + 1)
        },
        ExprResult::Fail { error } => Err(error),
    }
}

/// The head of a `for`, behind the keyword: `( expr? ; expr? ; expr? )`.
/// The result is the index of the token behind `)`.
pub open spec fn for_head(t: Seq<Token>, env: Env, pos: int) -> Result<int, CompileError> {
    if tag_at(t, pos) != TAG_LPAR {
        Err(error_at(t, pos, Diagnostic::ExpectedForOpen))
    } else {
        match optional_expr(
            t,
            env,
            pos + 1,
            TAG_SEMICOLON,
            false,
            Diagnostic::ExpectedForFirstSemicolon,
        ) {
            Ok(p) => match optional_expr(
                t,
                env,
                p,
                TAG_SEMICOLON,
                true,
                Diagnostic::ExpectedForSecondSemicolon,
            ) {
                Ok(q) => optional_expr(t, env, q, TAG_RPAR, false, Diagnostic::ExpectedForClose),
                Err(e) => Err(e),
            },
            Err(e) => Err(e),
        }
    }
}

/// A `return`, behind the keyword: a function that returns nothing
/// returns no value; any other returns a value that can be cast to its
/// return type; `;` follows. The result is the index of the token behind `;`.
pub open spec fn return_rest(t: Seq<Token>, env: Env, pos: int) -> Result<int, CompileError> {
    match expr(t, env, pos) {
        ExprResult::Match { rv, pos: p } => if return_type(env).type_base == TypeName::TbVoid {
            Err(error_at(t, p, Diagnostic::VoidReturnsValue))
        } else {
            match cast_failure(type_of(rv), return_type(env)) {
                Some(d) => Err(error_at(t, p, d)),
                None => if tag_at(t, p) != TAG_SEMICOLON {
                    Err(error_at(t, p, Diagnostic::ExpectedSemicolonAfterReturn))
                } else {
                    Ok(p + 1)
                },
            }
        },
        ExprResult::NoMatch => if return_type(env).type_base != TypeName::TbVoid {
            Err(error_at(t, pos, Diagnostic::MissingReturnValue))
        } else if tag_at(t, pos) != TAG_SEMICOLON {
            Err(error_at(t, pos, Diagnostic::ExpectedSemicolonAfterReturn))
        } else {
            Ok(pos + 1)
        },
        ExprResult::Fail { error } => Err(error),
    }
}

/// A statement that another statement needs behind the token at `pos - 1`.
pub open spec fn required_stm(t: Seq<Token>, env: Env, pos: int, missing: Diagnostic) -> StmResult
    decreases t.len() - pos, 3int,
{
    match stm(t, env, pos) {
        StmResult::NoMatch => StmResult::Fail { error: error_at(t, pos, missing) },
        other => other,
    }
}

/// A statement: a block; `if`, `while` or `for` with the statement that
/// it governs; `break ;`; `return`; an expression and `;`; or `;` alone.
pub open spec fn stm(t: Seq<Token>, env: Env, pos: int) -> StmResult
    decreases t.len() - pos, 2int,
{
    let tag = tag_at(t, pos);
    if !(0 <= pos < t.len()) {
        StmResult::NoMatch
    } else if tag == TAG_LACC {
        stm_compound(t, env, pos)
    } else if tag == TAG_IF {
        match condition(
            t,
            env,
            pos + 1,
            Diagnostic::ExpectedIfOpen,
            Diagnostic::ExpectedIfCondition,
            Diagnostic::ExpectedIfClose,
        ) {
            Err(error) => StmResult::Fail { error },
            Ok(p) => if !progress(t, pos, p) {
                StmResult::NoMatch
            } else {
                match required_stm(t, env, p, Diagnostic::ExpectedIfStatement) {
                    StmResult::Match { env: e, pos: q } => if progress(t, pos, q) && q < t.len()
                        && tag_at(t, q) == TAG_ELSE {
                        required_stm(t, e, q + 1, Diagnostic::ExpectedElseStatement)
                    } else {
                        StmResult::Match { env: e, pos: q }
                    },
                    other => other,
                }
            },
        }
    } else if tag == TAG_WHILE {
        match condition(
            t,
            env,
            pos + 1,
            Diagnostic::ExpectedWhileOpen,
            Diagnostic::ExpectedWhileCondition,
            Diagnostic::ExpectedWhileClose,
        ) {
            Err(error) => StmResult::Fail { error },
            Ok(p) => if !progress(t, pos, p) {
                StmResult::NoMatch
            } else {
                required_stm(t, env, p, Diagnostic::ExpectedWhileStatement)
            },
        }
    } else if tag == TAG_FOR {
        match for_head(t, env, pos + 1) {
            Err(error) => StmResult::Fail { error },
            Ok(p) => if !progress(t, pos, p) {
                StmResult::NoMatch
            } else {
                required_stm(t, env, p, Diagnostic::ExpectedForStatement)
            },
        }
    } else if tag == TAG_BREAK {
        if tag_at(t, pos + 1) != TAG_SEMICOLON {
            StmResult::Fail { error: error_at(t, pos + 1, Diagnostic::ExpectedSemicolonAfterBreak) }
        } else {
            StmResult::Match { env, pos: pos + 2 }
        }
    } else if tag == TAG_RETURN {
        match return_rest(t, env, pos + 1) {
            Ok(p) => StmResult::Match { env, pos: p },
            Err(error) => StmResult::Fail { error },
        }
    } else {
        match expr(t, env, pos) {
            ExprResult::Match { rv, pos: p } => if tag_at(t, p) != TAG_SEMICOLON {
                StmResult::Fail {
                    error: error_at(t, p, Diagnostic::ExpectedSemicolonAfterExpression),
                }
            } else {
                StmResult::Match { env, pos: p + 1 }
            },
            ExprResult::NoMatch => if tag == TAG_SEMICOLON {
                StmResult::Match { env, pos: pos + 1 }
            } else {
                StmResult::NoMatch
            },
            ExprResult::Fail { error } => StmResult::Fail { error },
        }
    }
}

/// The declarations and statements of a block, as many as come.
pub open spec fn block_items(t: Seq<Token>, env: Env, pos: int) -> StmResult
    decreases t.len() - pos, 4int,
{
    match decl_var(t, env, pos) {
        StmResult::Match { env: e, pos: p } => if !progress(t, pos, p) {
            StmResult::Match { env, pos }
        } else {
            block_items(t, e, p)
        },
        StmResult::Fail { error } => StmResult::Fail { error },
        StmResult::NoMatch => match stm(t, env, pos) {
            StmResult::Match { env: e, pos: p } => if !progress(t, pos, p) {
                StmResult::Match { env, pos }
            } else {
                block_items(t, e, p)
            },
            StmResult::NoMatch => StmResult::Match { env, pos },
            StmResult::Fail { error } => StmResult::Fail { error },
        },
    }
}

/// A block: `{`, declarations and statements, `}`. It opens a scope of
/// its own, which it closes at its end, unless it is the body of a
/// function, whose scope the parameters have opened.
pub open spec fn stm_compound(t: Seq<Token>, env: Env, pos: int) -> StmResult
    decreases t.len() - pos, 1int,
{
    if !(0 <= pos < t.len()) || tag_at(t, pos) != TAG_LACC {
        StmResult::NoMatch
    } else {
        let inside = if env.is_function_context {
            Env { is_function_context: false, ..env }
        } else {
            open_scope(env, StorageType::MemLocal)
        };
        match block_items(t, inside, pos + 1) {
            StmResult::Match { env: e, pos: q } => if tag_at(t, q) != TAG_RACC {
                StmResult::Fail { error: error_at(t, q, Diagnostic::ExpectedBlockEnd) }
            } else if env.is_function_context {
                StmResult::Match { env: e, pos: q + 1 }
            } else {
                StmResult::Match { env: close_scope(e), pos: q + 1 }
            },
            other => other,
        }
    }
}

/// The definitions of a program from `pos` on: structures, functions and
/// variables, as many as come, and the end of the tokens behind them.
pub open spec fn unit_items(t: Seq<Token>, env: Env, pos: int) -> Result<Env, CompileError>
    decreases t.len() - pos,
{
    match top_item(t, env, pos) {
        StmResult::Match { env: e, pos: p } => if !progress(t, pos, p) {
            Err(error_at(t, pos, Diagnostic::ExpectedDeclaration))
        } else {
            unit_items(t, e, p)
        },
        StmResult::NoMatch => if tag_at(t, pos) == TAG_END {
            Ok(env)
        } else {
            Err(error_at(t, pos, Diagnostic::ExpectedDeclaration))
        },
        StmResult::Fail { error } => Err(error),
    }
}

/// One definition of a program: a structure, a function or variables.
pub open spec fn top_item(t: Seq<Token>, env: Env, pos: int) -> StmResult {
    match decl_struct(t, env, pos) {
        StmResult::NoMatch => match decl_func(t, env, pos) {
            StmResult::NoMatch => decl_var(t, env, pos),
            other => other,
        },
        other => other,
    }
}

/// The index of the first token that the lexer could not read, from `pos` on.
pub open spec fn first_error(t: Seq<Token>, pos: int) -> Option<int>
    decreases t.len() - pos,
{
    if !(0 <= pos < t.len()) {
        None
    } else if tag_at(t, pos) == TAG_ERROR {
        Some(pos)
    } else {
        first_error(t, pos + 1)
    }
}

/// The global scope at the start of a program: the routines of the host.
pub open spec fn initial_env() -> Env {
    Env {
        scopes: seq![
            ContextView {
                symbols: register_builtins(Seq::empty(), 0).0,
                storage: StorageType::MemGlobal,
                depth: 0,
            },
        ],
        current_symbol: None,
        is_function_context: false,
    }
}

/// The analysis of a program: a token that the lexer could not read ends
/// it at once; else the definitions are analysed from the first token on,
/// in a global scope that holds the routines of the host. The result is
/// what is known of the program at its end.
pub open spec fn analysis(t: Seq<Token>) -> Result<Env, CompileError> {
    match first_error(t, 0) {
        Some(i) => Err(error_at(t, i, Diagnostic::InvalidToken)),
        None => if !register_builtins(Seq::empty(), 0).1 {
            Err(CompileError { diagnostic: Diagnostic::SymbolAlreadyDefined, line: 0 })
        } else {
            unit_items(t, initial_env(), 0)
        },
    }
}

} // verus!
