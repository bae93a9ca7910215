//! The rules of declarations and statements, and the analysis of a whole
//! program.

use crate::asdr::SyntaxAnalyser;
use crate::asdr_decl::sized;
use crate::asdr_decl_spec::{
    analysis, block_items, condition, decl_func, decl_struct, decl_var, decl_var_rest,
    first_error, for_head, func_arg, func_args_rest, func_head, initial_env, optional_expr,
    required_stm, return_rest, return_type, stm, stm_compound, struct_fields, top_item,
    unit_items, StmResult,
};
use crate::asdr_expr::{call_outcome, rv_type, scope_views, type_outcome, went_on};
use crate::asdr_spec::{
    tag_at, Env, TAG_BREAK, TAG_COMMA, TAG_ELSE, TAG_END, TAG_ERROR, TAG_FOR, TAG_ID, TAG_IF,
    TAG_LACC, TAG_LPAR, TAG_MUL, TAG_RACC, TAG_RETURN, TAG_RPAR, TAG_SEMICOLON, TAG_STRUCT,
    TAG_VOID, TAG_WHILE,
};
use crate::error::{CompileError, Diagnostic};
use crate::lexer::Token;
use crate::symbols::{
    add_ext_funcs, ClassType, Context, StorageType, SymbolType, TypeName,
};
use vstd::prelude::*;

verus! {

/// Whether an analysis of a declaration or a statement returned what the
/// description says, and left the program as the description says.
pub open spec fn agrees(
    r: Result<Option<usize>, CompileError>,
    after: Env,
    before: Env,
    expected: StmResult,
) -> bool {
    match expected {
        StmResult::Match { env, pos } => r == Ok::<Option<usize>, CompileError>(
            Some(pos as usize),
        ) && pos == pos as usize && after == env,
        StmResult::NoMatch => r == Ok::<Option<usize>, CompileError>(None) && after == before,
        StmResult::Fail { error } => r == Err::<Option<usize>, CompileError>(error),
    }
}

/// Whether an analysis that found something went on inside the tokens.
pub open spec fn moved(r: Result<Option<usize>, CompileError>, pos: usize, len: nat) -> bool {
    match r {
        Ok(Some(p)) => pos < p <= len,
        _ => true,
    }
}

impl SyntaxAnalyser {
    /// The names of a variable declaration behind the first, and its end.
    #[verifier::rlimit(80)]
    fn rule_decl_var_rest(&mut self, pos: usize, ty: &SymbolType, is_array: bool) -> (r: Result<
        Option<usize>,
        CompileError,
    >)
        requires
            pos <= old(self).token_vec@.len(),
        ensures
            final(self).token_vec == old(self).token_vec,
            agrees(
                r,
                final(self).env(),
                old(self).env(),
                decl_var_rest(old(self).token_vec@, old(self).env(), pos as int, ty@, is_array),
            ),
            moved(r, pos, old(self).token_vec@.len()),
            !(r matches Ok(None)),
        decreases old(self).token_vec@.len() - pos,
    {
        let tag = self.tag(pos);
        if tag == TAG_COMMA {
            if self.tag(pos + 1) != TAG_ID {
                return Err(self.error(pos + 1, Diagnostic::ExpectedIdentifierAfterComma));
            }
            let name = self.name(pos + 1);
            let line = self.line(pos + 1);
            match self.rule_array_decl(pos + 2)? {
                Some((size, q)) => {
                    self.add_var(name, line, sized(ty, Some(size)))?;
                    self.rule_decl_var_rest(q, ty, true)
                },
                None => {
                    self.add_var(name, line, sized(ty, None))?;
                    self.rule_decl_var_rest(pos + 2, ty, true)
                },
            }
        } else if tag == TAG_SEMICOLON {
            Ok(Some(pos + 1))
        } else if is_array {
            Err(self.error(pos, Diagnostic::ExpectedSemicolonAfterDeclaration))
        } else {
            Err(self.error(pos, Diagnostic::ExpectedDeclarationEnd))
        }
    }

    /// declVar: typeBase ID arrayDecl? ( COMMA ID arrayDecl? )* SEMICOLON
    #[verifier::rlimit(80)]
    pub fn rule_decl_var(&mut self, pos: usize) -> (r: Result<Option<usize>, CompileError>)
        ensures
            final(self).token_vec == old(self).token_vec,
            agrees(
                r,
                final(self).env(),
                old(self).env(),
                decl_var(old(self).token_vec@, old(self).env(), pos as int),
            ),
            moved(r, pos, old(self).token_vec@.len()),
    {
        match self.rule_type_base(pos)? {
            Some((ty, p)) => {
                if self.tag(p) != TAG_ID {
                    return Err(self.error(p, Diagnostic::ExpectedIdentifier));
                }
                let name = self.name(p);
                let line = self.line(p);
                match self.rule_array_decl(p + 1)? {
                    Some((size, q)) => {
                        self.add_var(name, line, sized(&ty, Some(size)))?;
                        self.rule_decl_var_rest(q, &ty, true)
                    },
                    None => {
                        self.add_var(name, line, sized(&ty, None))?;
                        self.rule_decl_var_rest(p + 1, &ty, false)
                    },
                }
            },
            None => Ok(None),
        }
    }

    /// The members of a structure.
    fn rule_struct_fields(&mut self, pos: usize) -> (r: Result<Option<usize>, CompileError>)
        requires
            pos <= old(self).token_vec@.len(),
        ensures
            final(self).token_vec == old(self).token_vec,
            agrees(
                r,
                final(self).env(),
                old(self).env(),
                struct_fields(old(self).token_vec@, old(self).env(), pos as int),
            ),
            r matches Ok(Some(p)) ==> pos <= p <= old(self).token_vec@.len(),
            !(r matches Ok(None)),
    {
        let mut at = pos;
        loop
            invariant
                self.token_vec == old(self).token_vec,
                pos <= at <= self.token_vec@.len(),
                struct_fields(self.token_vec@, self.env(), at as int) == struct_fields(
                    old(self).token_vec@,
                    old(self).env(),
                    pos as int,
                ),
            decreases self.token_vec@.len() - at,
        {
            match self.rule_decl_var(at)? {
                Some(p) => {
                    at = p;
                },
                None => {
                    return Ok(Some(at));
                },
            }
        }
    }

    /// declStruct: STRUCT ID LACC declVar* RACC SEMICOLON
    #[verifier::rlimit(80)]
    pub fn rule_decl_struct(&mut self, pos: usize) -> (r: Result<Option<usize>, CompileError>)
        ensures
            final(self).token_vec == old(self).token_vec,
            agrees(
                r,
                final(self).env(),
                old(self).env(),
                decl_struct(old(self).token_vec@, old(self).env(), pos as int),
            ),
            moved(r, pos, old(self).token_vec@.len()),
    {
        if self.tag(pos) != TAG_STRUCT {
            return Ok(None);
        }
        if self.tag(pos + 1) != TAG_ID {
            return Err(self.error(pos + 1, Diagnostic::ExpectedStructIdentifier));
        }
        if self.tag(pos + 2) != TAG_LACC {
            return Ok(None);
        }
        let symbol = self.make_symbol(
            self.name(pos + 1),
            ClassType::ClsStruct,
            StorageType::MemGlobal,
            SymbolType::new(TypeName::TbStruct, -1),
            self.line(pos + 1),
            true,
        );
        self.define(symbol.clone())?;
        self.open_scope(StorageType::MemStruct);
        self.current_symbol = Some(symbol);
        match self.rule_struct_fields(pos + 3)? {
            Some(q) => {
                if self.tag(q) != TAG_RACC {
                    return Err(self.error(q, Diagnostic::ExpectedStructEnd));
                }
                if self.tag(q + 1) != TAG_SEMICOLON {
                    return Err(self.error(q + 1, Diagnostic::ExpectedSemicolonAfterStruct));
                }
                self.close_scope();
                self.current_symbol = None;
                Ok(Some(q + 2))
            },
            None => Ok(None),
        }
    }

    /// funcArg: typeBase ID arrayDecl?
    pub fn rule_func_arg(&mut self, pos: usize) -> (r: Result<Option<usize>, CompileError>)
        ensures
            final(self).token_vec == old(self).token_vec,
            agrees(
                r,
                final(self).env(),
                old(self).env(),
                func_arg(old(self).token_vec@, old(self).env(), pos as int),
            ),
            moved(r, pos, old(self).token_vec@.len()),
    {
        match self.rule_type_base(pos)? {
            Some((ty, p)) => {
                if self.tag(p) != TAG_ID {
                    return Err(self.error(p, Diagnostic::ExpectedArgumentIdentifier));
                }
                let name = self.name(p);
                let line = self.line(p);
                match self.rule_array_decl(p + 1)? {
                    Some((size, q)) => {
                        self.add_func_arg(name, line, sized(&ty, Some(size)))?;
                        Ok(Some(q))
                    },
                    None => {
                        self.add_func_arg(name, line, sized(&ty, None))?;
                        Ok(Some(p + 1))
                    },
                }
            },
            None => Ok(None),
        }
    }

    /// The parameters of a function behind the first, and `)`.
    #[verifier::rlimit(80)]
    fn rule_func_args_rest(&mut self, pos: usize) -> (r: Result<Option<usize>, CompileError>)
        requires
            pos <= old(self).token_vec@.len(),
        ensures
            final(self).token_vec == old(self).token_vec,
            agrees(
                r,
                final(self).env(),
                old(self).env(),
                func_args_rest(old(self).token_vec@, old(self).env(), pos as int),
            ),
            moved(r, pos, old(self).token_vec@.len()),
            !(r matches Ok(None)),
        decreases old(self).token_vec@.len() - pos,
    {
        let tag = self.tag(pos);
        if tag == TAG_COMMA {
            match self.rule_func_arg(pos + 1)? {
                Some(p) => self.rule_func_args_rest(p),
                None => Err(self.error(pos + 1, Diagnostic::ExpectedArgumentAfterComma)),
            }
        } else if tag != TAG_RPAR {
            Err(self.error(pos, Diagnostic::ExpectedArgumentsEnd))
        } else {
            Ok(Some(pos + 1))
        }
    }

    /// The head of the definition of a function: ( typeBase MUL? | VOID )
    pub fn rule_func_head(&self, pos: usize) -> (r: Result<Option<(SymbolType, usize)>, CompileError>)
        ensures
            type_outcome(r) == func_head(self.token_vec@, self.env(), pos as int),
            went_on(r, pos, self.token_vec@.len()),
    {
        match self.rule_type_base(pos)? {
            Some((ty, p)) => if self.tag(p) == TAG_MUL {
                Ok(Some((sized(&ty, Some(0)), p + 1)))
            } else {
                Ok(Some((sized(&ty, None), p)))
            },
            None => if self.tag(pos) == TAG_VOID {
                Ok(Some((SymbolType::new(TypeName::TbVoid, -1), pos + 1)))
            } else {
                Ok(None)
            },
        }
    }

    /// declFunc: ( typeBase MUL? | VOID ) ID
    ///           LPAR ( funcArg ( COMMA funcArg )* )? RPAR stmCompound
    #[verifier::rlimit(80)]
    pub fn rule_decl_func(&mut self, pos: usize) -> (r: Result<Option<usize>, CompileError>)
        ensures
            final(self).token_vec == old(self).token_vec,
            agrees(
                r,
                final(self).env(),
                old(self).env(),
                decl_func(old(self).token_vec@, old(self).env(), pos as int),
            ),
            moved(r, pos, old(self).token_vec@.len()),
    {
        match self.rule_func_head(pos)? {
            Some((ty, p)) => {
                if self.tag(p) != TAG_ID || self.tag(p + 1) != TAG_LPAR {
                    return Ok(None);
                }
                if self.symbol_tables.len() != 1 {
                    return Err(self.error(p + 2, Diagnostic::FunctionBelowGlobalScope));
                }
                let symbol = self.make_symbol(
                    self.name(p),
                    ClassType::ClsFunc,
                    StorageType::MemGlobal,
                    ty,
                    self.line(p),
                    true,
                );
                self.define(symbol.clone())?;
                self.open_scope(StorageType::MemLocal);
                self.current_symbol = Some(symbol);
                self.is_function_context = true;
                let args = match self.rule_func_arg(p + 2)? {
                    Some(q) => self.rule_func_args_rest(q)?,
                    None => self.rule_func_args_rest(p + 2)?,
                };
                match args {
                    Some(q) => match self.rule_stm_compound(q)? {
                        Some(r) => {
                            self.close_scope();
                            self.current_symbol = None;
                            self.is_function_context = false;
                            Ok(Some(r))
                        },
                        None => Err(self.error(q, Diagnostic::ExpectedFunctionBody)),
                    },
                    None => Ok(None),
                }
            },
            None => Ok(None),
        }
    }

    /// A condition in parentheses.
    fn rule_condition(&self, pos: usize, open: Diagnostic, missing: Diagnostic, close: Diagnostic) -> (r:
        Result<usize, CompileError>)
        requires
            pos <= self.token_vec@.len(),
        ensures
            call_outcome(r) == condition(
                self.token_vec@,
                self.env(),
                pos as int,
                open,
                missing,
                close,
            ),
            r matches Ok(p) ==> pos < p <= self.token_vec@.len(),
    {
        if self.tag(pos) != TAG_LPAR {
            return Err(self.error(pos, open));
        }
        match self.rule_expr(pos + 1)? {
            Some((rv, p)) => {
                if rv_type(&rv).type_base == TypeName::TbStruct {
                    return Err(self.error(p, Diagnostic::StructTested));
                }
                if self.tag(p) != TAG_RPAR {
                    return Err(self.error(p, close));
                }
                Ok(p + 1)
            },
            None => Err(self.error(pos + 1, missing)),
        }
    }

    /// An optional expression and the token `end` behind it.
    fn rule_optional_expr(&self, pos: usize, end: u8, test: bool, missing: Diagnostic) -> (r: Result<
        usize,
        CompileError,
    >)
        requires
            pos <= self.token_vec@.len(),
            end != TAG_END,
        ensures
            call_outcome(r) == optional_expr(
                self.token_vec@,
                self.env(),
                pos as int,
                end,
                test,
                missing,
            ),
            r matches Ok(p) ==> pos < p <= self.token_vec@.len(),
    {
        match self.rule_expr(pos)? {
            Some((rv, p)) => {
                if test && rv_type(&rv).type_base == TypeName::TbStruct {
                    return Err(self.error(p, Diagnostic::StructTested));
                }
                if self.tag(p) != end {
                    return Err(self.error(p, missing));
                }
                Ok(p + 1)
            },
            None => {
                if self.tag(pos) != end {
                    return Err(self.error(pos, missing));
                }
                Ok(pos + 1)
            },
        }
    }

    /// The head of a `for`, behind the keyword.
    fn rule_for_head(&self, pos: usize) -> (r: Result<usize, CompileError>)
        requires
            pos <= self.token_vec@.len(),
        ensures
            call_outcome(r) == for_head(self.token_vec@, self.env(), pos as int),
            r matches Ok(p) ==> pos < p <= self.token_vec@.len(),
    {
        if self.tag(pos) != TAG_LPAR {
            return Err(self.error(pos, Diagnostic::ExpectedForOpen));
        }
        let p = self.rule_optional_expr(
            pos + 1,
            TAG_SEMICOLON,
            false,
            Diagnostic::ExpectedForFirstSemicolon,
        )?;
        let q = self.rule_optional_expr(
            p,
            TAG_SEMICOLON,
            true,
            Diagnostic::ExpectedForSecondSemicolon,
        )?;
        self.rule_optional_expr(q, TAG_RPAR, false, Diagnostic::ExpectedForClose)
    }

    /// A `return`, behind the keyword.
    fn rule_return_rest(&self, pos: usize) -> (r: Result<usize, CompileError>)
        requires
            pos <= self.token_vec@.len(),
        ensures
            call_outcome(r) == return_rest(self.token_vec@, self.env(), pos as int),
            r matches Ok(p) ==> pos < p <= self.token_vec@.len(),
    {
        let returned = match &self.current_symbol {
            Some(s) => s.symbol_type.clone(),
            None => SymbolType::new(TypeName::TbVoid, -1),
        };
        assert(returned@ == return_type(self.env()));
        let nothing = returned.type_base == TypeName::TbVoid;
        match self.rule_expr(pos)? {
            Some((rv, p)) => {
                if nothing {
                    return Err(self.error(p, Diagnostic::VoidReturnsValue));
                }
                match rv_type(&rv).cast_check(&returned) {
                    Some(d) => Err(self.error(p, d)),
                    None => {
                        if self.tag(p) != TAG_SEMICOLON {
                            return Err(self.error(p, Diagnostic::ExpectedSemicolonAfterReturn));
                        }
                        Ok(p + 1)
                    },
                }
            },
            None => {
                if !nothing {
                    return Err(self.error(pos, Diagnostic::MissingReturnValue));
                }
                if self.tag(pos) != TAG_SEMICOLON {
                    return Err(self.error(pos, Diagnostic::ExpectedSemicolonAfterReturn));
                }
                Ok(pos + 1)
            },
        }
    }

    /// A statement that another statement needs.
    fn rule_required_stm(&mut self, pos: usize, missing: Diagnostic) -> (r: Result<
        Option<usize>,
        CompileError,
    >)
        ensures
            final(self).token_vec == old(self).token_vec,
            agrees(
                r,
                final(self).env(),
                old(self).env(),
                required_stm(old(self).token_vec@, old(self).env(), pos as int, missing),
            ),
            moved(r, pos, old(self).token_vec@.len()),
            !(r matches Ok(None)),
        decreases old(self).token_vec@.len() - pos, 3int,
    {
        match self.rule_stm(pos)? {
            Some(p) => Ok(Some(p)),
            None => Err(self.error(pos, missing)),
        }
    }

    /// stm: stmCompound
    ///    | IF LPAR expr RPAR stm ( ELSE stm )?
    ///    | WHILE LPAR expr RPAR stm
    ///    | FOR LPAR expr? SEMICOLON expr? SEMICOLON expr? RPAR stm
    ///    | BREAK SEMICOLON
    ///    | RETURN expr? SEMICOLON
    ///    | expr? SEMICOLON
    pub fn rule_stm(&mut self, pos: usize) -> (r: Result<Option<usize>, CompileError>)
        ensures
            final(self).token_vec == old(self).token_vec,
            agrees(
                r,
                final(self).env(),
                old(self).env(),
                stm(old(self).token_vec@, old(self).env(), pos as int),
            ),
            moved(r, pos, old(self).token_vec@.len()),
        decreases old(self).token_vec@.len() - pos, 2int,
    {
        let tag = self.tag(pos);
        if pos >= self.token_vec.len() {
            Ok(None)
        } else if tag == TAG_LACC {
            self.rule_stm_compound(pos)
        } else if tag == TAG_IF {
            let p = self.rule_condition(
                pos + 1,
                Diagnostic::ExpectedIfOpen,
                Diagnostic::ExpectedIfCondition,
                Diagnostic::ExpectedIfClose,
            )?;
            match self.rule_required_stm(p, Diagnostic::ExpectedIfStatement)? {
                Some(q) => if q < self.token_vec.len() && self.tag(q) == TAG_ELSE {
                    self.rule_required_stm(q + 1, Diagnostic::ExpectedElseStatement)
                } else {
                    Ok(Some(q))
                },
                None => Ok(None),
            }
        } else if tag == TAG_WHILE {
            let p = self.rule_condition(
                pos + 1,
                Diagnostic::ExpectedWhileOpen,
                Diagnostic::ExpectedWhileCondition,
                Diagnostic::ExpectedWhileClose,
            )?;
            self.rule_required_stm(p, Diagnostic::ExpectedWhileStatement)
        } else if tag == TAG_FOR {
            let p = self.rule_for_head(pos + 1)?;
            self.rule_required_stm(p, Diagnostic::ExpectedForStatement)
        } else if tag == TAG_BREAK {
            if self.tag(pos + 1) != TAG_SEMICOLON {
                return Err(self.error(pos + 1, Diagnostic::ExpectedSemicolonAfterBreak));
            }
            Ok(Some(pos + 2))
        } else if tag == TAG_RETURN {
            let p = self.rule_return_rest(pos + 1)?;
            Ok(Some(p))
        } else {
            match self.rule_expr(pos)? {
                Some((_, p)) => {
                    if self.tag(p) != TAG_SEMICOLON {
                        return Err(self.error(p, Diagnostic::ExpectedSemicolonAfterExpression));
                    }
                    Ok(Some(p + 1))
                },
                None => if tag == TAG_SEMICOLON {
                    Ok(Some(pos + 1))
                } else {
                    Ok(None)
                },
            }
        }
    }

    /// The declarations and statements of a block.
    fn rule_block_items(&mut self, pos: usize) -> (r: Result<Option<usize>, CompileError>)
        requires
            pos <= old(self).token_vec@.len(),
        ensures
            final(self).token_vec == old(self).token_vec,
            agrees(
                r,
                final(self).env(),
                old(self).env(),
                block_items(old(self).token_vec@, old(self).env(), pos as int),
            ),
            r matches Ok(Some(p)) ==> pos <= p <= old(self).token_vec@.len(),
            !(r matches Ok(None)),
        decreases old(self).token_vec@.len() - pos, 4int,
    {
        match self.rule_decl_var(pos)? {
            Some(p) => self.rule_block_items(p),
            None => match self.rule_stm(pos)? {
                Some(p) => self.rule_block_items(p),
                None => Ok(Some(pos)),
            },
        }
    }

    /// stmCompound: LACC ( declVar | stm )* RACC
    pub fn rule_stm_compound(&mut self, pos: usize) -> (r: Result<Option<usize>, CompileError>)
        ensures
            final(self).token_vec == old(self).token_vec,
            agrees(
                r,
                final(self).env(),
                old(self).env(),
                stm_compound(old(self).token_vec@, old(self).env(), pos as int),
            ),
            moved(r, pos, old(self).token_vec@.len()),
        decreases old(self).token_vec@.len() - pos, 1int,
    {
        if pos >= self.token_vec.len() || self.tag(pos) != TAG_LACC {
            return Ok(None);
        }
        let body = self.is_function_context;
        if body {
            self.is_function_context = false;
        } else {
            self.open_scope(StorageType::MemLocal);
        }
        match self.rule_block_items(pos + 1)? {
            Some(q) => {
                if self.tag(q) != TAG_RACC {
                    return Err(self.error(q, Diagnostic::ExpectedBlockEnd));
                }
                if !body {
                    self.close_scope();
                }
                Ok(Some(q + 1))
            },
            None => Ok(None),
        }
    }

    /// One definition of a program: a structure, a function or variables.
    pub fn rule_top_item(&mut self, pos: usize) -> (r: Result<Option<usize>, CompileError>)
        ensures
            final(self).token_vec == old(self).token_vec,
            agrees(
                r,
                final(self).env(),
                old(self).env(),
                top_item(old(self).token_vec@, old(self).env(), pos as int),
            ),
            moved(r, pos, old(self).token_vec@.len()),
    {
        match self.rule_decl_struct(pos)? {
            Some(p) => Ok(Some(p)),
            None => match self.rule_decl_func(pos)? {
                Some(p) => Ok(Some(p)),
                None => self.rule_decl_var(pos),
            },
        }
    }

    /// unit: ( declStruct | declFunc | declVar )* END
    pub fn rule_unit(&mut self, pos: usize) -> (r: Result<(), CompileError>)
        requires
            pos <= old(self).token_vec@.len(),
        ensures
            final(self).token_vec == old(self).token_vec,
            match unit_items(old(self).token_vec@, old(self).env(), pos as int) {
                Ok(env) => r is Ok && final(self).env() == env,
                Err(e) => r == Err::<(), CompileError>(e),
            },
            r is Ok ==> final(self).current_token_idx <= final(self).token_vec@.len() && tag_at(
                final(self).token_vec@,
                final(self).current_token_idx as int,
            ) == TAG_END,
    {
        let mut at = pos;
        loop
            invariant
                self.token_vec == old(self).token_vec,
                pos <= at <= self.token_vec@.len(),
                unit_items(self.token_vec@, self.env(), at as int) == unit_items(
                    old(self).token_vec@,
                    old(self).env(),
                    pos as int,
                ),
            decreases self.token_vec@.len() - at,
        {
            match self.rule_top_item(at)? {
                Some(p) => {
                    at = p;
                },
                None => {
                    if self.tag(at) == TAG_END {
                        self.current_token_idx = at;
                        return Ok(());
                    }
                    return Err(self.error(at, Diagnostic::ExpectedDeclaration));
                },
            }
        }
    }

    /// The index of the first token that the lexer could not read.
    pub fn find_first_error(&self) -> (r: Option<usize>)
        ensures
            match r {
                Some(i) => first_error(self.token_vec@, 0) == Some(i as int),
                None => first_error(self.token_vec@, 0) is None,
            },
    {
        let mut i: usize = 0;
        while i < self.token_vec.len()
            invariant
                i <= self.token_vec@.len(),
                first_error(self.token_vec@, 0) == first_error(self.token_vec@, i as int),
            decreases self.token_vec@.len() - i,
        {
            if self.tag(i) == TAG_ERROR {
                return Some(i);
            }
            i = i + 1;
        }
        None
    }

    /// An analyser of the tokens, which stands at the first of them.
    pub fn new(token_vec: Vec<Token>) -> (a: Self)
        ensures
            a.token_vec == token_vec,
            a.current_token_idx == 0,
            a.env() == (Env { scopes: Seq::empty(), current_symbol: None, is_function_context: false }),
    {
        let a = SyntaxAnalyser {
            token_vec,
            current_token_idx: 0,
            symbol_tables: Vec::new(),
            current_symbol: None,
            is_function_context: false,
        };
        assert(scope_views(a.symbol_tables@) =~= Seq::empty());
        a
    }

    /// Analyses the tokens as a program: it builds the symbol tables and
    /// checks the types. The first error ends the analysis. After a
    /// success the global scope is the one scope that is open, with the
    /// routines of the host and the definitions of the program.
    pub fn analyse_syntax(&mut self) -> (r: Result<(), CompileError>)
        ensures
            final(self).token_vec == old(self).token_vec,
            match analysis(old(self).token_vec@) {
                Ok(env) => r is Ok && final(self).env() == env,
                Err(e) => r == Err::<(), CompileError>(e),
            },
            r is Ok ==> final(self).current_token_idx <= final(self).token_vec@.len() && tag_at(
                final(self).token_vec@,
                final(self).current_token_idx as int,
            ) == TAG_END,
    {
        match self.find_first_error() {
            Some(i) => {
                return Err(self.error(i, Diagnostic::InvalidToken));
            },
            None => {},
        }
        let mut global = Context::new(StorageType::MemGlobal, 0);
        add_ext_funcs(&mut global)?;
        self.symbol_tables = Vec::new();
        self.symbol_tables.push(global);
        self.current_symbol = None;
        self.is_function_context = false;
        self.current_token_idx = 0;
        assert(scope_views(self.symbol_tables@) =~= initial_env().scopes);
        self.rule_unit(0)
    }
}

} // verus!
