//! The analysis of expressions: the recursive descent over the tokens, with
//! the types of the expressions and the errors of their use.

use crate::asdr::SyntaxAnalyser;
use crate::asdr_spec::{
    array_decl, binary_tail, call_args, close_call, error_at, expr, expr_assign, expr_binary,
    expr_cast, expr_postfix, expr_primary, expr_unary, find_global, find_in_scopes, full_type,
    is_operator, level_rank, line_at, member_type, missing_operand, name_at,
    operand, operand_failure, operator_type, parameters, postfix_tail, tag_at, type_base,
    type_of, ExprResult, Level, SizeResult, TypeResult, TAG_ADD, TAG_AND, TAG_ASSIGN, TAG_CHAR,
    TAG_COMMA, TAG_DIV, TAG_DOT, TAG_DOUBLE, TAG_END, TAG_EQUAL, TAG_GREATER, TAG_GREATER_EQ,
    TAG_ID, TAG_INT, TAG_LBRACKET, TAG_LESS, TAG_LESS_EQ, TAG_LPAR, TAG_MUL, TAG_NOT,
    TAG_NOT_EQ, TAG_OR, TAG_RBRACKET, TAG_RPAR, TAG_STRUCT, TAG_SUB,
};
use crate::error::{CompileError, Diagnostic};
use crate::lexer::TokenType;
use crate::symbols::{
    find_in_stack, find_symbol_in, symbol_view, ClassType, Context, ContextView, CtVal, RetVal,
    Symbol, SymbolType, TypeName,
};
use vstd::prelude::*;

verus! {

/// The views of the scopes of a stack, in order.
pub open spec fn scope_views(scopes: Seq<Context>) -> Seq<ContextView> {
    scopes.map_values(|c: Context| c@)
}

/// A lookup in a stack of scopes is a lookup in their views.
pub proof fn lemma_find_in_views(scopes: Seq<Context>, name: Seq<char>)
    ensures
        find_in_stack(scopes, name) == find_in_scopes(scope_views(scopes), name),
    decreases scopes.len(),
{
    if scopes.len() > 0 {
        lemma_find_in_views(scopes.drop_last(), name);
        assert(scope_views(scopes).drop_last() =~= scope_views(scopes.drop_last()));
        assert(scope_views(scopes).last() == scopes.last()@);
    }
}

/// What an analysis of an expression returned, as its outcome.
pub open spec fn expr_outcome(r: Result<Option<(RetVal, usize)>, CompileError>) -> ExprResult {
    match r {
        Ok(Some(m)) => ExprResult::Match { rv: m.0@, pos: m.1 as int },
        Ok(None) => ExprResult::NoMatch,
        Err(error) => ExprResult::Fail { error },
    }
}

/// What an analysis of a type returned, as its outcome.
pub open spec fn type_outcome(r: Result<Option<(SymbolType, usize)>, CompileError>) -> TypeResult {
    match r {
        Ok(Some(m)) => TypeResult::Match { ty: m.0@, pos: m.1 as int },
        Ok(None) => TypeResult::NoMatch,
        Err(error) => TypeResult::Fail { error },
    }
}

/// What an analysis of an array declaration returned, as its outcome.
pub open spec fn size_outcome(r: Result<Option<(i64, usize)>, CompileError>) -> SizeResult {
    match r {
        Ok(Some(m)) => SizeResult::Match { size: m.0 as int, pos: m.1 as int },
        Ok(None) => SizeResult::NoMatch,
        Err(error) => SizeResult::Fail { error },
    }
}

/// Whether an analysis that found something went on inside the tokens.
pub open spec fn went_on<T>(r: Result<Option<(T, usize)>, CompileError>, pos: usize, len: nat) -> bool {
    match r {
        Ok(Some(m)) => pos < m.1 <= len,
        _ => true,
    }
}

/// The type of an analysed expression.
pub fn rv_type(rv: &RetVal) -> (ty: SymbolType)
    ensures
        ty@ == type_of(rv@),
{
    match &rv.symbol_type {
        Some(ty) => ty.clone(),
        None => SymbolType::new(TypeName::TbVoid, -1),
    }
}

/// An expression of the type that is neither a location nor a constant.
pub fn plain_of(ty: SymbolType) -> (rv: RetVal)
    ensures
        rv@ == crate::asdr_spec::plain(ty@),
{
    RetVal { symbol_type: Some(ty), is_lval: false, is_ctval: false, ctval: None }
}

/// A storage location of the type.
pub fn location_of(ty: SymbolType) -> (rv: RetVal)
    ensures
        rv@ == crate::asdr_spec::location(ty@),
{
    RetVal { symbol_type: Some(ty), is_lval: true, is_ctval: false, ctval: None }
}

/// A constant of the type.
pub fn constant_of(ty: SymbolType, value: CtVal) -> (rv: RetVal)
    ensures
        rv@ == crate::asdr_spec::constant(ty@, value@),
{
    RetVal { symbol_type: Some(ty), is_lval: false, is_ctval: true, ctval: Some(value) }
}

/// Whether a token is an operator of the level.
pub fn operator_of(level: Level, tag: u8) -> (b: bool)
    ensures
        b == is_operator(level, tag),
{
    match level {
        Level::Or => tag == TAG_OR,
        Level::And => tag == TAG_AND,
        Level::Eq => tag == TAG_EQUAL || tag == TAG_NOT_EQ,
        Level::Rel => tag == TAG_LESS || tag == TAG_LESS_EQ || tag == TAG_GREATER || tag
            == TAG_GREATER_EQ,
        Level::Add => tag == TAG_ADD || tag == TAG_SUB,
        Level::Mul => tag == TAG_MUL || tag == TAG_DIV,
    }
}

/// The error that says that the right operand of an operator is missing.
pub fn missing_operand_of(level: Level) -> (d: Diagnostic)
    ensures
        d == missing_operand(level),
{
    match level {
        Level::Or => Diagnostic::MissingOrOperand,
        Level::And => Diagnostic::MissingAndOperand,
        Level::Eq => Diagnostic::MissingEqualityOperand,
        Level::Rel => Diagnostic::MissingRelationOperand,
        Level::Add => Diagnostic::MissingAdditionOperand,
        Level::Mul => Diagnostic::MissingMultiplicationOperand,
    }
}

/// Checks the operands of a binary operator of the level and gives the
/// type of its result: the common arithmetic type of the operands for an
/// arithmetic operator, an integer for any other.
pub fn combine(level: Level, a: &SymbolType, b: &SymbolType) -> (r: Result<SymbolType, Diagnostic>)
    ensures
        match operand_failure(level, a@, b@) {
            Some(d) => r == Err::<SymbolType, Diagnostic>(d),
            None => r is Ok && r->Ok_0@ == operator_type(level, a@, b@),
        },
{
    let a_struct = a.type_base == TypeName::TbStruct;
    let b_struct = b.type_base == TypeName::TbStruct;
    match level {
        Level::Or | Level::And => if a_struct || b_struct {
            Err(Diagnostic::StructTested)
        } else {
            Ok(SymbolType::new(TypeName::TbInt, -1))
        },
        Level::Eq | Level::Rel => if a.is_array() || b.is_array() {
            Err(Diagnostic::ArrayCompared)
        } else if a_struct || b_struct {
            Err(Diagnostic::StructCompared)
        } else {
            Ok(SymbolType::new(TypeName::TbInt, -1))
        },
        Level::Add | Level::Mul => if a.is_array() || b.is_array() {
            Err(Diagnostic::ArrayInArithmetic)
        } else if a_struct || b_struct {
            Err(Diagnostic::StructInArithmetic)
        } else {
            match a.clone().get_arith_type(b.clone()) {
                Some(ty) => Ok(ty),
                None => Err(Diagnostic::IncompatibleTypes),
            }
        },
    }
}

impl SyntaxAnalyser {
    /// The tag of the token at `pos`; behind the last token stands `End`.
    pub fn tag(&self, pos: usize) -> (tag: u8)
        ensures
            tag == tag_at(self.token_vec@, pos as int),
            tag != TAG_END ==> pos < self.token_vec@.len(),
            self.token_vec@.len() <= usize::MAX,
    {
        if pos < self.token_vec.len() {
            self.token_vec[pos].token_type.discriminant_value()
        } else {
            TAG_END
        }
    }

    /// The line of the token at `pos`.
    pub fn line(&self, pos: usize) -> (line: usize)
        ensures
            line == line_at(self.token_vec@, pos as int),
    {
        let n = self.token_vec.len();
        if pos < n {
            self.token_vec[pos].line
        } else if n > 0 {
            self.token_vec[n - 1].line
        } else {
            0
        }
    }

    /// An error at the line of the token at `pos`.
    pub fn error(&self, pos: usize, d: Diagnostic) -> (e: CompileError)
        ensures
            e == error_at(self.token_vec@, pos as int, d),
    {
        CompileError::new(d, self.line(pos))
    }

    /// The name of the identifier at `pos`.
    pub fn name(&self, pos: usize) -> (name: String)
        requires
            pos < self.token_vec.len(),
        ensures
            name@ == name_at(self.token_vec@, pos as int),
    {
        self.token_vec[pos].token_type.get_id()
    }

    /// A copy of the symbol that the innermost scope binding the name
    /// binds to it.
    pub fn find_symbol_everywhere(&self, symbol_name: &str) -> (r: Option<Symbol>)
        ensures
            symbol_view(r) == find_in_scopes(self.env().scopes, symbol_name@),
    {
        proof {
            lemma_find_in_views(self.symbol_tables@, symbol_name@);
        }
        find_symbol_in(&self.symbol_tables, symbol_name)
    }

    /// A copy of the symbol that the global scope binds to the name.
    pub fn find_symbol_global(&self, symbol_name: &str) -> (r: Option<Symbol>)
        ensures
            symbol_view(r) == find_global(self.env().scopes, symbol_name@),
    {
        if self.symbol_tables.len() > 0 {
            self.symbol_tables[0].find_symbol(symbol_name)
        } else {
            None
        }
    }

    /// typeBase: INT | DOUBLE | CHAR | STRUCT ID
    pub fn rule_type_base(&self, pos: usize) -> (r: Result<Option<(SymbolType, usize)>, CompileError>)
        ensures
            type_outcome(r) == type_base(self.token_vec@, self.env(), pos as int),
            went_on(r, pos, self.token_vec@.len()),
    {
        let tag = self.tag(pos);
        if tag == TAG_INT {
            Ok(Some((SymbolType::new(TypeName::TbInt, -1), pos + 1)))
        } else if tag == TAG_DOUBLE {
            Ok(Some((SymbolType::new(TypeName::TbDouble, -1), pos + 1)))
        } else if tag == TAG_CHAR {
            Ok(Some((SymbolType::new(TypeName::TbChar, -1), pos + 1)))
        } else if tag == TAG_STRUCT {
            if self.tag(pos + 1) != TAG_ID {
                Err(self.error(pos + 1, Diagnostic::MissingStructIdentifier))
            } else {
                let name = self.name(pos + 1);
                match self.find_symbol_global(name.as_str()) {
                    Some(s) => if s.class == ClassType::ClsStruct {
                        Ok(
                            Some(
                                (
                                    SymbolType {
                                        type_base: TypeName::TbStruct,
                                        struct_symbol: Some(name),
                                        num_elements: -1,
                                    },
                                    pos + 2,
                                ),
                            ),
                        )
                    } else {
                        Err(self.error(pos + 2, Diagnostic::NotAStruct))
                    },
                    None => Err(self.error(pos + 2, Diagnostic::UndefinedStruct)),
                }
            }
        } else {
            Ok(None)
        }
    }

    /// arrayDecl: LBRACKET expr? RBRACKET
    pub fn rule_array_decl(&self, pos: usize) -> (r: Result<Option<(i64, usize)>, CompileError>)
        ensures
            size_outcome(r) == array_decl(self.token_vec@, self.env(), pos as int),
            went_on(r, pos, self.token_vec@.len()),
        decreases self.token_vec@.len() - pos, 30int, 0int,
    {
        if self.tag(pos) != TAG_LBRACKET {
            return Ok(None);
        }
        match self.rule_expr(pos + 1)? {
            Some((rv, p)) => {
                if !rv.is_ctval {
                    return Err(self.error(p, Diagnostic::ArraySizeNotConstant));
                }
                let size = match (&rv.ctval, rv_type(&rv).type_base) {
                    (Some(CtVal::IntChar(i)), TypeName::TbInt) => *i,
                    _ => {
                        return Err(self.error(p, Diagnostic::ArraySizeNotInteger));
                    },
                };
                if self.tag(p) != TAG_RBRACKET {
                    return Err(self.error(p, Diagnostic::ExpectedArrayEnd));
                }
                Ok(Some((size, p + 1)))
            },
            None => {
                if self.tag(pos + 1) != TAG_RBRACKET {
                    return Err(self.error(pos + 1, Diagnostic::ExpectedArrayEnd));
                }
                Ok(Some((0, pos + 2)))
            },
        }
    }

    /// typeName: typeBase arrayDecl?
    pub fn rule_type_name(&self, pos: usize) -> (r: Result<Option<(SymbolType, usize)>, CompileError>)
        ensures
            type_outcome(r) == full_type(self.token_vec@, self.env(), pos as int),
            went_on(r, pos, self.token_vec@.len()),
        decreases self.token_vec@.len() - pos, 31int, 0int,
    {
        match self.rule_type_base(pos)? {
            Some((ty, p)) => match self.rule_array_decl(p)? {
                Some((size, q)) => Ok(
                    Some(
                        (
                            SymbolType {
                                type_base: ty.type_base,
                                struct_symbol: ty.struct_symbol,
                                num_elements: size,
                            },
                            q,
                        ),
                    ),
                ),
                None => Ok(Some((ty, p))),
            },
            None => Ok(None),
        }
    }

    /// expr: exprAssign
    pub fn rule_expr(&self, pos: usize) -> (r: Result<Option<(RetVal, usize)>, CompileError>)
        ensures
            expr_outcome(r) == expr(self.token_vec@, self.env(), pos as int),
            went_on(r, pos, self.token_vec@.len()),
        decreases self.token_vec@.len() - pos, 20int, 1int,
    {
        self.rule_expr_assign(pos)
    }

    /// exprAssign: exprUnary ASSIGN exprAssign | exprOr
    pub fn rule_expr_assign(&self, pos: usize) -> (r: Result<Option<(RetVal, usize)>, CompileError>)
        ensures
            expr_outcome(r) == expr_assign(self.token_vec@, self.env(), pos as int),
            went_on(r, pos, self.token_vec@.len()),
        decreases self.token_vec@.len() - pos, 20int, 0int,
    {
        match self.rule_expr_unary(pos)? {
            Some((rv, p)) => if self.tag(p) == TAG_ASSIGN {
                match self.rule_expr_assign(p + 1)? {
                    Some((right, q)) => {
                        if !rv.is_lval {
                            return Err(self.error(q, Diagnostic::AssignToNonLvalue));
                        }
                        let left_type = rv_type(&rv);
                        let right_type = rv_type(&right);
                        if left_type.is_array() || right_type.is_array() {
                            return Err(self.error(q, Diagnostic::ArrayAssigned));
                        }
                        match right_type.cast_check(&left_type) {
                            Some(d) => Err(self.error(q, d)),
                            None => Ok(Some((plain_of(left_type), q))),
                        }
                    },
                    None => Err(self.error(p + 1, Diagnostic::MissingAssignOperand)),
                }
            } else {
                self.rule_expr_binary(pos, Level::Or)
            },
            None => self.rule_expr_binary(pos, Level::Or),
        }
    }

    /// An operand of a binary operator of the level.
    pub fn rule_operand(&self, pos: usize, level: Level) -> (r: Result<
        Option<(RetVal, usize)>,
        CompileError,
    >)
        ensures
            expr_outcome(r) == operand(self.token_vec@, self.env(), pos as int, level),
            went_on(r, pos, self.token_vec@.len()),
        decreases self.token_vec@.len() - pos, 10 + level_rank(level), 0int,
    {
        match level {
            Level::Or => self.rule_expr_binary(pos, Level::And),
            Level::And => self.rule_expr_binary(pos, Level::Eq),
            Level::Eq => self.rule_expr_binary(pos, Level::Rel),
            Level::Rel => self.rule_expr_binary(pos, Level::Add),
            Level::Add => self.rule_expr_binary(pos, Level::Mul),
            Level::Mul => self.rule_expr_cast(pos),
        }
    }

    /// exprOr, exprAnd, exprEq, exprRel, exprAdd, exprMul: operands of one
    /// level with the operators of the level between them.
    pub fn rule_expr_binary(&self, pos: usize, level: Level) -> (r: Result<
        Option<(RetVal, usize)>,
        CompileError,
    >)
        ensures
            expr_outcome(r) == expr_binary(self.token_vec@, self.env(), pos as int, level),
            went_on(r, pos, self.token_vec@.len()),
        decreases self.token_vec@.len() - pos, 10 + level_rank(level), 1int,
    {
        match self.rule_operand(pos, level)? {
            Some((rv, p)) => self.rule_binary_tail(p, level, rv),
            None => Ok(None),
        }
    }

    /// The operators of the level and the operands that follow the
    /// operands read so far.
    fn rule_binary_tail(&self, pos: usize, level: Level, left: RetVal) -> (r: Result<
        Option<(RetVal, usize)>,
        CompileError,
    >)
        requires
            pos <= self.token_vec@.len(),
        ensures
            expr_outcome(r) == binary_tail(self.token_vec@, self.env(), pos as int, level, left@),
            r matches Ok(Some(m)) ==> pos <= m.1 <= self.token_vec@.len(),
            !(r matches Ok(None)),
        decreases self.token_vec@.len() - pos, 10 + level_rank(level), 2int,
    {
        if pos < self.token_vec.len() && operator_of(level, self.tag(pos)) {
            match self.rule_operand(pos + 1, level)? {
                Some((right, p)) => {
                    match combine(level, &rv_type(&left), &rv_type(&right)) {
                        Err(d) => Err(self.error(p, d)),
                        Ok(ty) => self.rule_binary_tail(p, level, plain_of(ty)),
                    }
                },
                None => Err(self.error(pos + 1, missing_operand_of(level))),
            }
        } else {
            Ok(Some((left, pos)))
        }
    }

    /// exprCast: LPAR typeName RPAR exprCast | exprUnary
    pub fn rule_expr_cast(&self, pos: usize) -> (r: Result<Option<(RetVal, usize)>, CompileError>)
        ensures
            expr_outcome(r) == expr_cast(self.token_vec@, self.env(), pos as int),
            went_on(r, pos, self.token_vec@.len()),
        decreases self.token_vec@.len() - pos, 9int, 0int,
    {
        if pos < self.token_vec.len() && self.tag(pos) == TAG_LPAR {
            match self.rule_type_name(pos + 1)? {
                Some((ty, p)) => {
                    if self.tag(p) != TAG_RPAR {
                        return Err(self.error(p, Diagnostic::ExpectedCastClose));
                    }
                    match self.rule_expr_cast(p + 1)? {
                        Some((rv, q)) => match rv_type(&rv).cast_check(&ty) {
                            Some(d) => Err(self.error(q - 1, d)),
                            None => Ok(Some((plain_of(ty), q))),
                        },
                        None => Err(self.error(p + 1, Diagnostic::InvalidCastExpression)),
                    }
                },
                None => self.rule_expr_unary(pos),
            }
        } else {
            self.rule_expr_unary(pos)
        }
    }

    /// exprUnary: ( SUB | NOT ) exprUnary | exprPostfix
    pub fn rule_expr_unary(&self, pos: usize) -> (r: Result<Option<(RetVal, usize)>, CompileError>)
        ensures
            expr_outcome(r) == expr_unary(self.token_vec@, self.env(), pos as int),
            went_on(r, pos, self.token_vec@.len()),
        decreases self.token_vec@.len() - pos, 8int, 0int,
    {
        let tag = self.tag(pos);
        if pos < self.token_vec.len() && (tag == TAG_SUB || tag == TAG_NOT) {
            match self.rule_expr_unary(pos + 1)? {
                Some((rv, p)) => {
                    let ty = rv_type(&rv);
                    let is_struct = ty.type_base == TypeName::TbStruct;
                    if tag == TAG_SUB && ty.is_array() {
                        Err(self.error(p, Diagnostic::NegatedArray))
                    } else if tag == TAG_SUB && is_struct {
                        Err(self.error(p, Diagnostic::NegatedStruct))
                    } else if tag == TAG_NOT && is_struct {
                        Err(self.error(p, Diagnostic::NotOfStruct))
                    } else {
                        Ok(Some((plain_of(ty), p)))
                    }
                },
                None => Err(self.error(pos + 1, Diagnostic::InvalidUnaryExpression)),
            }
        } else {
            self.rule_expr_postfix(pos)
        }
    }

    /// exprPostfix: exprPrimary ( LBRACKET expr RBRACKET | DOT ID )*
    pub fn rule_expr_postfix(&self, pos: usize) -> (r: Result<Option<(RetVal, usize)>, CompileError>)
        ensures
            expr_outcome(r) == expr_postfix(self.token_vec@, self.env(), pos as int),
            went_on(r, pos, self.token_vec@.len()),
        decreases self.token_vec@.len() - pos, 7int, 0int,
    {
        match self.rule_expr_primary(pos)? {
            Some((rv, p)) => self.rule_postfix_tail(p, rv),
            None => Ok(None),
        }
    }

    /// The type of the member `name` of a value of type `ty`.
    pub fn member_type_of(&self, ty: &SymbolType, name: &str) -> (r: Result<SymbolType, Diagnostic>)
        ensures
            match member_type(self.env(), ty@, name@) {
                Ok(m) => r is Ok && r->Ok_0@ == m,
                Err(d) => r == Err::<SymbolType, Diagnostic>(d),
            },
    {
        match &ty.struct_symbol {
            None => Err(Diagnostic::ParentNotAStruct),
            Some(s) => match self.find_symbol_global(s.as_str()) {
                None => Err(Diagnostic::ParentNotAStruct),
                Some(def) => match def.find_symbol(name) {
                    Some(m) => Ok(m.symbol_type),
                    None => Err(Diagnostic::NoSuchMember),
                },
            },
        }
    }

    /// The indexes and member accesses behind a postfix expression.
    fn rule_postfix_tail(&self, pos: usize, left: RetVal) -> (r: Result<
        Option<(RetVal, usize)>,
        CompileError,
    >)
        requires
            pos <= self.token_vec@.len(),
        ensures
            expr_outcome(r) == postfix_tail(self.token_vec@, self.env(), pos as int, left@),
            r matches Ok(Some(m)) ==> pos <= m.1 <= self.token_vec@.len(),
            !(r matches Ok(None)),
        decreases self.token_vec@.len() - pos, 7int, 1int,
    {
        let tag = self.tag(pos);
        if pos < self.token_vec.len() && tag == TAG_LBRACKET {
            match self.rule_expr(pos + 1)? {
                Some((index, p)) => {
                    let left_type = rv_type(&left);
                    if !left_type.is_array() {
                        return Err(self.error(p, Diagnostic::IndexedNonArray));
                    }
                    match rv_type(&index).cast_check(&SymbolType::new(TypeName::TbInt, -1)) {
                        Some(d) => Err(self.error(p, d)),
                        None => {
                            if self.tag(p) != TAG_RBRACKET {
                                return Err(self.error(p, Diagnostic::ExpectedIndexClose));
                            }
                            let element = SymbolType {
                                type_base: left_type.type_base,
                                struct_symbol: left_type.struct_symbol,
                                num_elements: -1,
                            };
                            self.rule_postfix_tail(p + 1, location_of(element))
                        },
                    }
                },
                None => Err(self.error(pos + 1, Diagnostic::ExpectedIndexExpression)),
            }
        } else if pos < self.token_vec.len() && tag == TAG_DOT {
            if self.tag(pos + 1) != TAG_ID {
                return Err(self.error(pos + 1, Diagnostic::ExpectedMemberIdentifier));
            }
            let name = self.name(pos + 1);
            match self.member_type_of(&rv_type(&left), name.as_str()) {
                Ok(ty) => self.rule_postfix_tail(pos + 2, location_of(ty)),
                Err(d) => Err(self.error(pos + 2, d)),
            }
        } else {
            Ok(Some((left, pos)))
        }
    }

    /// The end of a call with `count` arguments.
    fn rule_close_call(&self, pos: usize, params: &Vec<Symbol>, count: usize) -> (r: Result<
        usize,
        CompileError,
    >)
        ensures
            call_outcome(r) == close_call(
                self.token_vec@,
                pos as int,
                symbol_views(params@),
                count as int,
            ),
            r matches Ok(p) ==> pos < p <= self.token_vec@.len(),
    {
        if self.tag(pos) != TAG_RPAR {
            Err(self.error(pos, Diagnostic::ExpectedCallClose))
        } else if count < params.len() {
            Err(self.error(pos + 1, Diagnostic::TooFewArguments))
        } else {
            Ok(pos + 1)
        }
    }

    /// The arguments of a call from the `count`-th on, and its end.
    fn rule_call_args(&self, pos: usize, params: &Vec<Symbol>, count: usize, first: bool) -> (r:
        Result<usize, CompileError>)
        requires
            count <= params@.len(),
        ensures
            call_outcome(r) == call_args(
                self.token_vec@,
                self.env(),
                pos as int,
                symbol_views(params@),
                count as int,
                first,
            ),
            r matches Ok(p) ==> pos < p <= self.token_vec@.len(),
        decreases self.token_vec@.len() - pos, 25int, 0int,
    {
        if !first && self.tag(pos) != TAG_COMMA || pos >= self.token_vec.len() {
            return self.rule_close_call(pos, params, count);
        }
        let start = if first {
            pos
        } else {
            pos + 1
        };
        match self.rule_expr(start)? {
            Some((rv, p)) => {
                if count >= params.len() {
                    return Err(self.error(p, Diagnostic::TooManyArguments));
                }
                match rv_type(&rv).cast_check(&params[count].symbol_type) {
                    Some(d) => Err(self.error(p, d)),
                    None => self.rule_call_args(p, params, count + 1, false),
                }
            },
            None => if first {
                self.rule_close_call(pos, params, count)
            } else {
                Err(self.error(start, Diagnostic::ExpectedArgumentExpression))
            },
        }
    }

    /// exprPrimary: ID ( LPAR ( expr ( COMMA expr )* )? RPAR )?
    ///            | CT_INT | CT_REAL | CT_CHAR | CT_STRING | LPAR expr RPAR
    pub fn rule_expr_primary(&self, pos: usize) -> (r: Result<Option<(RetVal, usize)>, CompileError>)
        ensures
            expr_outcome(r) == expr_primary(self.token_vec@, self.env(), pos as int),
            went_on(r, pos, self.token_vec@.len()),
        decreases self.token_vec@.len() - pos, 6int, 0int,
    {
        if pos >= self.token_vec.len() {
            return Ok(None);
        }
        match &self.token_vec[pos].token_type {
            TokenType::Id(name) => match self.find_symbol_everywhere(name.as_str()) {
                None => Err(self.error(pos + 1, Diagnostic::UndefinedSymbol)),
                Some(s) => {
                    let function = s.class == ClassType::ClsFunc || s.class
                        == ClassType::ClsExtFunc;
                    if self.tag(pos + 1) == TAG_LPAR {
                        if !function {
                            return Err(self.error(pos + 2, Diagnostic::NotAFunction));
                        }
                        let params: Vec<Symbol> = match &s.am {
                            Some(m) => m.values(),
                            None => Vec::new(),
                        };
                        assert(symbol_views(params@) =~= parameters(s@));
                        let p = self.rule_call_args(pos + 2, &params, 0, true)?;
                        Ok(Some((plain_of(s.symbol_type), p)))
                    } else if function {
                        Ok(Some((plain_of(s.symbol_type), pos + 1)))
                    } else {
                        Ok(Some((location_of(s.symbol_type), pos + 1)))
                    }
                },
            },
            TokenType::CtInt(i) => Ok(
                Some((constant_of(SymbolType::new(TypeName::TbInt, -1), CtVal::IntChar(*i)), pos + 1)),
            ),
            TokenType::CtChar(c) => Ok(
                Some(
                    (
                        constant_of(
                            SymbolType::new(TypeName::TbChar, -1),
                            CtVal::IntChar(*c as u32 as i64),
                        ),
                        pos + 1,
                    ),
                ),
            ),
            TokenType::CtReal(s) => Ok(
                Some(
                    (
                        constant_of(SymbolType::new(TypeName::TbDouble, -1), CtVal::Double(s.clone())),
                        pos + 1,
                    ),
                ),
            ),
            TokenType::CtString(s) => Ok(
                Some(
                    (
                        constant_of(SymbolType::new(TypeName::TbChar, 0), CtVal::String(s.clone())),
                        pos + 1,
                    ),
                ),
            ),
            TokenType::Lpar => match self.rule_expr(pos + 1)? {
                Some((rv, p)) => {
                    if self.tag(p) != TAG_RPAR {
                        return Err(self.error(p, Diagnostic::ExpectedParenthesisClose));
                    }
                    Ok(Some((rv, p + 1)))
                },
                None => Ok(None),
            },
            _ => Ok(None),
        }
    }
}

/// The views of the symbols of a sequence, in order.
pub open spec fn symbol_views(symbols: Seq<Symbol>) -> Seq<crate::symbols::SymbolView> {
    Seq::new(symbols.len(), |i: int| symbols[i]@)
}

/// What an analysis of the arguments of a call returned, as its outcome.
pub open spec fn call_outcome(r: Result<usize, CompileError>) -> Result<int, CompileError> {
    match r {
        Ok(p) => Ok(p as int),
        Err(e) => Err(e),
    }
}

} // verus!
