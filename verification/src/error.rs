//! The errors of compilation. Each is fatal: the first one ends the run.

use vstd::prelude::*;
use vstd::string::StringExecFns;

verus! {

/// The classes of compilation errors.
#[derive(Clone, Copy, Debug, PartialEq, Eq, Structural)]
pub enum ErrorKind {
    /// A malformed literal, a stray character, a string over several lines,
    /// a comment without an end.
    LexError,
    /// A token that the grammar requires is missing.
    SyntaxError,
    /// A name that no scope binds.
    UndefinedSymbol,
    /// A name bound twice in one scope.
    DuplicateSymbol,
    /// A function below the global scope, or a name used as a structure
    /// that is none.
    ScopeError,
    /// Types that do not go together.
    TypeError,
    /// A member asked of what is no structure, or that the structure lacks.
    MemberError,
    /// A call with too few or too many arguments.
    ArityError,
    /// An array size that is no constant or no integer.
    ArraySizeError,
}

/// What exactly went wrong.
#[derive(Clone, Copy, Debug, PartialEq, Eq, Structural)]
pub enum Diagnostic {
    InvalidToken,
    ExpectedDeclaration,
    ExpectedStructIdentifier,
    ExpectedStructEnd,
    ExpectedSemicolonAfterStruct,
    ExpectedIdentifier,
    ExpectedIdentifierAfterComma,
    ExpectedSemicolonAfterDeclaration,
    ExpectedDeclarationEnd,
    MissingStructIdentifier,
    ExpectedArrayEnd,
    ExpectedArgumentAfterComma,
    ExpectedArgumentIdentifier,
    ExpectedFunctionBody,
    ExpectedArgumentsEnd,
    ExpectedIfOpen,
    ExpectedIfCondition,
    ExpectedIfClose,
    ExpectedIfStatement,
    ExpectedElseStatement,
    ExpectedWhileOpen,
    ExpectedWhileCondition,
    ExpectedWhileClose,
    ExpectedWhileStatement,
    ExpectedForOpen,
    ExpectedForFirstSemicolon,
    ExpectedForSecondSemicolon,
    ExpectedForClose,
    ExpectedForStatement,
    ExpectedSemicolonAfterBreak,
    ExpectedSemicolonAfterReturn,
    ExpectedSemicolonAfterExpression,
    ExpectedBlockEnd,
    MissingAssignOperand,
    MissingOrOperand,
    MissingAndOperand,
    MissingEqualityOperand,
    MissingRelationOperand,
    MissingAdditionOperand,
    MissingMultiplicationOperand,
    InvalidCastExpression,
    ExpectedCastClose,
    InvalidUnaryExpression,
    ExpectedIndexExpression,
    ExpectedIndexClose,
    ExpectedMemberIdentifier,
    ExpectedArgumentExpression,
    ExpectedCallClose,
    ExpectedParenthesisClose,
    UndefinedSymbol,
    UndefinedStruct,
    SymbolAlreadyDefined,
    FunctionBelowGlobalScope,
    NotAStruct,
    ArrayToArrayOfOtherType,
    ArrayToNonArray,
    NonArrayToArray,
    StructToOtherStruct,
    IncompatibleTypes,
    StructTested,
    VoidReturnsValue,
    MissingReturnValue,
    AssignToNonLvalue,
    ArrayAssigned,
    StructCompared,
    ArrayCompared,
    ArrayInArithmetic,
    StructInArithmetic,
    NegatedArray,
    NegatedStruct,
    NotOfStruct,
    IndexedNonArray,
    NotAFunction,
    ParentNotAStruct,
    NoSuchMember,
    TooManyArguments,
    TooFewArguments,
    ArraySizeNotConstant,
    ArraySizeNotInteger,
}

impl Diagnostic {
    /// The class of the error.
    pub open spec fn spec_kind(self) -> ErrorKind {
        match self {
            Diagnostic::InvalidToken => ErrorKind::LexError,
            Diagnostic::UndefinedSymbol | Diagnostic::UndefinedStruct => ErrorKind::UndefinedSymbol,
            Diagnostic::SymbolAlreadyDefined => ErrorKind::DuplicateSymbol,
            Diagnostic::FunctionBelowGlobalScope | Diagnostic::NotAStruct => ErrorKind::ScopeError,
            Diagnostic::ArrayToArrayOfOtherType
            | Diagnostic::ArrayToNonArray
            | Diagnostic::NonArrayToArray
            | Diagnostic::StructToOtherStruct
            | Diagnostic::IncompatibleTypes
            | Diagnostic::StructTested
            | Diagnostic::VoidReturnsValue
            | Diagnostic::MissingReturnValue
            | Diagnostic::AssignToNonLvalue
            | Diagnostic::ArrayAssigned
            | Diagnostic::StructCompared
            | Diagnostic::ArrayCompared
            | Diagnostic::ArrayInArithmetic
            | Diagnostic::StructInArithmetic
            | Diagnostic::NegatedArray
            | Diagnostic::NegatedStruct
            | Diagnostic::NotOfStruct
            | Diagnostic::IndexedNonArray
            | Diagnostic::NotAFunction => ErrorKind::TypeError,
            Diagnostic::ParentNotAStruct | Diagnostic::NoSuchMember => ErrorKind::MemberError,
            Diagnostic::TooManyArguments | Diagnostic::TooFewArguments => ErrorKind::ArityError,
            Diagnostic::ArraySizeNotConstant | Diagnostic::ArraySizeNotInteger => ErrorKind::ArraySizeError,
            _ => ErrorKind::SyntaxError,
        }
    }

    /// The class of the error.
    #[verifier::when_used_as_spec(spec_kind)]
    pub fn kind(self) -> (k: ErrorKind)
        ensures
            k == self.spec_kind(),
    {
        match self {
            Diagnostic::InvalidToken => ErrorKind::LexError,
            Diagnostic::UndefinedSymbol | Diagnostic::UndefinedStruct => ErrorKind::UndefinedSymbol,
            Diagnostic::SymbolAlreadyDefined => ErrorKind::DuplicateSymbol,
            Diagnostic::FunctionBelowGlobalScope | Diagnostic::NotAStruct => ErrorKind::ScopeError,
            Diagnostic::ArrayToArrayOfOtherType
            | Diagnostic::ArrayToNonArray
            | Diagnostic::NonArrayToArray
            | Diagnostic::StructToOtherStruct
            | Diagnostic::IncompatibleTypes
            | Diagnostic::StructTested
            | Diagnostic::VoidReturnsValue
            | Diagnostic::MissingReturnValue
            | Diagnostic::AssignToNonLvalue
            | Diagnostic::ArrayAssigned
            | Diagnostic::StructCompared
            | Diagnostic::ArrayCompared
            | Diagnostic::ArrayInArithmetic
            | Diagnostic::StructInArithmetic
            | Diagnostic::NegatedArray
            | Diagnostic::NegatedStruct
            | Diagnostic::NotOfStruct
            | Diagnostic::IndexedNonArray
            | Diagnostic::NotAFunction => ErrorKind::TypeError,
            Diagnostic::ParentNotAStruct | Diagnostic::NoSuchMember => ErrorKind::MemberError,
            Diagnostic::TooManyArguments | Diagnostic::TooFewArguments => ErrorKind::ArityError,
            Diagnostic::ArraySizeNotConstant | Diagnostic::ArraySizeNotInteger => ErrorKind::ArraySizeError,
            _ => ErrorKind::SyntaxError,
        }
    }

    /// The words of the diagnostic.
    pub open spec fn text(self) -> Seq<char> {
        match self {
            Diagnostic::InvalidToken => "invalid token"@,
            Diagnostic::ExpectedDeclaration => "expected function / struct / variable definition"@,
            Diagnostic::ExpectedStructIdentifier => "expected struct identifier"@,
            Diagnostic::ExpectedStructEnd => "expected closing bracket `}` at the end of the struct"@,
            Diagnostic::ExpectedSemicolonAfterStruct => "expected semicolon `;` after struct declaration"@,
            Diagnostic::ExpectedIdentifier => "expected identifier"@,
            Diagnostic::ExpectedIdentifierAfterComma => "expected variable identifier after comma `,`"@,
            Diagnostic::ExpectedSemicolonAfterDeclaration => "expected semicolon `;` after the variable declaration"@,
            Diagnostic::ExpectedDeclarationEnd => "expected ',', ';' or array declaration"@,
            Diagnostic::MissingStructIdentifier => "missing / invalid struct identifier"@,
            Diagnostic::ExpectedArrayEnd => "expected `]` at the end of array declaration"@,
            Diagnostic::ExpectedArgumentAfterComma => "expected function argument after ,"@,
            Diagnostic::ExpectedArgumentIdentifier => "expected function argument identifier"@,
            Diagnostic::ExpectedFunctionBody => "expected statement after function declaration"@,
            Diagnostic::ExpectedArgumentsEnd => "expected `)` at the end of function declaration"@,
            Diagnostic::ExpectedIfOpen => "expected opening `(` before the `if` condition"@,
            Diagnostic::ExpectedIfCondition => "expected `if` condition"@,
            Diagnostic::ExpectedIfClose => "expected closing `)` after `if` condition"@,
            Diagnostic::ExpectedIfStatement => "expected `if` statement"@,
            Diagnostic::ExpectedElseStatement => "expected `else` statement"@,
            Diagnostic::ExpectedWhileOpen => "expected `(` before the `while` condition"@,
            Diagnostic::ExpectedWhileCondition => "expected `while` condition"@,
            Diagnostic::ExpectedWhileClose => "expected `)` after `while` condition"@,
            Diagnostic::ExpectedWhileStatement => "expected `while` statement"@,
            Diagnostic::ExpectedForOpen => "expected `(` at the start of the `for`"@,
            Diagnostic::ExpectedForFirstSemicolon => "expected semicolon `;` after the first `for` expression"@,
            Diagnostic::ExpectedForSecondSemicolon => "expected semicolon `;` after the second `for` expression"@,
            Diagnostic::ExpectedForClose => "expected `)` at the end of the `for`"@,
            Diagnostic::ExpectedForStatement => "expected `for` statement"@,
            Diagnostic::ExpectedSemicolonAfterBreak => "expected semicolon `;` at the end of the `break` statement"@,
            Diagnostic::ExpectedSemicolonAfterReturn => "expected semicolon `;` at the end of the `return` statement"@,
            Diagnostic::ExpectedSemicolonAfterExpression => "expected semicolon `;` at the end of the expression"@,
            Diagnostic::ExpectedBlockEnd => "expected } at the end of the statement"@,
            Diagnostic::MissingAssignOperand => "missing right operand after `=` in assign operation"@,
            Diagnostic::MissingOrOperand => "expected operand in `or` expression body"@,
            Diagnostic::MissingAndOperand => "expected operand in `and` expression body"@,
            Diagnostic::MissingEqualityOperand => "expected operand in `equals` expression body"@,
            Diagnostic::MissingRelationOperand => "expected operand in `relation` expression body"@,
            Diagnostic::MissingAdditionOperand => "expected operand in `addition / subtraction` expression body"@,
            Diagnostic::MissingMultiplicationOperand => "expected operand in `multiplication / division` expression body"@,
            Diagnostic::InvalidCastExpression => "invalid `cast` expression"@,
            Diagnostic::ExpectedCastClose => "expected closing `)` in `cast` expression"@,
            Diagnostic::InvalidUnaryExpression => "invalid unary expression"@,
            Diagnostic::ExpectedIndexExpression => "expected `expression` after `[`"@,
            Diagnostic::ExpectedIndexClose => "expected `]` in `postfix` rule"@,
            Diagnostic::ExpectedMemberIdentifier => "expected identifier after `.`"@,
            Diagnostic::ExpectedArgumentExpression => "expected `expression` after `comma` in primary rule"@,
            Diagnostic::ExpectedCallClose => "expected closing `)` after expression body"@,
            Diagnostic::ExpectedParenthesisClose => "expected closing `)` after expression"@,
            Diagnostic::UndefinedSymbol => "undefined symbol"@,
            Diagnostic::UndefinedStruct => "undefined struct"@,
            Diagnostic::SymbolAlreadyDefined => "symbol is already defined"@,
            Diagnostic::FunctionBelowGlobalScope => "functions must be declared on global level"@,
            Diagnostic::NotAStruct => "not a struct"@,
            Diagnostic::ArrayToArrayOfOtherType => "an array cannot be converted to an array of another type"@,
            Diagnostic::ArrayToNonArray => "an array cannot be converted to a non-array"@,
            Diagnostic::NonArrayToArray => "a non-array cannot be converted to an array"@,
            Diagnostic::StructToOtherStruct => "a structure cannot be converted to another one"@,
            Diagnostic::IncompatibleTypes => "incompatible types"@,
            Diagnostic::StructTested => "a structure cannot be logically tested"@,
            Diagnostic::VoidReturnsValue => "a void function cannot return a value"@,
            Diagnostic::MissingReturnValue => "a function that is not void must return a value"@,
            Diagnostic::AssignToNonLvalue => "cannot assign to a non-lval"@,
            Diagnostic::ArrayAssigned => "the arrays cannot be assigned"@,
            Diagnostic::StructCompared => "a structure cannot be compared"@,
            Diagnostic::ArrayCompared => "an array cannot be compared"@,
            Diagnostic::ArrayInArithmetic => "an array cannot be added, subtracted, multiplied or divided"@,
            Diagnostic::StructInArithmetic => "a structure cannot be added, subtracted, multiplied or divided"@,
            Diagnostic::NegatedArray => "unary `-` cannot be applied to arrays"@,
            Diagnostic::NegatedStruct => "unary `-` cannot be applied to structures"@,
            Diagnostic::NotOfStruct => "unary `!` cannot be applied to structures"@,
            Diagnostic::IndexedNonArray => "only an array can be indexed"@,
            Diagnostic::NotAFunction => "not a function"@,
            Diagnostic::ParentNotAStruct => "the parent is not a struct"@,
            Diagnostic::NoSuchMember => "the struct does not have the member"@,
            Diagnostic::TooManyArguments => "too many arguments in function call"@,
            Diagnostic::TooFewArguments => "too few arguments in function call"@,
            Diagnostic::ArraySizeNotConstant => "the array size is not a constant value"@,
            Diagnostic::ArraySizeNotInteger => "the array size is not an integer"@,
        }
    }

    /// The words of the diagnostic.
    pub fn message(self) -> (m: &'static str)
        ensures
            m@ == self.text(),
    {
        match self {
            Diagnostic::InvalidToken => "invalid token",
            Diagnostic::ExpectedDeclaration => "expected function / struct / variable definition",
            Diagnostic::ExpectedStructIdentifier => "expected struct identifier",
            Diagnostic::ExpectedStructEnd => "expected closing bracket `}` at the end of the struct",
            Diagnostic::ExpectedSemicolonAfterStruct => "expected semicolon `;` after struct declaration",
            Diagnostic::ExpectedIdentifier => "expected identifier",
            Diagnostic::ExpectedIdentifierAfterComma => "expected variable identifier after comma `,`",
            Diagnostic::ExpectedSemicolonAfterDeclaration => "expected semicolon `;` after the variable declaration",
            Diagnostic::ExpectedDeclarationEnd => "expected ',', ';' or array declaration",
            Diagnostic::MissingStructIdentifier => "missing / invalid struct identifier",
            Diagnostic::ExpectedArrayEnd => "expected `]` at the end of array declaration",
            Diagnostic::ExpectedArgumentAfterComma => "expected function argument after ,",
            Diagnostic::ExpectedArgumentIdentifier => "expected function argument identifier",
            Diagnostic::ExpectedFunctionBody => "expected statement after function declaration",
            Diagnostic::ExpectedArgumentsEnd => "expected `)` at the end of function declaration",
            Diagnostic::ExpectedIfOpen => "expected opening `(` before the `if` condition",
            Diagnostic::ExpectedIfCondition => "expected `if` condition",
            Diagnostic::ExpectedIfClose => "expected closing `)` after `if` condition",
            Diagnostic::ExpectedIfStatement => "expected `if` statement",
            Diagnostic::ExpectedElseStatement => "expected `else` statement",
            Diagnostic::ExpectedWhileOpen => "expected `(` before the `while` condition",
            Diagnostic::ExpectedWhileCondition => "expected `while` condition",
            Diagnostic::ExpectedWhileClose => "expected `)` after `while` condition",
            Diagnostic::ExpectedWhileStatement => "expected `while` statement",
            Diagnostic::ExpectedForOpen => "expected `(` at the start of the `for`",
            Diagnostic::ExpectedForFirstSemicolon => "expected semicolon `;` after the first `for` expression",
            Diagnostic::ExpectedForSecondSemicolon => "expected semicolon `;` after the second `for` expression",
            Diagnostic::ExpectedForClose => "expected `)` at the end of the `for`",
            Diagnostic::ExpectedForStatement => "expected `for` statement",
            Diagnostic::ExpectedSemicolonAfterBreak => "expected semicolon `;` at the end of the `break` statement",
            Diagnostic::ExpectedSemicolonAfterReturn => "expected semicolon `;` at the end of the `return` statement",
            Diagnostic::ExpectedSemicolonAfterExpression => "expected semicolon `;` at the end of the expression",
            Diagnostic::ExpectedBlockEnd => "expected } at the end of the statement",
            Diagnostic::MissingAssignOperand => "missing right operand after `=` in assign operation",
            Diagnostic::MissingOrOperand => "expected operand in `or` expression body",
            Diagnostic::MissingAndOperand => "expected operand in `and` expression body",
            Diagnostic::MissingEqualityOperand => "expected operand in `equals` expression body",
            Diagnostic::MissingRelationOperand => "expected operand in `relation` expression body",
            Diagnostic::MissingAdditionOperand => "expected operand in `addition / subtraction` expression body",
            Diagnostic::MissingMultiplicationOperand => "expected operand in `multiplication / division` expression body",
            Diagnostic::InvalidCastExpression => "invalid `cast` expression",
            Diagnostic::ExpectedCastClose => "expected closing `)` in `cast` expression",
            Diagnostic::InvalidUnaryExpression => "invalid unary expression",
            Diagnostic::ExpectedIndexExpression => "expected `expression` after `[`",
            Diagnostic::ExpectedIndexClose => "expected `]` in `postfix` rule",
            Diagnostic::ExpectedMemberIdentifier => "expected identifier after `.`",
            Diagnostic::ExpectedArgumentExpression => "expected `expression` after `comma` in primary rule",
            Diagnostic::ExpectedCallClose => "expected closing `)` after expression body",
            Diagnostic::ExpectedParenthesisClose => "expected closing `)` after expression",
            Diagnostic::UndefinedSymbol => "undefined symbol",
            Diagnostic::UndefinedStruct => "undefined struct",
            Diagnostic::SymbolAlreadyDefined => "symbol is already defined",
            Diagnostic::FunctionBelowGlobalScope => "functions must be declared on global level",
            Diagnostic::NotAStruct => "not a struct",
            Diagnostic::ArrayToArrayOfOtherType => "an array cannot be converted to an array of another type",
            Diagnostic::ArrayToNonArray => "an array cannot be converted to a non-array",
            Diagnostic::NonArrayToArray => "a non-array cannot be converted to an array",
            Diagnostic::StructToOtherStruct => "a structure cannot be converted to another one",
            Diagnostic::IncompatibleTypes => "incompatible types",
            Diagnostic::StructTested => "a structure cannot be logically tested",
            Diagnostic::VoidReturnsValue => "a void function cannot return a value",
            Diagnostic::MissingReturnValue => "a function that is not void must return a value",
            Diagnostic::AssignToNonLvalue => "cannot assign to a non-lval",
            Diagnostic::ArrayAssigned => "the arrays cannot be assigned",
            Diagnostic::StructCompared => "a structure cannot be compared",
            Diagnostic::ArrayCompared => "an array cannot be compared",
            Diagnostic::ArrayInArithmetic => "an array cannot be added, subtracted, multiplied or divided",
            Diagnostic::StructInArithmetic => "a structure cannot be added, subtracted, multiplied or divided",
            Diagnostic::NegatedArray => "unary `-` cannot be applied to arrays",
            Diagnostic::NegatedStruct => "unary `-` cannot be applied to structures",
            Diagnostic::NotOfStruct => "unary `!` cannot be applied to structures",
            Diagnostic::IndexedNonArray => "only an array can be indexed",
            Diagnostic::NotAFunction => "not a function",
            Diagnostic::ParentNotAStruct => "the parent is not a struct",
            Diagnostic::NoSuchMember => "the struct does not have the member",
            Diagnostic::TooManyArguments => "too many arguments in function call",
            Diagnostic::TooFewArguments => "too few arguments in function call",
            Diagnostic::ArraySizeNotConstant => "the array size is not a constant value",
            Diagnostic::ArraySizeNotInteger => "the array size is not an integer",
        }
    }
}

/// The decimal digit of a number below ten.
pub open spec fn digit_char(d: int) -> char {
    if d == 0 {
        '0'
    } else if d == 1 {
        '1'
    } else if d == 2 {
        '2'
    } else if d == 3 {
        '3'
    } else if d == 4 {
        '4'
    } else if d == 5 {
        '5'
    } else if d == 6 {
        '6'
    } else if d == 7 {
        '7'
    } else if d == 8 {
        '8'
    } else {
        '9'
    }
}

/// The decimal digits of a number, the highest first.
pub open spec fn decimal_digits(n: nat) -> Seq<char>
    decreases n,
{
    if n < 10 {
        seq![digit_char(n as int)]
    } else {
        decimal_digits(n / 10).push(digit_char((n % 10) as int))
    }
}

/// The decimal digit of a number below ten.
pub fn digit_of(d: usize) -> (c: char)
    requires
        d < 10,
    ensures
        c == digit_char(d as int),
{
    if d == 0 {
        '0'
    } else if d == 1 {
        '1'
    } else if d == 2 {
        '2'
    } else if d == 3 {
        '3'
    } else if d == 4 {
        '4'
    } else if d == 5 {
        '5'
    } else if d == 6 {
        '6'
    } else if d == 7 {
        '7'
    } else if d == 8 {
        '8'
    } else {
        '9'
    }
}

/// A number in decimal digits.
pub fn decimal(n: usize) -> (s: String)
    ensures
        s@ == decimal_digits(n as nat),
    decreases n,
{
    if n < 10 {
        let mut s = String::new();
        s.push(digit_of(n));
        assert(s@ =~= seq![digit_char(n as int)]);
        s
    } else {
        let mut s = decimal(n / 10);
        s.push(digit_of(n % 10));
        s
    }
}

/// A compilation error: what went wrong and on which line of the source.
#[derive(Clone, Copy, Debug, PartialEq, Eq, Structural)]
pub struct CompileError {
    pub diagnostic: Diagnostic,
    pub line: usize,
}

impl CompileError {
    pub fn new(diagnostic: Diagnostic, line: usize) -> (e: CompileError)
        ensures
            e == (CompileError { diagnostic, line }),
    {
        CompileError { diagnostic, line }
    }

    /// The class of the error.
    pub fn kind(&self) -> (k: ErrorKind)
        ensures
            k == self.diagnostic.spec_kind(),
    {
        self.diagnostic.kind()
    }

    /// The diagnostic as one line of text.
    pub open spec fn report_text(self) -> Seq<char> {
        "Error at line "@ + decimal_digits(self.line as nat) + ": "@ + self.diagnostic.text()
    }

    /// The diagnostic as one line of text: `Error at line`, the line, a
    /// colon and the words of the diagnostic.
    pub fn report(&self) -> (s: String)
        ensures
            s@ == self.report_text(),
    {
        let mut s = String::from_str("Error at line ");
        let line = decimal(self.line);
        s.append(line.as_str());
        s.append(": ");
        s.append(self.diagnostic.message());
        s
    }
}

} // verus!
