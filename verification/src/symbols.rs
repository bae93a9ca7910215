//! The symbol model: types, symbols, scopes and the built-in routines.

use crate::error::{CompileError, Diagnostic};
use crate::lexer::Token;
use indexmap::IndexMap;
use vstd::prelude::*;
use vstd::string::StringExecFns;

verus! {

/// The base types.
#[derive(Clone, Copy, Debug, PartialEq, Eq, Structural)]
pub enum TypeName {
    TbInt,
    TbDouble,
    TbChar,
    TbStruct,
    TbFunc,
    TbVoid,
}

/// What a symbol is: a variable, a function, a routine of the host or a
/// structure.
#[derive(Clone, Copy, Debug, PartialEq, Eq, Structural)]
pub enum ClassType {
    ClsVar,
    ClsFunc,
    ClsExtFunc,
    ClsStruct,
}

/// Where a symbol is stored.
#[derive(Clone, Copy, Debug, PartialEq, Eq, Structural)]
pub enum StorageType {
    MemGlobal,
    MemLocal,
    MemArg,
    MemStruct,
    MemDeclaration,
    MemBuiltin,
}

/// The value of a constant expression. A real constant is kept as the text
/// of its literal.
#[derive(Debug)]
pub enum CtVal {
    IntChar(i64),
    Double(String),
    String(String),
}

/// A constant value with its texts as character sequences.
pub enum CtValView {
    IntChar(int),
    Double(Seq<char>),
    String(Seq<char>),
}

impl View for CtVal {
    type V = CtValView;

    open spec fn view(&self) -> CtValView {
        match self {
            CtVal::IntChar(i) => CtValView::IntChar(*i as int),
            CtVal::Double(s) => CtValView::Double(s@),
            CtVal::String(s) => CtValView::String(s@),
        }
    }
}

impl Clone for CtVal {
    fn clone(&self) -> (res: Self)
        ensures
            res == *self,
    {
        match self {
            CtVal::IntChar(i) => CtVal::IntChar(*i),
            CtVal::Double(s) => CtVal::Double(s.clone()),
            CtVal::String(s) => CtVal::String(s.clone()),
        }
    }
}

impl CtVal {
    /// The integer of an integer or character constant; 0 for any other.
    pub fn get_int(&self) -> (value: i64)
        ensures
            value == (match self@ {
                CtValView::IntChar(i) => i,
                _ => 0,
            }),
    {
        match self {
            CtVal::IntChar(i) => *i,
            _ => 0,
        }
    }

    /// The text of a real constant; the empty string for any other.
    pub fn get_double(&self) -> (text: String)
        ensures
            text@ == (match self@ {
                CtValView::Double(s) => s,
                _ => Seq::empty(),
            }),
    {
        match self {
            CtVal::Double(s) => s.clone(),
            _ => String::new(),
        }
    }

    /// The characters of a string constant; the empty string for any other.
    pub fn get_string(&self) -> (text: String)
        ensures
            text@ == (match self@ {
                CtValView::String(s) => s,
                _ => Seq::empty(),
            }),
    {
        match self {
            CtVal::String(s) => s.clone(),
            _ => String::new(),
        }
    }
}

/// The type of a symbol or of an expression.
#[derive(Debug)]
pub struct SymbolType {
    /// The base type.
    pub type_base: TypeName,
    /// For a structure type, the name of the structure's symbol, which the
    /// global scope holds.
    pub struct_symbol: Option<String>,
    /// Negative for a scalar, 0 for an array without size, else the size
    /// of the array.
    pub num_elements: i64,
}

/// A type with its structure's name as a character sequence.
pub struct SymbolTypeView {
    pub type_base: TypeName,
    pub struct_symbol: Option<Seq<char>>,
    pub num_elements: int,
}

impl SymbolTypeView {
    pub open spec fn is_array(self) -> bool {
        self.num_elements > -1
    }

    pub open spec fn is_numeric(self) -> bool {
        self.type_base == TypeName::TbChar || self.type_base == TypeName::TbInt
            || self.type_base == TypeName::TbDouble
    }

    /// A scalar of a base type other than a structure.
    pub open spec fn scalar(type_base: TypeName) -> SymbolTypeView {
        SymbolTypeView { type_base, struct_symbol: None, num_elements: -1 }
    }
}

/// Why a value of type `src` cannot stand where `dst` is asked for, if it
/// cannot.
///
/// - An array goes only to an array of the same base type, of any size.
/// - Characters, integers and reals go to one another.
/// - A structure goes only to the structure of the same name.
pub open spec fn cast_failure(src: SymbolTypeView, dst: SymbolTypeView) -> Option<Diagnostic> {
    if src.is_array() && dst.is_array() && src.type_base != dst.type_base {
        Some(Diagnostic::ArrayToArrayOfOtherType)
    } else if src.is_array() && !dst.is_array() {
        Some(Diagnostic::ArrayToNonArray)
    } else if !src.is_array() && dst.is_array() {
        Some(Diagnostic::NonArrayToArray)
    } else if src.is_numeric() && dst.is_numeric() {
        None
    } else if src.type_base == TypeName::TbStruct && dst.type_base == TypeName::TbStruct {
        if src.struct_symbol is Some && src.struct_symbol == dst.struct_symbol {
            None
        } else {
            Some(Diagnostic::StructToOtherStruct)
        }
    } else {
        Some(Diagnostic::IncompatibleTypes)
    }
}

/// The common type of two operands of an arithmetic operation, if they have
/// one: both are scalars of a numeric type; the result is a real if one of
/// them is, else an integer if one of them is, else a character.
pub open spec fn arith_result(a: SymbolTypeView, b: SymbolTypeView) -> Option<SymbolTypeView> {
    if a.is_array() || b.is_array() || !a.is_numeric() || !b.is_numeric() {
        None
    } else if a.type_base == TypeName::TbDouble || b.type_base == TypeName::TbDouble {
        Some(SymbolTypeView::scalar(TypeName::TbDouble))
    } else if a.type_base == TypeName::TbInt || b.type_base == TypeName::TbInt {
        Some(SymbolTypeView::scalar(TypeName::TbInt))
    } else {
        Some(SymbolTypeView::scalar(TypeName::TbChar))
    }
}

impl View for SymbolType {
    type V = SymbolTypeView;

    open spec fn view(&self) -> SymbolTypeView {
        SymbolTypeView {
            type_base: self.type_base,
            struct_symbol: match self.struct_symbol {
                Some(s) => Some(s@),
                None => None,
            },
            num_elements: self.num_elements as int,
        }
    }
}

impl Default for SymbolType {
    fn default() -> (t: Self)
        ensures
            t@ == SymbolTypeView::scalar(TypeName::TbVoid),
    {
        SymbolType { type_base: TypeName::TbVoid, struct_symbol: None, num_elements: -1 }
    }
}

impl Clone for SymbolType {
    fn clone(&self) -> (res: Self)
        ensures
            res == *self,
    {
        SymbolType {
            type_base: self.type_base,
            struct_symbol: match &self.struct_symbol {
                Some(s) => Some(s.clone()),
                None => None,
            },
            num_elements: self.num_elements,
        }
    }
}

/// The view of an optional type.
pub open spec fn type_view(t: Option<SymbolType>) -> Option<SymbolTypeView> {
    match t {
        Some(t) => Some(t@),
        None => None,
    }
}

impl SymbolType {
    /// A type of the given base that names no structure.
    pub fn new(type_base: TypeName, num_elements: i64) -> (t: Self)
        ensures
            t@ == (SymbolTypeView {
                type_base,
                struct_symbol: None,
                num_elements: num_elements as int,
            }),
    {
        SymbolType { type_base, struct_symbol: None, num_elements }
    }

    /// Whether the type is an array, with or without size.
    pub fn is_array(&self) -> (b: bool)
        ensures
            b == self@.is_array(),
    {
        self.num_elements > -1
    }

    /// Whether the base is a character, an integer or a real.
    pub fn is_numeric(&self) -> (b: bool)
        ensures
            b == self@.is_numeric(),
    {
        self.type_base == TypeName::TbChar || self.type_base == TypeName::TbInt
            || self.type_base == TypeName::TbDouble
    }

    /// Why a value of this type cannot stand where `dst` is asked for, if
    /// it cannot.
    pub fn cast_check(&self, dst: &SymbolType) -> (r: Option<Diagnostic>)
        ensures
            r == cast_failure(self@, dst@),
    {
        if self.is_array() && dst.is_array() && self.type_base != dst.type_base {
            return Some(Diagnostic::ArrayToArrayOfOtherType);
        }
        if self.is_array() && !dst.is_array() {
            return Some(Diagnostic::ArrayToNonArray);
        }
        if !self.is_array() && dst.is_array() {
            return Some(Diagnostic::NonArrayToArray);
        }
        if self.is_numeric() && dst.is_numeric() {
            return None;
        }
        if self.type_base == TypeName::TbStruct && dst.type_base == TypeName::TbStruct {
            let same = match (&self.struct_symbol, &dst.struct_symbol) {
                (Some(a), Some(b)) => *a == *b,
                _ => false,
            };
            if same {
                return None;
            }
            return Some(Diagnostic::StructToOtherStruct);
        }
        Some(Diagnostic::IncompatibleTypes)
    }

    /// Checks that a value of this type can stand where `dst` is asked
    /// for. Where it cannot, the error names the reason and the line of
    /// `token`.
    pub fn cast(&self, dst: SymbolType, token: &Token) -> (r: Result<(), CompileError>)
        ensures
            match cast_failure(self@, dst@) {
                None => r is Ok,
                Some(d) => r == Err::<(), CompileError>(
                    CompileError { diagnostic: d, line: token.line },
                ),
            },
    {
        let line = token.line;
        if self.is_array() && dst.is_array() && self.type_base != dst.type_base {
            return Err(CompileError::new(Diagnostic::ArrayToArrayOfOtherType, line));
        }
        if self.is_array() && !dst.is_array() {
            return Err(CompileError::new(Diagnostic::ArrayToNonArray, line));
        }
        if !self.is_array() && dst.is_array() {
            return Err(CompileError::new(Diagnostic::NonArrayToArray, line));
        }
        if self.is_numeric() && dst.is_numeric() {
            return Ok(());
        }
        if self.type_base == TypeName::TbStruct && dst.type_base == TypeName::TbStruct {
            let same = match (&self.struct_symbol, &dst.struct_symbol) {
                (Some(a), Some(b)) => *a == *b,
                _ => false,
            };
            if same {
                return Ok(());
            }
            return Err(CompileError::new(Diagnostic::StructToOtherStruct, line));
        }
        Err(CompileError::new(Diagnostic::IncompatibleTypes, line))
    }

    /// The common type of this operand and `t` in an arithmetic operation.
    pub fn get_arith_type(self, t: SymbolType) -> (r: Option<SymbolType>)
        ensures
            type_view(r) == arith_result(self@, t@),
    {
        if self.is_array() || t.is_array() || !self.is_numeric() || !t.is_numeric() {
            None
        } else if self.type_base == TypeName::TbDouble || t.type_base == TypeName::TbDouble {
            Some(SymbolType::new(TypeName::TbDouble, -1))
        } else if self.type_base == TypeName::TbInt || t.type_base == TypeName::TbInt {
            Some(SymbolType::new(TypeName::TbInt, -1))
        } else {
            Some(SymbolType::new(TypeName::TbChar, -1))
        }
    }
}

/// A type of a numeric or structure base, which names its structure if it
/// is one, can be cast to itself.
pub proof fn law_cast_to_itself(t: SymbolTypeView)
    requires
        t.is_numeric() || (t.type_base == TypeName::TbStruct && t.struct_symbol is Some),
    ensures
        cast_failure(t, t) is None,
{
}

/// Whether one type can be cast to another does not depend on the direction.
pub proof fn law_cast_symmetric(a: SymbolTypeView, b: SymbolTypeView)
    ensures
        cast_failure(a, b) is None <==> cast_failure(b, a) is None,
{
}

/// The common arithmetic type does not depend on the order of the operands.
pub proof fn law_arith_result_symmetric(a: SymbolTypeView, b: SymbolTypeView)
    ensures
        arith_result(a, b) == arith_result(b, a),
{
}

/// The result of analysing an expression.
#[derive(Debug)]
pub struct RetVal {
    /// The type of the expression.
    pub symbol_type: Option<SymbolType>,
    /// Whether the expression designates a storage location.
    pub is_lval: bool,
    /// Whether the expression is a constant.
    pub is_ctval: bool,
    /// The value of the constant.
    pub ctval: Option<CtVal>,
}

/// The result of analysing an expression, as plain values.
pub struct RetValView {
    pub symbol_type: Option<SymbolTypeView>,
    pub is_lval: bool,
    pub is_ctval: bool,
    pub ctval: Option<CtValView>,
}

impl View for RetVal {
    type V = RetValView;

    open spec fn view(&self) -> RetValView {
        RetValView {
            symbol_type: type_view(self.symbol_type),
            is_lval: self.is_lval,
            is_ctval: self.is_ctval,
            ctval: match self.ctval {
                Some(c) => Some(c@),
                None => None,
            },
        }
    }
}

impl Default for RetVal {
    fn default() -> (r: Self)
        ensures
            r@ == (RetValView { symbol_type: None, is_lval: false, is_ctval: false, ctval: None }),
    {
        RetVal { symbol_type: None, is_lval: false, is_ctval: false, ctval: None }
    }
}

/// An absolute address, of a global or of a routine of the host, or an
/// offset in the stack frame, of a local or an argument.
#[derive(Clone, Copy, Debug, PartialEq, Eq, Structural)]
pub enum AddrOffset {
    Addr(usize),
    Offset(isize),
}

impl AddrOffset {
    /// The address; 0 where this is an offset.
    pub fn get_addr(&self) -> (addr: usize)
        ensures
            addr == (match *self {
                AddrOffset::Addr(a) => a,
                AddrOffset::Offset(_) => 0,
            }),
    {
        match self {
            AddrOffset::Addr(a) => *a,
            AddrOffset::Offset(_) => 0,
        }
    }

    /// The offset; 0 where this is an address.
    pub fn get_offset(&self) -> (offset: isize)
        ensures
            offset == (match *self {
                AddrOffset::Offset(o) => o,
                AddrOffset::Addr(_) => 0,
            }),
    {
        match self {
            AddrOffset::Offset(o) => *o,
            AddrOffset::Addr(_) => 0,
        }
    }
}

/// An ordered map from names to symbols: the entries stand in the order in
/// which their names were first inserted. It is kept by an
/// `indexmap::IndexMap`, which Verus does not look into.
#[verifier::external_body]
#[derive(Debug)]
pub struct SymbolMap {
    inner: IndexMap<String, Symbol>,
}

/// The entries of a map in their order: each a name and the symbol bound to it.
pub uninterp spec fn symbol_map_entries(m: SymbolMap) -> Seq<(Seq<char>, SymbolView)>;

/// The symbol that the entries bind to `key`, if they bind one.
pub open spec fn find_entry(entries: Seq<(Seq<char>, SymbolView)>, key: Seq<char>) -> Option<
    SymbolView,
>
    decreases entries.len(),
{
    if entries.len() == 0 {
        None
    } else if entries.last().0 == key {
        Some(entries.last().1)
    } else {
        find_entry(entries.drop_last(), key)
    }
}

/// The place of the entry that binds `key`; -1 if there is none.
pub open spec fn entry_index(entries: Seq<(Seq<char>, SymbolView)>, key: Seq<char>) -> int
    decreases entries.len(),
{
    if entries.len() == 0 {
        -1
    } else if entries.last().0 == key {
        entries.len() - 1
    } else {
        entry_index(entries.drop_last(), key)
    }
}

/// The entries after `key` is bound to `value`: an entry for `key` keeps its
/// place and gets the new value; without one, the new entry comes last.
pub open spec fn insert_entry(
    entries: Seq<(Seq<char>, SymbolView)>,
    key: Seq<char>,
    value: SymbolView,
) -> Seq<(Seq<char>, SymbolView)> {
    let i = entry_index(entries, key);
    if 0 <= i < entries.len() {
        entries.update(i, (key, value))
    } else {
        entries.push((key, value))
    }
}

/// The view of an optional symbol.
pub open spec fn symbol_view(s: Option<Symbol>) -> Option<SymbolView> {
    match s {
        Some(s) => Some(s@),
        None => None,
    }
}

impl SymbolMap {
    /// The entries of the map in their order.
    pub open spec fn entries(&self) -> Seq<(Seq<char>, SymbolView)> {
        symbol_map_entries(*self)
    }

    /// A map without entries.
    pub fn new() -> (m: SymbolMap)
        ensures
            m.entries() == Seq::<(Seq<char>, SymbolView)>::empty(),
    {
        SymbolMap::index_new()
    }

    /// The number of entries.
    pub fn len(&self) -> (n: usize)
        ensures
            n == self.entries().len(),
    {
        self.index_len()
    }

    /// A copy of the symbol bound to `key`, if one is.
    pub fn get(&self, key: &str) -> (r: Option<Symbol>)
        ensures
            symbol_view(r) == find_entry(self.entries(), key@),
    {
        self.index_get(key)
    }

    /// Binds `key` to `value` and returns the symbol that was bound to it
    /// before, if one was.
    pub fn insert(&mut self, key: String, value: Symbol) -> (r: Option<Symbol>)
        ensures
            final(self).entries() == insert_entry(old(self).entries(), key@, value@),
            symbol_view(r) == find_entry(old(self).entries(), key@),
    {
        self.index_insert(key, value)
    }

    /// Removes all entries.
    pub fn clear(&mut self)
        ensures
            final(self).entries() == Seq::<(Seq<char>, SymbolView)>::empty(),
    {
        self.index_clear()
    }

    /// Copies of the symbols, in the order of the entries.
    pub fn values(&self) -> (symbols: Vec<Symbol>)
        ensures
            symbols.len() == self.entries().len(),
            forall|i: int| 0 <= i < symbols.len() ==> (#[trigger] symbols[i])@ == self.entries()[i].1,
    {
        self.index_values()
    }

    /// `IndexMap::new`: a map without entries.
    #[verifier::external_body]
    fn index_new() -> (m: SymbolMap)
        ensures
            symbol_map_entries(m) == Seq::<(Seq<char>, SymbolView)>::empty(),
    {
        SymbolMap { inner: IndexMap::new() }
    }

    /// `IndexMap::len`: the number of entries.
    #[verifier::external_body]
    fn index_len(&self) -> (n: usize)
        ensures
            n == symbol_map_entries(*self).len(),
    {
        self.inner.len()
    }

    /// `IndexMap::get`: the symbol bound to `key`, if one is. The result
    /// is a copy of it.
    #[verifier::external_body]
    fn index_get(&self, key: &str) -> (r: Option<Symbol>)
        ensures
            symbol_view(r) == find_entry(symbol_map_entries(*self), key@),
    {
        self.inner.get(key).cloned()
    }

    /// `IndexMap::insert`: binds `key` to `value`. An entry for `key` keeps
    /// its place in the order and gets the new value, and the old value is
    /// returned; without one, the new entry comes last and `None` is
    /// returned.
    #[verifier::external_body]
    fn index_insert(&mut self, key: String, value: Symbol) -> (r: Option<Symbol>)
        ensures
            symbol_map_entries(*final(self)) == insert_entry(
                symbol_map_entries(*old(self)),
                key@,
                value@,
            ),
            symbol_view(r) == find_entry(symbol_map_entries(*old(self)), key@),
    {
        self.inner.insert(key, value)
    }

    /// `IndexMap::clear`: removes all entries.
    #[verifier::external_body]
    fn index_clear(&mut self)
        ensures
            symbol_map_entries(*final(self)) == Seq::<(Seq<char>, SymbolView)>::empty(),
    {
        self.inner.clear()
    }

    /// `IndexMap::values`: the symbols in the order of the entries. The
    /// result holds copies of them.
    #[verifier::external_body]
    fn index_values(&self) -> (symbols: Vec<Symbol>)
        ensures
            symbols.len() == symbol_map_entries(*self).len(),
            forall|i: int|
                0 <= i < symbols.len() ==> (#[trigger] symbols[i])@ == symbol_map_entries(
                    *self,
                )[i].1,
    {
        self.inner.values().cloned().collect()
    }

    /// `IndexMap::clone`: a map with the same entries in the same order.
    #[verifier::external_body]
    fn index_clone(&self) -> (m: SymbolMap)
        ensures
            symbol_map_entries(m) == symbol_map_entries(*self),
    {
        SymbolMap { inner: self.inner.clone() }
    }
}

impl Clone for SymbolMap {
    fn clone(&self) -> (m: Self)
        ensures
            m.entries() == self.entries(),
    {
        self.index_clone()
    }
}

/// A named, typed definition.
#[derive(Debug)]
pub struct Symbol {
    pub name: String,
    pub class: ClassType,
    pub storage: StorageType,
    /// The type of a variable, the return type of a function.
    pub symbol_type: SymbolType,
    /// 0 at the global scope, more inside blocks and structures.
    pub depth: usize,
    /// The line of the definition.
    pub line: usize,
    /// The members of a structure or the parameters of a function, in the
    /// order of their declaration.
    pub am: Option<SymbolMap>,
    /// The index of the scope that holds the symbol.
    pub table: usize,
    pub ao: AddrOffset,
}

/// A symbol as plain values.
pub struct SymbolView {
    pub name: Seq<char>,
    pub class: ClassType,
    pub storage: StorageType,
    pub symbol_type: SymbolTypeView,
    pub depth: int,
    pub line: int,
    pub am: Option<Seq<(Seq<char>, SymbolView)>>,
    pub table: int,
    pub ao: AddrOffset,
}

impl View for Symbol {
    type V = SymbolView;

    open spec fn view(&self) -> SymbolView {
        SymbolView {
            name: self.name@,
            class: self.class,
            storage: self.storage,
            symbol_type: self.symbol_type@,
            depth: self.depth as int,
            line: self.line as int,
            am: match self.am {
                Some(m) => Some(symbol_map_entries(m)),
                None => None,
            },
            table: self.table as int,
            ao: self.ao,
        }
    }
}

impl Default for Symbol {
    fn default() -> (s: Self)
        ensures
            s@ == SymbolView::blank(),
    {
        Symbol {
            name: String::new(),
            class: ClassType::ClsVar,
            storage: StorageType::MemGlobal,
            symbol_type: SymbolType::default(),
            depth: 0,
            line: 0,
            am: None,
            table: 0,
            ao: AddrOffset::Offset(0),
        }
    }
}

impl Clone for Symbol {
    fn clone(&self) -> (res: Self)
        ensures
            res@ == self@,
    {
        Symbol {
            name: self.name.clone(),
            class: self.class,
            storage: self.storage,
            symbol_type: self.symbol_type.clone(),
            depth: self.depth,
            line: self.line,
            am: match &self.am {
                Some(m) => Some(m.clone()),
                None => None,
            },
            table: self.table,
            ao: self.ao,
        }
    }
}

impl SymbolView {
    /// The symbol without a name: a global variable of type void, without
    /// members, at line 0.
    pub open spec fn blank() -> SymbolView {
        SymbolView {
            name: Seq::empty(),
            class: ClassType::ClsVar,
            storage: StorageType::MemGlobal,
            symbol_type: SymbolTypeView::scalar(TypeName::TbVoid),
            depth: 0,
            line: 0,
            am: None,
            table: 0,
            ao: AddrOffset::Offset(0),
        }
    }

    /// The member of that name, if the symbol has members and one of them
    /// has the name.
    pub open spec fn member(self, name: Seq<char>) -> Option<SymbolView> {
        match self.am {
            Some(entries) => find_entry(entries, name),
            None => None,
        }
    }

    /// The symbol after `member` is bound to its own name among the
    /// members; a symbol without members stays as it is.
    pub open spec fn with_member(self, member: SymbolView) -> SymbolView {
        match self.am {
            Some(entries) => SymbolView {
                am: Some(insert_entry(entries, member.name, member)),
                ..self
            },
            None => self,
        }
    }
}

impl Symbol {
    /// A copy of the member of that name, if there is one.
    pub fn find_symbol(&self, symbol_name: &str) -> (r: Option<Symbol>)
        ensures
            symbol_view(r) == self@.member(symbol_name@),
    {
        match &self.am {
            Some(am) => am.get(symbol_name),
            None => None,
        }
    }

    /// Adds a member under its own name. A member of that name makes it an
    /// error, at the line of the new one, and nothing changes; a symbol
    /// without members takes none.
    pub fn add_symbol(&mut self, symbol: Symbol) -> (r: Result<(), CompileError>)
        ensures
            match old(self)@.member(symbol@.name) {
                Some(_) => r == Err::<(), CompileError>(
                    CompileError { diagnostic: Diagnostic::SymbolAlreadyDefined, line: symbol.line },
                ) && final(self)@ == old(self)@,
                None => r is Ok && final(self)@ == old(self)@.with_member(symbol@),
            },
    {
        match self.find_symbol(symbol.name.as_str()) {
            Some(_) => Err(CompileError::new(Diagnostic::SymbolAlreadyDefined, symbol.line)),
            None => {
                self.update_symbol(symbol);
                Ok(())
            },
        }
    }

    /// Binds a member to its own name, whether or not one of that name is
    /// there; a symbol without members takes none.
    pub fn update_symbol(&mut self, symbol: Symbol)
        ensures
            final(self)@ == old(self)@.with_member(symbol@),
    {
        let key = symbol.name.clone();
        match &mut self.am {
            Some(am) => {
                let _ = am.insert(key, symbol);
            },
            None => {},
        }
    }
}

/// A scope: the symbols defined in it, by name and in the order of their
/// definition.
#[derive(Debug)]
pub struct Context {
    pub symbols: SymbolMap,
    pub storage: StorageType,
    pub depth: usize,
}

/// A scope as plain values.
pub struct ContextView {
    pub symbols: Seq<(Seq<char>, SymbolView)>,
    pub storage: StorageType,
    pub depth: int,
}

impl ContextView {
    /// The scope after a symbol is added to it under its own name, behind
    /// the symbols that it holds. A symbol of that name in the scope
    /// makes it a duplicate, an error at the line of the new symbol.
    pub open spec fn added(self, symbol: SymbolView) -> Result<ContextView, CompileError> {
        match find_entry(self.symbols, symbol.name) {
            Some(_) => Err(
                CompileError {
                    diagnostic: Diagnostic::SymbolAlreadyDefined,
                    line: symbol.line as usize,
                },
            ),
            None => Ok(ContextView { symbols: self.symbols.push((symbol.name, symbol)), ..self }),
        }
    }

    /// The scope as an attempt to add a symbol leaves it: with the symbol
    /// where it was added, unchanged where it was refused.
    pub open spec fn after_adding(self, symbol: SymbolView) -> ContextView {
        match self.added(symbol) {
            Ok(scope) => scope,
            Err(_) => self,
        }
    }
}

impl View for Context {
    type V = ContextView;

    open spec fn view(&self) -> ContextView {
        ContextView {
            symbols: symbol_map_entries(self.symbols),
            storage: self.storage,
            depth: self.depth as int,
        }
    }
}

impl Default for Context {
    fn default() -> (c: Self)
        ensures
            c@ == (ContextView {
                symbols: Seq::empty(),
                storage: StorageType::MemGlobal,
                depth: 0,
            }),
    {
        Context { symbols: SymbolMap::new(), storage: StorageType::MemGlobal, depth: 0 }
    }
}

impl Context {
    /// An empty scope.
    pub fn new(s: StorageType, d: usize) -> (c: Self)
        ensures
            c@ == (ContextView { symbols: Seq::empty(), storage: s, depth: d as int }),
    {
        Context { symbols: SymbolMap::new(), storage: s, depth: d }
    }

    /// Defines a symbol in this scope. A symbol of that name in this scope
    /// makes it an error, at the line of the new one, and nothing changes.
    pub fn add_symbol(&mut self, symbol: Symbol) -> (r: Result<(), CompileError>)
        ensures
            match old(self)@.added(symbol@) {
                Ok(scope) => r is Ok && final(self)@ == scope,
                Err(e) => r == Err::<(), CompileError>(e) && final(self)@ == old(self)@,
            },
            final(self)@ == old(self)@.after_adding(symbol@),
    {
        match self.find_symbol(symbol.name.as_str()) {
            Some(_) => Err(CompileError::new(Diagnostic::SymbolAlreadyDefined, symbol.line)),
            None => {
                proof {
                    lemma_entry_index_absent(self@.symbols, symbol@.name);
                }
                self.update_symbol(symbol);
                Ok(())
            },
        }
    }

    /// A copy of the symbol that this scope binds to the name, if it binds one.
    pub fn find_symbol(&self, symbol_name: &str) -> (r: Option<Symbol>)
        ensures
            symbol_view(r) == find_entry(self@.symbols, symbol_name@),
    {
        self.symbols.get(symbol_name)
    }

    /// Binds a symbol to its own name in this scope, whether or not the
    /// name is bound there.
    pub fn update_symbol(&mut self, symbol: Symbol)
        ensures
            final(self)@ == (ContextView {
                symbols: insert_entry(old(self)@.symbols, symbol@.name, symbol@),
                ..old(self)@
            }),
    {
        let key = symbol.name.clone();
        let _ = self.symbols.insert(key, symbol);
    }

    /// Removes all symbols from this scope.
    pub fn clear(&mut self)
        ensures
            final(self)@ == (ContextView { symbols: Seq::empty(), ..old(self)@ }),
    {
        self.symbols.clear();
    }
}

/// The entry points of the routines of the host, by which a call reaches them.
pub const PUT_S: usize = 1;

pub const GET_S: usize = 2;

pub const PUT_I: usize = 3;

pub const GET_I: usize = 4;

pub const PUT_D: usize = 5;

pub const GET_D: usize = 6;

pub const PUT_C: usize = 7;

pub const GET_C: usize = 8;

pub const SECONDS: usize = 9;

/// The number of routines of the host.
pub const BUILTIN_COUNT: usize = 9;

/// A routine of the host without parameters, as it is first registered.
pub open spec fn ext_func_view(name: Seq<char>, symbol_type: SymbolTypeView, addr: usize) -> SymbolView {
    SymbolView {
        name,
        symbol_type,
        am: Some(Seq::empty()),
        class: ClassType::ClsExtFunc,
        storage: StorageType::MemBuiltin,
        ao: AddrOffset::Addr(addr),
        ..SymbolView::blank()
    }
}

/// A parameter of a routine of the host.
pub open spec fn func_arg_view(name: Seq<char>, symbol_type: SymbolTypeView) -> SymbolView {
    SymbolView {
        name,
        symbol_type,
        class: ClassType::ClsVar,
        storage: StorageType::MemLocal,
        ..SymbolView::blank()
    }
}

/// The routines of the host, in the order of their registration: `put_s`
/// and `get_s` take a string, `put_i`, `put_d` and `put_c` take an integer,
/// a real and a character and return nothing, `get_i`, `get_d` and `get_c`
/// take nothing and return one, and `seconds` returns a real.
pub open spec fn builtin(k: int) -> SymbolView {
    let void = SymbolTypeView::scalar(TypeName::TbVoid);
    let text = SymbolTypeView { type_base: TypeName::TbChar, struct_symbol: None, num_elements: 0 };
    if k == 0 {
        ext_func_view("put_s"@, void, PUT_S).with_member(func_arg_view("s"@, text))
    } else if k == 1 {
        ext_func_view("get_s"@, void, GET_S).with_member(func_arg_view("s"@, text))
    } else if k == 2 {
        ext_func_view("put_i"@, void, PUT_I).with_member(
            func_arg_view("i"@, SymbolTypeView::scalar(TypeName::TbInt)),
        )
    } else if k == 3 {
        ext_func_view("get_i"@, SymbolTypeView::scalar(TypeName::TbInt), GET_I)
    } else if k == 4 {
        ext_func_view("put_d"@, void, PUT_D).with_member(
            func_arg_view("s"@, SymbolTypeView::scalar(TypeName::TbDouble)),
        )
    } else if k == 5 {
        ext_func_view("get_d"@, SymbolTypeView::scalar(TypeName::TbDouble), GET_D)
    } else if k == 6 {
        ext_func_view("put_c"@, void, PUT_C).with_member(
            func_arg_view("c"@, SymbolTypeView::scalar(TypeName::TbChar)),
        )
    } else if k == 7 {
        ext_func_view("get_c"@, SymbolTypeView::scalar(TypeName::TbChar), GET_C)
    } else {
        ext_func_view("seconds"@, SymbolTypeView::scalar(TypeName::TbDouble), SECONDS)
    }
}

/// The entries, and whether all went well, after the routines of the host
/// from the `k`-th on are registered in their order: the first whose name is
/// bound already stops the registration.
pub open spec fn register_builtins(entries: Seq<(Seq<char>, SymbolView)>, k: int) -> (
    Seq<(Seq<char>, SymbolView)>,
    bool,
)
    decreases BUILTIN_COUNT - k,
{
    if k >= BUILTIN_COUNT {
        (entries, true)
    } else if find_entry(entries, builtin(k).name) is Some {
        (entries, false)
    } else {
        register_builtins(entries.push((builtin(k).name, builtin(k))), k + 1)
    }
}

/// Registers a routine of the host, without parameters yet, in a scope, and
/// returns its symbol. A symbol of that name in the scope makes it an error
/// (at line 0: a routine of the host has no line), and nothing changes.
pub fn add_ext_func(name: &str, symbol_type: SymbolType, context: &mut Context, addr: usize) -> (r:
    Result<Symbol, CompileError>)
    ensures
        final(context)@.storage == old(context)@.storage,
        final(context)@.depth == old(context)@.depth,
        match find_entry(old(context)@.symbols, name@) {
            Some(_) => r == Err::<Symbol, CompileError>(
                CompileError { diagnostic: Diagnostic::SymbolAlreadyDefined, line: 0 },
            ) && final(context)@ == old(context)@,
            None => r is Ok && r->Ok_0@ == ext_func_view(name@, symbol_type@, addr)
                && final(context)@.symbols == old(context)@.symbols.push((name@, r->Ok_0@)),
        },
{
    let s = Symbol {
        name: String::from_str(name),
        class: ClassType::ClsExtFunc,
        storage: StorageType::MemBuiltin,
        symbol_type,
        depth: 0,
        line: 0,
        am: Some(SymbolMap::new()),
        table: 0,
        ao: AddrOffset::Addr(addr),
    };
    match context.add_symbol(s.clone()) {
        Ok(()) => Ok(s),
        Err(e) => Err(e),
    }
}

/// Adds a parameter to a function and returns its symbol. A parameter of
/// that name makes it an error (at line 0), and nothing changes.
pub fn add_func_arg(func: &mut Symbol, name: &str, symbol_type: SymbolType) -> (r: Result<
    Symbol,
    CompileError,
>)
    ensures
        match old(func)@.member(name@) {
            Some(_) => r == Err::<Symbol, CompileError>(
                CompileError { diagnostic: Diagnostic::SymbolAlreadyDefined, line: 0 },
            ) && final(func)@ == old(func)@,
            None => r is Ok && r->Ok_0@ == func_arg_view(name@, symbol_type@)
                && final(func)@ == old(func)@.with_member(r->Ok_0@),
        },
{
    let s = Symbol {
        name: String::from_str(name),
        class: ClassType::ClsVar,
        storage: StorageType::MemLocal,
        symbol_type,
        depth: 0,
        line: 0,
        am: None,
        table: 0,
        ao: AddrOffset::Offset(0),
    };
    match func.add_symbol(s.clone()) {
        Ok(()) => Ok(s),
        Err(e) => Err(e),
    }
}

/// Registers one routine of the host with at most one parameter.
fn add_builtin(
    context: &mut Context,
    name: &str,
    symbol_type: SymbolType,
    addr: usize,
    arg: Option<(&str, SymbolType)>,
) -> (r: Result<(), CompileError>)
    ensures
        final(context)@.storage == old(context)@.storage,
        final(context)@.depth == old(context)@.depth,
        match find_entry(old(context)@.symbols, name@) {
            Some(_) => r == Err::<(), CompileError>(
                CompileError { diagnostic: Diagnostic::SymbolAlreadyDefined, line: 0 },
            ) && final(context)@ == old(context)@,
            None => r is Ok && final(context)@.symbols == old(context)@.symbols.push(
                (
                    name@,
                    match arg {
                        Some(a) => ext_func_view(name@, symbol_type@, addr).with_member(
                            func_arg_view(a.0@, a.1@),
                        ),
                        None => ext_func_view(name@, symbol_type@, addr),
                    },
                ),
            ),
        },
{
    let mut s = add_ext_func(name, symbol_type, context, addr)?;
    if let Some(a) = arg {
        proof {
            lemma_entry_index_absent(Seq::empty(), a.0@);
        }
        let _ = add_func_arg(&mut s, a.0, a.1)?;
    }
    proof {
        let before = old(context)@.symbols;
        let mid = context@.symbols;
        lemma_entry_index_absent(mid, name@);
        assert(mid.drop_last() =~= before);
        assert(insert_entry(mid, s@.name, s@) =~= before.push((name@, s@)));
    }
    context.update_symbol(s);
    Ok(())
}

/// Registers the routines of the host in a scope, in their order. The first
/// whose name the scope binds already makes it an error and ends the
/// registration; those before it stay registered.
pub fn add_ext_funcs(context: &mut Context) -> (r: Result<(), CompileError>)
    ensures
        final(context)@.storage == old(context)@.storage,
        final(context)@.depth == old(context)@.depth,
        final(context)@.symbols == register_builtins(old(context)@.symbols, 0).0,
        r is Ok <==> register_builtins(old(context)@.symbols, 0).1,
        r is Err ==> r == Err::<(), CompileError>(
            CompileError { diagnostic: Diagnostic::SymbolAlreadyDefined, line: 0 },
        ),
{
    let ghost start = context@.symbols;
    add_builtin(
        context,
        "put_s",
        SymbolType::new(TypeName::TbVoid, -1),
        PUT_S,
        Some(("s", SymbolType::new(TypeName::TbChar, 0))),
    )?;
    assert(register_builtins(start, 0) == register_builtins(context@.symbols, 1));
    add_builtin(
        context,
        "get_s",
        SymbolType::new(TypeName::TbVoid, -1),
        GET_S,
        Some(("s", SymbolType::new(TypeName::TbChar, 0))),
    )?;
    assert(register_builtins(start, 0) == register_builtins(context@.symbols, 2));
    add_builtin(
        context,
        "put_i",
        SymbolType::new(TypeName::TbVoid, -1),
        PUT_I,
        Some(("i", SymbolType::new(TypeName::TbInt, -1))),
    )?;
    assert(register_builtins(start, 0) == register_builtins(context@.symbols, 3));
    add_builtin(context, "get_i", SymbolType::new(TypeName::TbInt, -1), GET_I, None)?;
    assert(register_builtins(start, 0) == register_builtins(context@.symbols, 4));
    add_builtin(
        context,
        "put_d",
        SymbolType::new(TypeName::TbVoid, -1),
        PUT_D,
        Some(("s", SymbolType::new(TypeName::TbDouble, -1))),
    )?;
    assert(register_builtins(start, 0) == register_builtins(context@.symbols, 5));
    add_builtin(context, "get_d", SymbolType::new(TypeName::TbDouble, -1), GET_D, None)?;
    assert(register_builtins(start, 0) == register_builtins(context@.symbols, 6));
    add_builtin(
        context,
        "put_c",
        SymbolType::new(TypeName::TbVoid, -1),
        PUT_C,
        Some(("c", SymbolType::new(TypeName::TbChar, -1))),
    )?;
    assert(register_builtins(start, 0) == register_builtins(context@.symbols, 7));
    add_builtin(context, "get_c", SymbolType::new(TypeName::TbChar, -1), GET_C, None)?;
    assert(register_builtins(start, 0) == register_builtins(context@.symbols, 8));
    add_builtin(context, "seconds", SymbolType::new(TypeName::TbDouble, -1), SECONDS, None)?;
    assert(register_builtins(start, 0) == register_builtins(context@.symbols, 9));
    Ok(())
}

/// The symbol that a stack of scopes binds to a name: that of the innermost
/// scope that binds it. The innermost scope is the last.
pub open spec fn find_in_stack(scopes: Seq<Context>, name: Seq<char>) -> Option<SymbolView>
    decreases scopes.len(),
{
    if scopes.len() == 0 {
        None
    } else {
        match find_entry(scopes.last()@.symbols, name) {
            Some(s) => Some(s),
            None => find_in_stack(scopes.drop_last(), name),
        }
    }
}

/// A copy of the symbol that the innermost scope binding the name binds to
/// it. A name that no scope binds is an error (at line 0: the lookup knows
/// no token).
pub fn require_symbol(contexts: &Vec<Context>, name: &str) -> (r: Result<Symbol, CompileError>)
    ensures
        match find_in_stack(contexts@, name@) {
            Some(s) => r is Ok && r->Ok_0@ == s,
            None => r == Err::<Symbol, CompileError>(
                CompileError { diagnostic: Diagnostic::UndefinedSymbol, line: 0 },
            ),
        },
{
    match find_symbol_in(contexts, name) {
        Some(s) => Ok(s),
        None => Err(CompileError::new(Diagnostic::UndefinedSymbol, 0)),
    }
}

/// A copy of the symbol that the innermost scope binding the name binds to
/// it, if any scope binds it.
pub fn find_symbol_in(contexts: &Vec<Context>, name: &str) -> (r: Option<Symbol>)
    ensures
        symbol_view(r) == find_in_stack(contexts@, name@),
{
    let mut i: usize = contexts.len();
    assert(contexts@.take(i as int) =~= contexts@);
    while i > 0
        invariant
            i <= contexts.len(),
            find_in_stack(contexts@, name@) == find_in_stack(contexts@.take(i as int), name@),
        decreases i,
    {
        i = i - 1;
        assert(contexts@.take(i + 1).last() == contexts@[i as int]);
        assert(contexts@.take(i + 1).drop_last() =~= contexts@.take(i as int));
        match contexts[i].find_symbol(name) {
            Some(s) => {
                return Some(s);
            },
            None => {},
        }
    }
    assert(contexts@.take(0).len() == 0);
    None
}

/// A lookup in a stack of scopes gives the binding of the innermost scope
/// that binds the name, and nothing exactly if no scope binds it.
pub proof fn law_find_in_stack_innermost(scopes: Seq<Context>, name: Seq<char>)
    ensures
        match find_in_stack(scopes, name) {
            Some(s) => exists|k: int|
                0 <= k < scopes.len() && find_entry(#[trigger] scopes[k]@.symbols, name) == Some(s)
                    && forall|j: int|
                    k < j < scopes.len() ==> find_entry(#[trigger] scopes[j]@.symbols, name) is None,
            None => forall|k: int|
                0 <= k < scopes.len() ==> find_entry(#[trigger] scopes[k]@.symbols, name) is None,
        },
    decreases scopes.len(),
{
    if scopes.len() > 0 {
        let last = scopes.len() - 1;
        match find_entry(scopes.last()@.symbols, name) {
            Some(s) => {
                assert(find_entry(scopes[last]@.symbols, name) == Some(s));
            },
            None => {
                law_find_in_stack_innermost(scopes.drop_last(), name);
                let rest = scopes.drop_last();
                match find_in_stack(rest, name) {
                    Some(s) => {
                        let k = choose|k: int|
                            0 <= k < rest.len() && find_entry(#[trigger] rest[k]@.symbols, name) == Some(s)
                                && forall|j: int|
                                k < j < rest.len() ==> find_entry(#[trigger] rest[j]@.symbols, name) is None;
                        assert(scopes[k] == rest[k]);
                        assert forall|j: int| k < j < scopes.len() implies find_entry(
                            #[trigger] scopes[j]@.symbols,
                            name,
                        ) is None by {
                            if j < last {
                                assert(scopes[j] == rest[j]);
                            }
                        }
                    },
                    None => {
                        assert forall|k: int| 0 <= k < scopes.len() implies find_entry(
                            #[trigger] scopes[k]@.symbols,
                            name,
                        ) is None by {
                            if k < last {
                                assert(scopes[k] == rest[k]);
                            }
                        }
                    },
                }
            },
        }
    }
}

/// After a name is bound to a symbol, a lookup of the name gives that
/// symbol, and a lookup of any other name gives what it gave before.
pub proof fn law_binding_replaces_one_name(
    entries: Seq<(Seq<char>, SymbolView)>,
    key: Seq<char>,
    value: SymbolView,
    other: Seq<char>,
)
    ensures
        find_entry(insert_entry(entries, key, value), key) == Some(value),
        other != key ==> find_entry(insert_entry(entries, key, value), other) == find_entry(
            entries,
            other,
        ),
    decreases entries.len(),
{
    lemma_entry_index_absent(entries, key);
    let i = entry_index(entries, key);
    let after = insert_entry(entries, key, value);
    if i < 0 {
        assert(after.drop_last() =~= entries);
    } else if entries.last().0 == key {
        assert(i == entries.len() - 1);
        assert(after.drop_last() =~= entries.drop_last());
    } else {
        law_binding_replaces_one_name(entries.drop_last(), key, value, other);
        assert(after.drop_last() =~= insert_entry(entries.drop_last(), key, value));
        assert(after.last() == entries.last());
    }
}

/// After a symbol is added to a scope, no symbol of that name can be added
/// to it: the second one is refused as a duplicate, at its own line. This
/// holds whether the first was added or was itself refused.
pub proof fn law_second_definition_is_duplicate(
    scope: ContextView,
    first: SymbolView,
    second: SymbolView,
)
    requires
        first.name == second.name,
    ensures
        scope.after_adding(first).added(second) == Err::<ContextView, CompileError>(
            CompileError {
                diagnostic: Diagnostic::SymbolAlreadyDefined,
                line: second.line as usize,
            },
        ),
        scope.after_adding(first).after_adding(second) == scope.after_adding(first),
{
    if scope.added(first) is Ok {
        assert(scope.symbols.push((first.name, first)).last().0 == second.name);
    }
}

/// A name that the entries do not bind has no place among them, and the
/// other way round.
pub proof fn lemma_entry_index_absent(entries: Seq<(Seq<char>, SymbolView)>, key: Seq<char>)
    ensures
        find_entry(entries, key) is None <==> entry_index(entries, key) == -1,
        -1 <= entry_index(entries, key) < entries.len(),
        entry_index(entries, key) >= 0 ==> entries[entry_index(entries, key)].0 == key
            && find_entry(entries, key) == Some(entries[entry_index(entries, key)].1),
    decreases entries.len(),
{
    if entries.len() > 0 && entries.last().0 != key {
        lemma_entry_index_absent(entries.drop_last(), key);
    }
}

} // verus!
