//! The analysis of declarations and statements: the scopes that they
//! open and close, and the symbols that they define.

use crate::asdr::SyntaxAnalyser;
use crate::asdr_decl_spec::{
    add_func_arg, add_member, add_var, close_scope, declared_type, define, new_symbol,
    open_scope,
};
use crate::asdr_expr::scope_views;
use crate::error::CompileError;
use crate::symbols::{
    AddrOffset, ClassType, Context, StorageType, Symbol, SymbolMap, SymbolType,
};
use vstd::prelude::*;

verus! {

impl SyntaxAnalyser {
    /// Opens a scope inside the innermost.
    pub fn open_scope(&mut self, storage: StorageType)
        ensures
            final(self).token_vec == old(self).token_vec,
            final(self).env() == open_scope(old(self).env(), storage),
    {
        let depth = self.symbol_tables.len();
        self.symbol_tables.push(Context::new(storage, depth));
        assert(scope_views(self.symbol_tables@) =~= open_scope(old(self).env(), storage).scopes);
    }

    /// Closes the innermost scope.
    pub fn close_scope(&mut self)
        ensures
            final(self).token_vec == old(self).token_vec,
            final(self).env() == close_scope(old(self).env()),
    {
        if self.symbol_tables.len() > 0 {
            let _ = self.symbol_tables.pop();
            assert(scope_views(self.symbol_tables@) =~= close_scope(old(self).env()).scopes);
        }
    }

    /// Defines a symbol in the innermost scope.
    pub fn define(&mut self, symbol: Symbol) -> (r: Result<(), CompileError>)
        ensures
            final(self).token_vec == old(self).token_vec,
            match define(old(self).env(), symbol@) {
                Ok(env) => r is Ok && final(self).env() == env,
                Err(e) => r == Err::<(), CompileError>(e),
            },
    {
        proof {
            reveal(define);
        }
        match self.symbol_tables.pop() {
            None => Ok(()),
            Some(scope) => {
                let mut scope = scope;
                let ghost before = scope@;
                let ghost rest = self.symbol_tables@;
                assert(old(self).symbol_tables@ =~= rest.push(scope));
                let r = scope.add_symbol(symbol);
                self.symbol_tables.push(scope);
                proof {
                    assert(scope_views(old(self).symbol_tables@).last() == before);
                    match define(old(self).env(), symbol@) {
                        Ok(env) => {
                            assert(scope_views(self.symbol_tables@) =~= env.scopes);
                        },
                        Err(e) => {},
                    }
                }
                r
            },
        }
    }

    /// Adds a member to the symbol that is being defined and binds the
    /// symbol anew in the global scope.
    pub fn add_member(&mut self, member: Symbol) -> (r: Result<(), CompileError>)
        ensures
            final(self).token_vec == old(self).token_vec,
            match add_member(old(self).env(), member@) {
                Ok(env) => r is Ok && final(self).env() == env,
                Err(e) => r == Err::<(), CompileError>(e),
            },
    {
        proof {
            reveal(add_member);
        }
        match self.current_symbol.take() {
            None => Ok(()),
            Some(cs) => {
                let mut cs = cs;
                match cs.add_symbol(member) {
                    Err(e) => Err(e),
                    Ok(()) => {
                        if self.symbol_tables.len() > 0 {
                            self.symbol_tables[0].update_symbol(cs.clone());
                            assert(scope_views(self.symbol_tables@) =~= add_member(
                                old(self).env(),
                                member@,
                            )->Ok_0.scopes);
                        }
                        self.current_symbol = Some(cs);
                        Ok(())
                    },
                }
            },
        }
    }

    /// A symbol without members and without a place in memory yet, at the
    /// depth of the innermost scope.
    pub fn make_symbol(
        &self,
        name: String,
        class: ClassType,
        storage: StorageType,
        symbol_type: SymbolType,
        line: usize,
        members: bool,
    ) -> (s: Symbol)
        ensures
            s@ == new_symbol(name@, class, storage, symbol_type@, line, self.env(), members),
            s.line == line,
    {
        proof {
            reveal(new_symbol);
        }
        let n = self.symbol_tables.len();
        let depth = if n > 0 {
            self.symbol_tables[n - 1].depth
        } else {
            0
        };
        let table = if class == ClassType::ClsVar && storage != StorageType::MemArg && n > 0 {
            n - 1
        } else {
            0
        };
        Symbol {
            name,
            class,
            storage,
            symbol_type,
            depth,
            line,
            am: if members {
                Some(SymbolMap::new())
            } else {
                None
            },
            table,
            ao: AddrOffset::Offset(0),
        }
    }

    /// Declares a variable: a member of the structure that is being
    /// defined, a local of the function that is being defined, or a global.
    pub fn add_var(&mut self, name: String, line: usize, ty: SymbolType) -> (r: Result<
        (),
        CompileError,
    >)
        ensures
            final(self).token_vec == old(self).token_vec,
            match add_var(old(self).env(), name@, line, ty@) {
                Ok(env) => r is Ok && final(self).env() == env,
                Err(e) => r == Err::<(), CompileError>(e),
            },
    {
        proof {
            reveal(add_var);
        }
        let class = match &self.current_symbol {
            Some(cs) => Some(cs.class),
            None => None,
        };
        match class {
            Some(ClassType::ClsStruct) => {
                let symbol = self.make_symbol(
                    name,
                    ClassType::ClsVar,
                    StorageType::MemStruct,
                    ty,
                    line,
                    false,
                );
                self.add_member(symbol)
            },
            Some(ClassType::ClsFunc) => {
                let symbol = self.make_symbol(
                    name,
                    ClassType::ClsVar,
                    StorageType::MemLocal,
                    ty,
                    line,
                    false,
                );
                self.define(symbol)
            },
            Some(_) => Ok(()),
            None => {
                let symbol = self.make_symbol(
                    name,
                    ClassType::ClsVar,
                    StorageType::MemGlobal,
                    ty,
                    line,
                    false,
                );
                self.define(symbol)
            },
        }
    }

    /// Declares a parameter of the function that is being defined.
    pub fn add_func_arg(&mut self, name: String, line: usize, ty: SymbolType) -> (r: Result<
        (),
        CompileError,
    >)
        ensures
            final(self).token_vec == old(self).token_vec,
            match add_func_arg(old(self).env(), name@, line, ty@) {
                Ok(env) => r is Ok && final(self).env() == env,
                Err(e) => r == Err::<(), CompileError>(e),
            },
    {
        proof {
            reveal(add_func_arg);
        }
        let symbol = self.make_symbol(name, ClassType::ClsVar, StorageType::MemArg, ty, line, false);
        let member = symbol.clone();
        let in_head = self.is_function_context;
        self.define(symbol)?;
        if in_head {
            self.add_member(member)
        } else {
            Ok(())
        }
    }
}

/// The declared type as an array of the declared size, or as a scalar.
pub fn sized(ty: &SymbolType, size: Option<i64>) -> (r: SymbolType)
    ensures
        r@ == declared_type(
            ty@,
            match size {
                Some(n) => Some(n as int),
                None => None,
            },
        ),
{
    let copy = ty.clone();
    SymbolType {
        type_base: copy.type_base,
        struct_symbol: copy.struct_symbol,
        num_elements: match size {
            Some(n) => n,
            None => -1,
        },
    }
}

} // verus!
