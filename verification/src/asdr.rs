//! The syntax analyser: a recursive descent over the tokens that builds
//! the symbol tables and checks the types in the same pass.

use crate::asdr_expr::scope_views;
use crate::asdr_spec::Env;
use crate::lexer::Token;
use crate::symbols::{symbol_view, Context, Symbol};
use vstd::prelude::*;

verus! {

/// The state of the analysis: the tokens, the place in them, and the
/// scopes that are open.
pub struct SyntaxAnalyser {
    pub token_vec: Vec<Token>,
    /// The index of the token at which the analysis stands.
    pub current_token_idx: usize,
    /// The scopes that are open, the global one first.
    pub symbol_tables: Vec<Context>,
    /// The function or the structure that is being defined.
    pub current_symbol: Option<Symbol>,
    /// Whether the parameters of a function are being read.
    pub is_function_context: bool,
}

impl SyntaxAnalyser {
    /// What the analysis knows of the program so far.
    pub open spec fn env(&self) -> Env {
        Env {
            scopes: scope_views(self.symbol_tables@),
            current_symbol: symbol_view(self.current_symbol),
            is_function_context: self.is_function_context,
        }
    }
}

} // verus!
