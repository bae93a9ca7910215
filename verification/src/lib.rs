//! A compiler front end and a stack machine for a small C-like language:
//! a lexer, a recursive-descent parser that builds the symbol tables and
//! checks the types, and a virtual machine for the typed bytecode.

pub mod asdr;
pub mod asdr_decl;
pub mod asdr_decl_spec;
pub mod asdr_expr;
pub mod asdr_rules;
pub mod asdr_spec;
pub mod error;
pub mod lexer;
pub mod lexer_laws;
pub mod lexer_scan;
pub mod lexer_spec;
pub mod mv;
pub mod mv_laws;
pub mod mv_machine;
pub mod mv_mem;
pub mod mv_spec;
pub mod symbols;
