//! Classifies the modules of a component framework as server or client modules: detects
//! the `"client"` directive, rewrites a client-boundary module of the server compilation
//! to a reference stub, and checks the imports of every other module against the
//! denylists of its compilation.

pub mod ast;
pub mod collect;
pub mod config;
pub mod laws;
pub mod rewrite;
pub mod transform;
pub mod validate;
