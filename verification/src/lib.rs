//! An in-memory model of a subset of LLVM's intermediate representation:
//! identifiers, the type system, functions and basic blocks, modules, and —
//! at its core — the target description: triples, machine parameters, and the
//! compact data-layout specification language (strings such as
//! `e-m:e-p:64:64-i64:64-n32:64-S128`).
//!
//! The data-layout parser turns such a string into a structured, validated
//! layout value; its behaviour is specified exactly by a functional
//! description of the grammar, and the executable parser is proved to follow
//! that description on every input.

pub mod block;
pub mod global;
pub mod identifier;
pub mod module;
pub mod target;
pub mod text;
pub mod types;
pub mod value;

pub use block::BasicBlock;
pub use identifier::{Id, Identifier};
pub use module::Module;
pub use target::Target;
