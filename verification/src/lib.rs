//! A decompiler core for a SPIR-V-like flat instruction stream: it rebuilds
//! a structured module (name tables, an instruction index, functions made of
//! basic blocks) from instructions delivered one by one, and renders each
//! function as readable pseudo-source.

pub mod ctx;
pub mod ir;
pub mod laws;
pub mod render;
pub mod text;
