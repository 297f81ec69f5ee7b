//! Execution core of a stack-based bytecode virtual machine.
//!
//! A [`chunk::Chunk`] is an append-only container of raw instruction bytes, a
//! constant pool, and a per-byte source-line table. The [`vm::Vm`] owns one
//! chunk for an interpretation session and drives the fetch-decode-execute
//! loop over it. The disassembler renders a chunk's instructions as text for
//! diagnostics; it never affects execution.
//!
//! Constants are IEEE-754 doubles. The verified core never computes with
//! them: it stores, copies and pushes their raw 64-bit patterns (see
//! [`chunk::Value`]), and numeric rendering happens outside the core.

pub mod chunk;
pub mod disasm;
pub mod text;
pub mod vm;
