//! A dynamic binary translator core: it decodes RISC-V machine words, lowers
//! runs of instructions ("blocks") into a small target-independent operation
//! list, and memoizes the built blocks by entry address. A native
//! code-generation backend and the dispatch loop that runs compiled blocks are
//! external collaborators: they consume the operation lists that this crate
//! produces and proves faithful to the architectural semantics.

pub mod cache;
pub mod cpu;
pub mod insn;
pub mod ir;
pub mod jit;
