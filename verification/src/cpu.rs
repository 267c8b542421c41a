use vstd::prelude::*;

verus! {

broadcast use vstd::array::group_array_axioms;

/// Number of general-purpose registers in the machine state.
pub const REG_COUNT: u64 = 32;

/// The emulated machine state: a fixed register file and a program counter.
///
/// The layout is part of the contract with the code-generation backend:
/// the registers form a dense array of 64-bit words, so register `i` lives
/// `8 * i` bytes from the start of the register file, and that constant is
/// embedded into every compiled block that touches the register. The layout
/// must therefore never change once a block has been compiled against it.
///
/// Register 0 is the architectural zero register. The translator enforces
/// the convention: it never emits a store to register 0, so a state whose
/// register 0 holds zero keeps it at zero across every compiled block.
#[derive(Clone, Copy, Debug, PartialEq)]
pub struct Cpu {
    pub regs: [u64; 32],
    pub pc: u64,
}

impl Cpu {
    /// A machine state with every register and the program counter zeroed.
    pub fn new() -> (r: Cpu)
        ensures
            r.regs@.len() == 32,
            forall|i: int| 0 <= i < 32 ==> r.regs@[i] == 0,
            r.pc == 0,
    {
        Cpu { regs: [0u64; 32], pc: 0 }
    }
}

/// The byte offset of register `i` inside the register file: the literal
/// constant a backend embeds into compiled code when loading or storing the
/// register.
pub fn reg_byte_offset(i: u64) -> (r: u64)
    requires
        i < REG_COUNT,
    ensures
        r == 8 * i,
{
    8 * i
}

} // verus!
