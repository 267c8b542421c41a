use crate::cpu::Cpu;
use vstd::prelude::*;
use vstd::wrapping::u64_specs;

verus! {

broadcast use vstd::array::group_array_axioms;

/// One operation of a compiled block's body, in the target-independent
/// intermediate form handed to the code-generation backend: a
/// register-to-register transfer on the machine state. `dst`, `src1` and
/// `src2` are register indices below `REG_COUNT`; a backend lowers each
/// operation to a load of both sources by their byte offsets, the primitive
/// operation, and a store to the destination's byte offset.
#[derive(Clone, Copy, Debug, PartialEq, Eq, Structural)]
pub enum Op {
    /// The destination receives the sum of the sources, wrapped to 64 bits.
    Add { dst: u64, src1: u64, src2: u64 },
    /// The destination receives the bitwise conjunction of the sources.
    And { dst: u64, src1: u64, src2: u64 },
    /// The destination receives the first source shifted left by the low six
    /// bits of the second source, truncated to 64 bits.
    Sll { dst: u64, src1: u64, src2: u64 },
}

/// How a compiled block terminates. Every exit path carries the address it
/// returns, so both successors of a conditional exit are complete,
/// terminating paths by construction: a block can never leave a successor
/// dangling.
#[derive(Clone, Copy, Debug, PartialEq, Eq, Structural)]
pub enum Exit {
    /// The block returns `addr` unconditionally.
    Ret { addr: u64 },
    /// The block returns `taken` when registers `src1` and `src2` differ and
    /// `not_taken` when they are equal.
    CondNe { src1: u64, src2: u64, taken: u64, not_taken: u64 },
}

/// One compiled unit: a straight-line body and a terminating exit. Its
/// calling contract is fixed: it reads and writes the register file of one
/// machine state and returns the next program counter to resume at.
#[derive(Debug)]
pub struct CompiledBlock {
    pub ops: Vec<Op>,
    pub exit: Exit,
}

/// The mathematical value of a compiled block.
pub ghost struct BlockModel {
    pub ops: Seq<Op>,
    pub exit: Exit,
}

impl View for CompiledBlock {
    type V = BlockModel;

    open spec fn view(&self) -> BlockModel {
        BlockModel { ops: self.ops@, exit: self.exit }
    }
}

/// The meaning of one operation on a register file. An operation whose
/// indices fall outside the register file leaves the state unchanged; the
/// translator only ever emits in-range indices.
pub open spec fn eval_op(regs: Seq<u64>, op: Op) -> Seq<u64> {
    match op {
        Op::Add { dst, src1, src2 } => if regs.len() == 32 && dst < 32 && src1 < 32 && src2 < 32 {
            regs.update(dst as int, u64_specs::wrapping_add(regs[src1 as int], regs[src2 as int]))
        } else {
            regs
        },
        Op::And { dst, src1, src2 } => if regs.len() == 32 && dst < 32 && src1 < 32 && src2 < 32 {
            regs.update(dst as int, regs[src1 as int] & regs[src2 as int])
        } else {
            regs
        },
        Op::Sll { dst, src1, src2 } => if regs.len() == 32 && dst < 32 && src1 < 32 && src2 < 32 {
            regs.update(dst as int, regs[src1 as int] << (regs[src2 as int] & 63))
        } else {
            regs
        },
    }
}

/// The meaning of a block body: its operations applied in order.
pub open spec fn eval_ops(regs: Seq<u64>, ops: Seq<Op>) -> Seq<u64>
    decreases ops.len(),
{
    if ops.len() == 0 {
        regs
    } else {
        eval_ops(eval_op(regs, ops[0]), ops.drop_first())
    }
}

/// The address a block exit returns, given the register file the body left
/// behind.
pub open spec fn eval_exit(regs: Seq<u64>, exit: Exit) -> u64 {
    match exit {
        Exit::Ret { addr } => addr,
        Exit::CondNe { src1, src2, taken, not_taken } => if regs.len() == 32 && src1 < 32 && src2
            < 32 && regs[src1 as int] != regs[src2 as int] {
            taken
        } else {
            not_taken
        },
    }
}

/// Running a block: apply the body to the register file, then let the exit
/// choose the address returned. Every run returns an address — there is no
/// undefined exit path.
pub open spec fn eval_block(m: BlockModel, regs: Seq<u64>) -> (Seq<u64>, u64) {
    let after = eval_ops(regs, m.ops);
    (after, eval_exit(after, m.exit))
}

/// Appending one operation to a body runs the body first and the operation
/// last.
pub proof fn lemma_eval_ops_push(regs: Seq<u64>, ops: Seq<Op>, op: Op)
    ensures
        eval_ops(regs, ops.push(op)) == eval_op(eval_ops(regs, ops), op),
    decreases ops.len(),
{
    if ops.len() == 0 {
        assert(ops.push(op).drop_first() =~= Seq::<Op>::empty());
        assert(ops.push(op)[0] == op);
        assert(eval_ops(regs, ops.push(op)) == eval_ops(
            eval_op(regs, op),
            Seq::<Op>::empty(),
        ));
        assert(eval_ops(eval_op(regs, op), Seq::<Op>::empty()) == eval_op(regs, op));
        assert(eval_ops(regs, ops) == regs);
    } else {
        assert(ops.push(op).drop_first() =~= ops.drop_first().push(op));
        assert(ops.push(op)[0] == ops[0]);
        lemma_eval_ops_push(eval_op(regs, ops[0]), ops.drop_first(), op);
        assert(eval_ops(regs, ops.push(op)) == eval_ops(
            eval_op(regs, ops[0]),
            ops.drop_first().push(op),
        ));
        assert(eval_ops(regs, ops) == eval_ops(eval_op(regs, ops[0]), ops.drop_first()));
    }
}

/// Concatenated bodies run in sequence.
pub proof fn lemma_eval_ops_concat(regs: Seq<u64>, a: Seq<Op>, b: Seq<Op>)
    ensures
        eval_ops(regs, a + b) == eval_ops(eval_ops(regs, a), b),
    decreases a.len(),
{
    if a.len() == 0 {
        assert(a + b =~= b);
    } else {
        assert((a + b).drop_first() =~= a.drop_first() + b);
        assert((a + b)[0] == a[0]);
        lemma_eval_ops_concat(eval_op(regs, a[0]), a.drop_first(), b);
    }
}


/// Well-formedness of one operation against the machine-state layout: every
/// register index addresses the register file, and the destination is never
/// the hardwired zero register (the translator discards such stores).
pub open spec fn op_wf(op: Op) -> bool {
    match op {
        Op::Add { dst, src1, src2 } => 0 < dst < 32 && src1 < 32 && src2 < 32,
        Op::And { dst, src1, src2 } => 0 < dst < 32 && src1 < 32 && src2 < 32,
        Op::Sll { dst, src1, src2 } => 0 < dst < 32 && src1 < 32 && src2 < 32,
    }
}

/// Well-formedness of an exit: compared registers address the register
/// file.
pub open spec fn exit_wf(e: Exit) -> bool {
    match e {
        Exit::Ret { .. } => true,
        Exit::CondNe { src1, src2, .. } => src1 < 32 && src2 < 32,
    }
}

/// Well-formedness of a whole block against the machine-state layout.
pub open spec fn block_wf(m: BlockModel) -> bool {
    (forall|i: int| 0 <= i < m.ops.len() ==> op_wf(#[trigger] m.ops[i])) && exit_wf(m.exit)
}

/// A well-formed body keeps the register file's length and never changes
/// register 0: the hardwired-zero convention.
pub proof fn lemma_zero_register_preserved(regs: Seq<u64>, ops: Seq<Op>)
    requires
        regs.len() == 32,
        forall|i: int| 0 <= i < ops.len() ==> op_wf(#[trigger] ops[i]),
    ensures
        eval_ops(regs, ops).len() == 32,
        eval_ops(regs, ops)[0] == regs[0],
    decreases ops.len(),
{
    if ops.len() == 0 {
    } else {
        assert(op_wf(ops[0]));
        let regs2 = eval_op(regs, ops[0]);
        assert(regs2.len() == 32 && regs2[0] == regs[0]);
        assert(forall|i: int|
            0 <= i < ops.drop_first().len() ==> op_wf(#[trigger] ops.drop_first()[i]));
        lemma_zero_register_preserved(regs2, ops.drop_first());
    }
}

proof fn lemma_shift_mask_in_range(x: u64)
    by (bit_vector)
    ensures
        (x & 63) < 64,
{
}

impl CompiledBlock {
    /// Reference execution of the block's calling contract: mutate the
    /// register file in place and return the next program counter. The
    /// native code a backend emits from the same block must behave
    /// identically.
    pub fn run(&self, cpu: &mut Cpu) -> (next: u64)
        ensures
            final(cpu).regs@ == eval_block(self@, old(cpu).regs@).0,
            next == eval_block(self@, old(cpu).regs@).1,
            final(cpu).pc == old(cpu).pc,
    {
        let ghost regs0 = cpu.regs@;
        let mut k: usize = 0;
        while k < self.ops.len()
            invariant
                k <= self.ops@.len(),
                cpu.regs@ == eval_ops(regs0, self.ops@.take(k as int)),
                cpu.pc == old(cpu).pc,
            decreases self.ops@.len() - k,
        {
            let op = self.ops[k];
            proof {
                assert(self.ops@.take(k + 1 as int) =~= self.ops@.take(k as int).push(
                    self.ops@[k as int],
                ));
                lemma_eval_ops_push(regs0, self.ops@.take(k as int), self.ops@[k as int]);
            }
            match op {
                Op::Add { dst, src1, src2 } => {
                    if dst < 32 && src1 < 32 && src2 < 32 {
                        let v = cpu.regs[src1 as usize].wrapping_add(cpu.regs[src2 as usize]);
                        cpu.regs[dst as usize] = v;
                    }
                },
                Op::And { dst, src1, src2 } => {
                    if dst < 32 && src1 < 32 && src2 < 32 {
                        let v = cpu.regs[src1 as usize] & cpu.regs[src2 as usize];
                        cpu.regs[dst as usize] = v;
                    }
                },
                Op::Sll { dst, src1, src2 } => {
                    if dst < 32 && src1 < 32 && src2 < 32 {
                        let sh = cpu.regs[src2 as usize] & 63;
                        proof {
                            lemma_shift_mask_in_range(cpu.regs@[src2 as int]);
                        }
                        let v = cpu.regs[src1 as usize] << sh;
                        cpu.regs[dst as usize] = v;
                    }
                },
            }
            k = k + 1;
        }
        proof {
            assert(self.ops@.take(self.ops@.len() as int) =~= self.ops@);
        }
        match self.exit {
            Exit::Ret { addr } => addr,
            Exit::CondNe { src1, src2, taken, not_taken } => {
                if src1 < 32 && src2 < 32 {
                    if cpu.regs[src1 as usize] != cpu.regs[src2 as usize] {
                        taken
                    } else {
                        not_taken
                    }
                } else {
                    not_taken
                }
            },
        }
    }

    /// An equal copy of the block.
    pub fn duplicate(&self) -> (r: CompiledBlock)
        ensures
            r@ == self@,
    {
        let mut ops: Vec<Op> = Vec::new();
        let mut k: usize = 0;
        while k < self.ops.len()
            invariant
                k <= self.ops@.len(),
                ops@ == self.ops@.take(k as int),
            decreases self.ops@.len() - k,
        {
            ops.push(self.ops[k]);
            proof {
                assert(self.ops@.take(k + 1 as int) =~= self.ops@.take(k as int).push(
                    self.ops@[k as int],
                ));
            }
            k = k + 1;
        }
        proof {
            assert(self.ops@.take(self.ops@.len() as int) =~= self.ops@);
        }
        CompiledBlock { ops, exit: self.exit }
    }
}

} // verus!
