use crate::insn::{spec_bit_range, spec_insn_length, spec_sign_extend, Insn};
use crate::ir::{
    block_wf, eval_block, eval_op, eval_ops, exit_wf, lemma_eval_ops_concat,
    lemma_zero_register_preserved, op_wf, BlockModel, CompiledBlock, Exit, Op,
};
use vstd::prelude::*;
use vstd::wrapping::u64_specs;

verus! {

/// Mask selecting the bits that identify a register-register computational
/// instruction, and the expected values for the implemented operations.
pub const MASK_RTYPE: u64 = 0xfe00707f;

pub const MATCH_ADD: u64 = 0x33;

pub const MATCH_AND: u64 = 0x7033;

pub const MATCH_SLL: u64 = 0x1033;

/// Mask and expected value identifying the not-equal conditional branch.
pub const MASK_BTYPE: u64 = 0x707f;

pub const MATCH_BNE: u64 = 0x1063;

/// Largest instruction memory the builder accepts, in 32-bit words: a memory
/// of this size already occupies the whole addressable object space, so the
/// bound costs callers nothing and keeps every block-internal address sum
/// below two to the power of 62.
pub const ROM_WORDS_MAX: u64 = 0x1000_0000_0000_0000;

pub open spec fn spec_is_add(bits: u64) -> bool {
    bits & MASK_RTYPE == MATCH_ADD
}

pub open spec fn spec_is_and(bits: u64) -> bool {
    bits & MASK_RTYPE == MATCH_AND
}

pub open spec fn spec_is_sll(bits: u64) -> bool {
    bits & MASK_RTYPE == MATCH_SLL
}

pub open spec fn spec_is_bne(bits: u64) -> bool {
    bits & MASK_BTYPE == MATCH_BNE
}

pub open spec fn spec_is_arith(bits: u64) -> bool {
    spec_is_add(bits) || spec_is_and(bits) || spec_is_sll(bits)
}

pub open spec fn spec_rd(bits: u64) -> u64 {
    spec_bit_range(bits, 7, 5)
}

pub open spec fn spec_rs1(bits: u64) -> u64 {
    spec_bit_range(bits, 15, 5)
}

pub open spec fn spec_rs2(bits: u64) -> u64 {
    spec_bit_range(bits, 20, 5)
}

/// The 13-bit branch displacement reassembled from its two split immediate
/// fields in the documented bit order (bit 0 of a displacement is always
/// zero in this encoding).
pub open spec fn spec_branch_imm(bits: u64) -> u64 {
    let hi = spec_bit_range(bits, 25, 7);
    let lo = spec_bit_range(bits, 7, 5);
    ((hi & 0x40) << 6u64) | ((lo & 0x01) << 11u64) | ((hi & 0x3F) << 5u64) | (lo & 0x1E)
}

/// The branch displacement as a signed quantity.
pub open spec fn spec_branch_disp(bits: u64) -> i64 {
    spec_sign_extend(spec_branch_imm(bits), 13)
}

/// The taken-successor address of a branch at `pc`: the displacement added
/// to `pc`, wrapping at 64 bits.
pub open spec fn spec_branch_taken(pc: u64, bits: u64) -> u64 {
    u64_specs::wrapping_add_signed(pc, spec_branch_disp(bits))
}

/// Whether `pc` still points into the instruction memory.
pub open spec fn spec_in_bounds(rom: Seq<u32>, pc: u64) -> bool {
    (pc >> 2u64) < rom.len()
}

/// The instruction word fetched at `pc`.
pub open spec fn spec_fetch(rom: Seq<u32>, pc: u64) -> u64 {
    rom[(pc >> 2u64) as int] as u64
}

/// The operations one recognized computational instruction lowers to: a
/// single register-to-register transfer, or nothing at all when the
/// destination is the hardwired zero register (writes to register 0 are
/// discarded by the architecture, so none is emitted).
pub open spec fn spec_insn_ops(bits: u64) -> Seq<Op> {
    if !spec_is_arith(bits) || spec_rd(bits) == 0 {
        Seq::<Op>::empty()
    } else if spec_is_add(bits) {
        seq![Op::Add { dst: spec_rd(bits), src1: spec_rs1(bits), src2: spec_rs2(bits) }]
    } else if spec_is_and(bits) {
        seq![Op::And { dst: spec_rd(bits), src1: spec_rs1(bits), src2: spec_rs2(bits) }]
    } else {
        seq![Op::Sll { dst: spec_rd(bits), src1: spec_rs1(bits), src2: spec_rs2(bits) }]
    }
}

/// The operations the translator appends for the instruction at `pc`.
pub open spec fn spec_ops_at(rom: Seq<u32>, pc: u64) -> Seq<Op> {
    if spec_in_bounds(rom, pc) && spec_is_arith(spec_fetch(rom, pc)) {
        spec_insn_ops(spec_fetch(rom, pc))
    } else {
        Seq::<Op>::empty()
    }
}

/// The result of translating one instruction.
#[derive(Clone, Copy, Debug, PartialEq, Eq, Structural)]
pub enum ControlFlowOutcome {
    /// No control transfer: continue decoding at the contained address.
    Sequential(u64),
    /// Conditional transfer: the block terminates with two successor
    /// addresses, chosen at run time by the lowered predicate on registers
    /// `src1` and `src2`.
    Branch { src1: u64, src2: u64, taken: u64, not_taken: u64 },
    /// Decoding reached the boundary of the instruction memory: the block
    /// terminates by returning the contained address unchanged.
    End(u64),
    /// The word matches no implemented opcode pattern; translating it
    /// silently would corrupt state, so it is surfaced explicitly.
    Unrecognized,
}

/// What translating the instruction at `pc` yields.
pub open spec fn spec_flow(rom: Seq<u32>, pc: u64) -> ControlFlowOutcome {
    if !spec_in_bounds(rom, pc) {
        ControlFlowOutcome::End(pc)
    } else {
        let bits = spec_fetch(rom, pc);
        if spec_is_arith(bits) {
            ControlFlowOutcome::Sequential(u64_specs::wrapping_add(pc, spec_insn_length(bits)))
        } else if spec_is_bne(bits) {
            ControlFlowOutcome::Branch {
                src1: spec_rs1(bits),
                src2: spec_rs2(bits),
                taken: spec_branch_taken(pc, bits),
                not_taken: u64_specs::wrapping_add(pc, 4),
            }
        } else {
            ControlFlowOutcome::Unrecognized
        }
    }
}

/// Failure to build a block.
#[derive(Clone, Copy, Debug, PartialEq, Eq, Structural)]
pub enum BuildError {
    /// The word at `pc` matches no implemented opcode pattern.
    UnrecognizedOpcode { pc: u64, bits: u64 },
}

/// A build result with `pre` prepended to the body of a successful block.
pub open spec fn prepend_build(pre: Seq<Op>, r: Result<BlockModel, BuildError>) -> Result<
    BlockModel,
    BuildError,
> {
    match r {
        Ok(m) => Ok(BlockModel { ops: pre + m.ops, exit: m.exit }),
        Err(e) => Err(e),
    }
}

/// Register fields are five bits wide, so always index into the register
/// file.
pub proof fn lemma_reg_fields_in_range(bits: u64)
    by (bit_vector)
    ensures
        spec_rd(bits) < 32,
        spec_rs1(bits) < 32,
        spec_rs2(bits) < 32,
{
}

/// The implemented opcode patterns are mutually exclusive: no instruction
/// word satisfies two of them, so the priority order of the dispatch can
/// never mask an overlap.
pub proof fn lemma_patterns_mutually_exclusive(bits: u64)
    by (bit_vector)
    ensures
        !(spec_is_add(bits) && spec_is_and(bits)),
        !(spec_is_add(bits) && spec_is_sll(bits)),
        !(spec_is_add(bits) && spec_is_bne(bits)),
        !(spec_is_and(bits) && spec_is_sll(bits)),
        !(spec_is_and(bits) && spec_is_bne(bits)),
        !(spec_is_sll(bits) && spec_is_bne(bits)),
{
}

/// Every implemented pattern fixes the long-form marker in the low bits, so
/// every recognized instruction is four bytes long.
pub proof fn lemma_recognized_length(bits: u64)
    by (bit_vector)
    ensures
        spec_is_arith(bits) || spec_is_bne(bits) ==> spec_insn_length(bits) == 4,
{
}

proof fn lemma_word_bound(pc: u64, lu: u64)
    by (bit_vector)
    requires
        (pc >> 2u64) < lu,
        lu <= 0x1000_0000_0000_0000,
    ensures
        pc < 4 * (lu as int),
        pc + 4 <= 4 * (lu as int) + 3,
{
}

/// Inside the instruction memory, sequential advance by one long-form word
/// neither wraps nor leaves the measure of remaining words negative.
pub proof fn lemma_seq_advance(rom: Seq<u32>, pc: u64)
    requires
        rom.len() <= ROM_WORDS_MAX,
        spec_in_bounds(rom, pc),
    ensures
        pc < 4 * rom.len(),
        pc + 4 <= 4 * rom.len() + 3,
        u64_specs::wrapping_add(pc, 4) == pc + 4,
{
    let lu = rom.len() as u64;
    lemma_word_bound(pc, lu);
}

/// The block the builder must produce for the instruction stream entered at
/// `pc`: decode and lower instructions sequentially until a control-flow
/// boundary, collecting their operations, or fail on the first unrecognized
/// word.
pub open spec fn spec_build(rom: Seq<u32>, pc: u64) -> Result<BlockModel, BuildError>
    decreases 4 * rom.len() + 4 - pc,
    when rom.len() <= ROM_WORDS_MAX
    via spec_build_decreases
{
    if !spec_in_bounds(rom, pc) {
        Ok(BlockModel { ops: Seq::<Op>::empty(), exit: Exit::Ret { addr: pc } })
    } else {
        let bits = spec_fetch(rom, pc);
        if spec_is_arith(bits) {
            prepend_build(spec_insn_ops(bits), spec_build(rom, u64_specs::wrapping_add(pc, 4)))
        } else if spec_is_bne(bits) {
            Ok(
                BlockModel {
                    ops: Seq::<Op>::empty(),
                    exit: Exit::CondNe {
                        src1: spec_rs1(bits),
                        src2: spec_rs2(bits),
                        taken: spec_branch_taken(pc, bits),
                        not_taken: u64_specs::wrapping_add(pc, 4),
                    },
                },
            )
        } else {
            Err(BuildError::UnrecognizedOpcode { pc, bits })
        }
    }
}

#[via_fn]
proof fn spec_build_decreases(rom: Seq<u32>, pc: u64) {
    if spec_in_bounds(rom, pc) {
        lemma_seq_advance(rom, pc);
    }
}

proof fn lemma_prepend_nil(r: Result<BlockModel, BuildError>)
    ensures
        prepend_build(Seq::<Op>::empty(), r) == r,
{
    match r {
        Ok(m) => {
            assert(Seq::<Op>::empty() + m.ops =~= m.ops);
        },
        Err(_) => {},
    }
}

proof fn lemma_prepend_concat(a: Seq<Op>, b: Seq<Op>, r: Result<BlockModel, BuildError>)
    ensures
        prepend_build(a + b, r) == prepend_build(a, prepend_build(b, r)),
{
    match r {
        Ok(m) => {
            assert((a + b) + m.ops =~= a + (b + m.ops));
        },
        Err(_) => {},
    }
}

/// The translation engine: translates single instructions and assembles
/// whole blocks. `builds` counts how many blocks this instance has built, so
/// a cache sitting in front of it can be observed to invoke it exactly once
/// per address.
pub struct JIT {
    pub builds: u64,
}

impl Default for JIT {
    /// A fresh translation engine that has built nothing yet.
    fn default() -> (r: JIT)
        ensures
            r.builds == 0,
    {
        JIT { builds: 0 }
    }
}

impl JIT {
    pub fn new() -> (r: JIT)
        ensures
            r.builds == 0,
    {
        JIT { builds: 0 }
    }

    /// Translates the single instruction at `pc`: appends the operations it
    /// lowers to (none for a control-transfer word) and reports how control
    /// continues. Dispatch tries the opcode patterns in priority order; the
    /// patterns are mutually exclusive, so the order never decides.
    pub fn translate(rom: &Vec<u32>, pc: u64, ops: &mut Vec<Op>) -> (flow: ControlFlowOutcome)
        ensures
            flow == spec_flow(rom@, pc),
            final(ops)@ == old(ops)@ + spec_ops_at(rom@, pc),
    {
        proof {
            assert(old(ops)@ + Seq::<Op>::empty() =~= old(ops)@);
        }
        let idx = pc >> 2u64;
        if !(idx < rom.len() as u64) {
            return ControlFlowOutcome::End(pc);
        }
        let insn = Insn::from_bits(rom[idx as usize]);
        let bits = insn.bits();
        let length = insn.length();

        if bits & MASK_RTYPE == MATCH_ADD {
            let rd = insn.rd();
            if rd != 0 {
                let op = Op::Add { dst: rd, src1: insn.rs1(), src2: insn.rs2() };
                ops.push(op);
                proof {
                    assert(old(ops)@.push(op) =~= old(ops)@ + spec_ops_at(rom@, pc));
                }
            }
            ControlFlowOutcome::Sequential(pc.wrapping_add(length))
        } else if bits & MASK_RTYPE == MATCH_AND {
            let rd = insn.rd();
            if rd != 0 {
                let op = Op::And { dst: rd, src1: insn.rs1(), src2: insn.rs2() };
                ops.push(op);
                proof {
                    lemma_patterns_mutually_exclusive(bits);
                    assert(old(ops)@.push(op) =~= old(ops)@ + spec_ops_at(rom@, pc));
                }
            }
            ControlFlowOutcome::Sequential(pc.wrapping_add(length))
        } else if bits & MASK_RTYPE == MATCH_SLL {
            let rd = insn.rd();
            if rd != 0 {
                let op = Op::Sll { dst: rd, src1: insn.rs1(), src2: insn.rs2() };
                ops.push(op);
                proof {
                    lemma_patterns_mutually_exclusive(bits);
                    assert(old(ops)@.push(op) =~= old(ops)@ + spec_ops_at(rom@, pc));
                }
            }
            ControlFlowOutcome::Sequential(pc.wrapping_add(length))
        } else if bits & MASK_BTYPE == MATCH_BNE {
            let hi = insn.bimm12hi();
            let lo = insn.bimm12lo();
            let imm = ((hi & 0x40) << 6u64) | ((lo & 0x01) << 11u64) | ((hi & 0x3F) << 5u64) | (lo
                & 0x1E);
            let disp = Insn::sign_extend(imm, 13);
            ControlFlowOutcome::Branch {
                src1: insn.rs1(),
                src2: insn.rs2(),
                taken: pc.wrapping_add_signed(disp),
                not_taken: pc.wrapping_add(4),
            }
        } else {
            ControlFlowOutcome::Unrecognized
        }
    }

    /// Builds the compiled block entered at `start_pc`: opens one unit,
    /// drives the translator across sequential instructions, and terminates
    /// every exit path of the unit with its return address. Fails exactly on
    /// the first unrecognized instruction word, carrying its address and
    /// bits.
    pub fn build_block(&mut self, rom: &Vec<u32>, start_pc: u64) -> (r: Result<
        CompiledBlock,
        BuildError,
    >)
        requires
            rom@.len() <= ROM_WORDS_MAX,
            old(self).builds < u64::MAX,
        ensures
            final(self).builds == old(self).builds + 1,
            match spec_build(rom@, start_pc) {
                Ok(m) => r matches Ok(b) && b@ == m,
                Err(e) => r matches Err(e2) && e2 == e,
            },
    {
        self.builds = self.builds + 1;
        let mut ops: Vec<Op> = Vec::new();
        let mut pc = start_pc;
        proof {
            lemma_prepend_nil(spec_build(rom@, pc));
        }
        loop
            invariant
                rom@.len() <= ROM_WORDS_MAX,
                self.builds == old(self).builds + 1,
                prepend_build(ops@, spec_build(rom@, pc)) == spec_build(rom@, start_pc),
            decreases 4 * rom@.len() + 4 - pc,
        {
            let ghost prev_ops = ops@;
            let flow = Self::translate(rom, pc, &mut ops);
            match flow {
                ControlFlowOutcome::Sequential(next) => {
                    proof {
                        let bits = spec_fetch(rom@, pc);
                        lemma_seq_advance(rom@, pc);
                        lemma_recognized_length(bits);
                        lemma_prepend_concat(
                            prev_ops,
                            spec_insn_ops(bits),
                            spec_build(rom@, u64_specs::wrapping_add(pc, 4)),
                        );
                    }
                    pc = next;
                },
                ControlFlowOutcome::Branch { src1, src2, taken, not_taken } => {
                    proof {
                        assert(prev_ops + Seq::<Op>::empty() =~= prev_ops);
                    }
                    return Ok(
                        CompiledBlock { ops, exit: Exit::CondNe { src1, src2, taken, not_taken } },
                    );
                },
                ControlFlowOutcome::End(addr) => {
                    proof {
                        assert(prev_ops + Seq::<Op>::empty() =~= prev_ops);
                    }
                    return Ok(CompiledBlock { ops, exit: Exit::Ret { addr } });
                },
                ControlFlowOutcome::Unrecognized => {
                    let idx = pc >> 2u64;
                    let n = rom.len();
                    proof {
                        assert(spec_in_bounds(rom@, pc));
                        assert(idx < n as u64);
                    }
                    let bits = rom[idx as usize] as u64;
                    proof {
                        assert(bits == spec_fetch(rom@, pc));
                        assert(spec_build(rom@, pc) == Err::<BlockModel, BuildError>(
                            BuildError::UnrecognizedOpcode { pc, bits },
                        ));
                    }
                    return Err(BuildError::UnrecognizedOpcode { pc, bits });
                },
            }
        }
    }
}


/// The architectural result of one computational instruction on two source
/// values.
pub open spec fn spec_arith_result(bits: u64, a: u64, b: u64) -> u64 {
    if spec_is_add(bits) {
        u64_specs::wrapping_add(a, b)
    } else if spec_is_and(bits) {
        a & b
    } else {
        a << (b & 63)
    }
}

/// The architectural effect of one computational instruction on the
/// register file: the destination receives the operation's result, except
/// that the hardwired zero register discards writes.
pub open spec fn spec_step_regs(regs: Seq<u64>, bits: u64) -> Seq<u64> {
    let rd = spec_rd(bits);
    let rs1 = spec_rs1(bits);
    let rs2 = spec_rs2(bits);
    if regs.len() == 32 && rd != 0 && rd < 32 && rs1 < 32 && rs2 < 32 {
        regs.update(rd as int, spec_arith_result(bits, regs[rs1 as int], regs[rs2 as int]))
    } else {
        regs
    }
}

/// The architectural execution of the instruction stream entered at `pc` on
/// register file `regs`, up to the first control-flow boundary: the
/// resulting register file and the address execution resumes at. This is
/// the reference the compiled block is held to; it never mentions the
/// intermediate form.
pub open spec fn spec_exec(rom: Seq<u32>, pc: u64, regs: Seq<u64>) -> Result<
    (Seq<u64>, u64),
    BuildError,
>
    decreases 4 * rom.len() + 4 - pc,
    when rom.len() <= ROM_WORDS_MAX
    via spec_exec_decreases
{
    if !spec_in_bounds(rom, pc) {
        Ok((regs, pc))
    } else {
        let bits = spec_fetch(rom, pc);
        if spec_is_arith(bits) {
            spec_exec(rom, u64_specs::wrapping_add(pc, 4), spec_step_regs(regs, bits))
        } else if spec_is_bne(bits) {
            Ok(
                (
                    regs,
                    if regs.len() == 32 && spec_rs1(bits) < 32 && spec_rs2(bits) < 32 && regs[
                        spec_rs1(bits) as int
                    ] != regs[spec_rs2(bits) as int] {
                        spec_branch_taken(pc, bits)
                    } else {
                        u64_specs::wrapping_add(pc, 4)
                    },
                ),
            )
        } else {
            Err(BuildError::UnrecognizedOpcode { pc, bits })
        }
    }
}

#[via_fn]
proof fn spec_exec_decreases(rom: Seq<u32>, pc: u64, regs: Seq<u64>) {
    if spec_in_bounds(rom, pc) {
        lemma_seq_advance(rom, pc);
    }
}

/// Lowering one computational instruction is faithful: running the emitted
/// operations equals the architectural effect of the instruction.
pub proof fn lemma_insn_ops_step(bits: u64, regs: Seq<u64>)
    requires
        regs.len() == 32,
        spec_is_arith(bits),
    ensures
        eval_ops(regs, spec_insn_ops(bits)) == spec_step_regs(regs, bits),
{
    lemma_reg_fields_in_range(bits);
    lemma_patterns_mutually_exclusive(bits);
    if spec_rd(bits) == 0 {
        assert(eval_ops(regs, Seq::<Op>::empty()) == regs);
    } else {
        let ops = spec_insn_ops(bits);
        assert(ops.len() == 1);
        assert(ops.drop_first() =~= Seq::<Op>::empty());
        assert(eval_ops(regs, ops) == eval_ops(eval_op(regs, ops[0]), Seq::<Op>::empty()));
        assert(eval_ops(eval_op(regs, ops[0]), Seq::<Op>::empty()) == eval_op(regs, ops[0]));
        assert(eval_op(regs, ops[0]) == spec_step_regs(regs, bits));
    }
}

/// The central law: a block the builder produces is faithful to the
/// architecture. Running it on any register file yields exactly the
/// register file and resume address of the architectural execution of the
/// instruction stream from the block's entry address, and the builder fails
/// exactly where the architectural execution meets an unrecognized word.
pub proof fn lemma_block_faithful(rom: Seq<u32>, pc: u64, regs: Seq<u64>)
    requires
        rom.len() <= ROM_WORDS_MAX,
        regs.len() == 32,
    ensures
        match spec_build(rom, pc) {
            Ok(m) => spec_exec(rom, pc, regs) == Ok::<(Seq<u64>, u64), BuildError>(
                eval_block(m, regs),
            ),
            Err(e) => spec_exec(rom, pc, regs) == Err::<(Seq<u64>, u64), BuildError>(e),
        },
    decreases 4 * rom.len() + 4 - pc,
{
    if !spec_in_bounds(rom, pc) {
        assert(eval_ops(regs, Seq::<Op>::empty()) == regs);
    } else {
        let bits = spec_fetch(rom, pc);
        lemma_seq_advance(rom, pc);
        let next = u64_specs::wrapping_add(pc, 4);
        if spec_is_arith(bits) {
            let regs2 = spec_step_regs(regs, bits);
            lemma_insn_ops_step(bits, regs);
            assert(regs2.len() == 32);
            lemma_block_faithful(rom, next, regs2);
            match spec_build(rom, next) {
                Ok(m2) => {
                    lemma_eval_ops_concat(regs, spec_insn_ops(bits), m2.ops);
                    assert(eval_ops(regs, spec_insn_ops(bits) + m2.ops) == eval_ops(
                        regs2,
                        m2.ops,
                    ));
                },
                Err(_) => {},
            }
        } else if spec_is_bne(bits) {
            lemma_reg_fields_in_range(bits);
            assert(eval_ops(regs, Seq::<Op>::empty()) == regs);
        } else {
        }
    }
}

/// Compiling and running one computational instruction leaves the
/// destination register holding the architectural result of its sources —
/// the wrapped sum for an add, the conjunction for a bitwise and, the
/// truncated left shift for a shift — and every other register unchanged.
/// (A destination of zero is the hardwired zero register and is excluded:
/// the write is discarded there.)
pub proof fn lemma_arith_semantics(bits: u64, regs: Seq<u64>)
    requires
        regs.len() == 32,
        spec_is_arith(bits),
        spec_rd(bits) != 0,
    ensures
        eval_ops(regs, spec_insn_ops(bits)) == regs.update(
            spec_rd(bits) as int,
            spec_arith_result(bits, regs[spec_rs1(bits) as int], regs[spec_rs2(bits) as int]),
        ),
        spec_is_add(bits) ==> eval_ops(regs, spec_insn_ops(bits))[spec_rd(bits) as int]
            == u64_specs::wrapping_add(regs[spec_rs1(bits) as int], regs[spec_rs2(bits) as int]),
        spec_is_and(bits) ==> eval_ops(regs, spec_insn_ops(bits))[spec_rd(bits) as int] == (regs[
            spec_rs1(bits) as int
        ] & regs[spec_rs2(bits) as int]),
        spec_is_sll(bits) ==> eval_ops(regs, spec_insn_ops(bits))[spec_rd(bits) as int] == (regs[
            spec_rs1(bits) as int
        ] << (regs[spec_rs2(bits) as int] & 63)),
{
    lemma_reg_fields_in_range(bits);
    lemma_patterns_mutually_exclusive(bits);
    lemma_insn_ops_step(bits, regs);
}

/// A block built at a not-equal branch has an empty body and two complete,
/// terminating successor paths: run on any register file, it leaves the
/// registers unchanged and returns the taken address exactly when the
/// compared registers differ, the fall-through address exactly when they
/// are equal.
pub proof fn lemma_branch_semantics(rom: Seq<u32>, pc: u64, regs: Seq<u64>)
    requires
        rom.len() <= ROM_WORDS_MAX,
        regs.len() == 32,
        spec_in_bounds(rom, pc),
        spec_is_bne(spec_fetch(rom, pc)),
    ensures
        spec_build(rom, pc) matches Ok(m) && m.ops.len() == 0 && eval_block(m, regs).0 == regs
            && eval_block(m, regs).1 == (if regs[spec_rs1(spec_fetch(rom, pc)) as int] != regs[
            spec_rs2(spec_fetch(rom, pc)) as int
        ] {
            spec_branch_taken(pc, spec_fetch(rom, pc))
        } else {
            u64_specs::wrapping_add(pc, 4)
        }),
{
    let bits = spec_fetch(rom, pc);
    lemma_patterns_mutually_exclusive(bits);
    lemma_reg_fields_in_range(bits);
    assert(eval_ops(regs, Seq::<Op>::empty()) == regs);
}

/// A block whose entry address lies at or beyond the instruction memory
/// bound has an empty body and immediately returns the entry address
/// unchanged, leaving every register as it was.
pub proof fn lemma_end_of_memory(rom: Seq<u32>, pc: u64, regs: Seq<u64>)
    requires
        rom.len() <= ROM_WORDS_MAX,
        !spec_in_bounds(rom, pc),
    ensures
        spec_build(rom, pc) matches Ok(m) && m.ops.len() == 0 && m.exit == (Exit::Ret { addr: pc })
            && eval_block(m, regs) == (regs, pc),
{
    assert(eval_ops(regs, Seq::<Op>::empty()) == regs);
}


/// Every block the builder produces is well-formed for the machine-state
/// layout: all register indices address the register file and no operation
/// stores to the hardwired zero register. A backend may therefore embed the
/// layout's byte offsets without further checks.
pub proof fn lemma_built_block_wf(rom: Seq<u32>, pc: u64)
    requires
        rom.len() <= ROM_WORDS_MAX,
    ensures
        spec_build(rom, pc) matches Ok(m) ==> block_wf(m),
    decreases 4 * rom.len() + 4 - pc,
{
    if spec_in_bounds(rom, pc) {
        let bits = spec_fetch(rom, pc);
        lemma_seq_advance(rom, pc);
        lemma_reg_fields_in_range(bits);
        if spec_is_arith(bits) {
            let next = u64_specs::wrapping_add(pc, 4);
            lemma_built_block_wf(rom, next);
            let iops = spec_insn_ops(bits);
            assert(forall|i: int| 0 <= i < iops.len() ==> op_wf(#[trigger] iops[i]));
            match spec_build(rom, next) {
                Ok(m2) => {
                    if block_wf(m2) {
                        assert(forall|i: int|
                            0 <= i < (iops + m2.ops).len() ==> op_wf(#[trigger] (iops + m2.ops)[i]));
                    }
                },
                Err(_) => {},
            }
        }
    }
}

/// The hardwired-zero convention, end to end: running any block the builder
/// produces leaves register 0 unchanged, because the translator never emits
/// a store to it.
pub proof fn lemma_zero_register_convention(rom: Seq<u32>, pc: u64, regs: Seq<u64>)
    requires
        rom.len() <= ROM_WORDS_MAX,
        regs.len() == 32,
    ensures
        spec_build(rom, pc) matches Ok(m) ==> eval_block(m, regs).0.len() == 32 && eval_block(
            m,
            regs,
        ).0[0] == regs[0],
{
    lemma_built_block_wf(rom, pc);
    match spec_build(rom, pc) {
        Ok(m) => {
            lemma_zero_register_preserved(regs, m.ops);
        },
        Err(_) => {},
    }
}

} // verus!


