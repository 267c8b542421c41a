use rvjit::cache::BlockCache;
use rvjit::cpu::{reg_byte_offset, Cpu};
use rvjit::ir::{Exit, Op};
use rvjit::jit::{BuildError, ControlFlowOutcome, JIT};

fn rtype(funct7: u32, rs2: u32, rs1: u32, funct3: u32, rd: u32, opcode: u32) -> u32 {
    (funct7 << 25) | (rs2 << 20) | (rs1 << 15) | (funct3 << 12) | (rd << 7) | opcode
}

fn add(rd: u32, rs1: u32, rs2: u32) -> u32 {
    rtype(0, rs2, rs1, 0, rd, 0x33)
}

fn and(rd: u32, rs1: u32, rs2: u32) -> u32 {
    rtype(0, rs2, rs1, 7, rd, 0x33)
}

fn sll(rd: u32, rs1: u32, rs2: u32) -> u32 {
    rtype(0, rs2, rs1, 1, rd, 0x33)
}

fn bne(rs1: u32, rs2: u32, imm: i32) -> u32 {
    let u = (imm as u32) & 0x1FFE;
    let b12 = (u >> 12) & 1;
    let b11 = (u >> 11) & 1;
    let b10_5 = (u >> 5) & 0x3F;
    let b4_1 = (u >> 1) & 0xF;
    (b12 << 31) | (b10_5 << 25) | (rs2 << 20) | (rs1 << 15) | (1 << 12) | (b4_1 << 8) | (b11 << 7)
        | 0x63
}

/// Runs the dispatch loop an external embedder would run, with the reference
/// execution of blocks standing in for their native code.
fn dispatch(rom: &Vec<u32>, cpu: &mut Cpu) -> u64 {
    let mut cache = BlockCache::new();
    let mut jit = JIT::new();
    while cpu.pc < (rom.len() as u64) * 4 {
        let block = cache.get_or_build(&mut jit, rom, cpu.pc).unwrap();
        let next = block.run(cpu);
        cpu.pc = next;
    }
    jit.builds
}

#[test]
fn translate_add_emits_one_transfer() {
    let rom = vec![add(1, 2, 1)];
    let mut ops: Vec<Op> = Vec::new();
    let flow = JIT::translate(&rom, 0, &mut ops);
    assert_eq!(flow, ControlFlowOutcome::Sequential(4));
    assert_eq!(ops, vec![Op::Add { dst: 1, src1: 2, src2: 1 }]);
}

#[test]
fn translate_discards_store_to_zero_register() {
    let rom = vec![add(0, 2, 3)];
    let mut ops: Vec<Op> = Vec::new();
    let flow = JIT::translate(&rom, 0, &mut ops);
    assert_eq!(flow, ControlFlowOutcome::Sequential(4));
    assert!(ops.is_empty());
}

#[test]
fn translate_branch_reassembles_displacement() {
    let rom = vec![0, 0, 0, 0, 0, 0, 0, 0, 0, 0, 0, 0, 0, 0, 0, 0, 0, 0, 0, 0, 0, 0, 0, 0, 0,
        bne(1, 10, -4)];
    let pc = 100;
    let mut ops: Vec<Op> = Vec::new();
    let flow = JIT::translate(&rom, pc, &mut ops);
    assert!(ops.is_empty());
    assert_eq!(
        flow,
        ControlFlowOutcome::Branch { src1: 1, src2: 10, taken: 96, not_taken: 104 },
    );
}

#[test]
fn translate_out_of_bounds_ends() {
    let rom = vec![add(1, 2, 1)];
    let mut ops: Vec<Op> = Vec::new();
    let flow = JIT::translate(&rom, 4, &mut ops);
    assert_eq!(flow, ControlFlowOutcome::End(4));
    assert!(ops.is_empty());
}

#[test]
fn add_block_wraps_at_64_bits() {
    let rom = vec![add(5, 6, 7)];
    let mut jit = JIT::new();
    let block = jit.build_block(&rom, 0).unwrap();
    let mut cpu = Cpu::new();
    cpu.regs[6] = u64::MAX;
    cpu.regs[7] = 2;
    let next = block.run(&mut cpu);
    assert_eq!(cpu.regs[5], 1);
    assert_eq!(next, 4);

    let mut cpu2 = Cpu::new();
    cpu2.regs[6] = 40;
    cpu2.regs[7] = 2;
    block.run(&mut cpu2);
    assert_eq!(cpu2.regs[5], 42);
    assert_eq!(cpu2.regs[6], 40);
    assert_eq!(cpu2.regs[7], 2);
}

#[test]
fn and_block_is_bitwise() {
    let rom = vec![and(3, 1, 2)];
    let mut jit = JIT::new();
    let block = jit.build_block(&rom, 0).unwrap();
    let mut cpu = Cpu::new();
    cpu.regs[1] = 0b1100;
    cpu.regs[2] = 0b1010;
    block.run(&mut cpu);
    assert_eq!(cpu.regs[3], 0b1000);
}

#[test]
fn sll_block_masks_shift_amount() {
    let rom = vec![sll(3, 1, 2)];
    let mut jit = JIT::new();
    let block = jit.build_block(&rom, 0).unwrap();
    let mut cpu = Cpu::new();
    cpu.regs[1] = 3;
    cpu.regs[2] = 4;
    block.run(&mut cpu);
    assert_eq!(cpu.regs[3], 48);

    let mut cpu2 = Cpu::new();
    cpu2.regs[1] = 3;
    cpu2.regs[2] = 65;
    block.run(&mut cpu2);
    assert_eq!(cpu2.regs[3], 6);
}

#[test]
fn branch_block_returns_either_successor() {
    let rom = vec![bne(1, 2, 8)];
    let mut jit = JIT::new();
    let block = jit.build_block(&rom, 0).unwrap();
    assert!(block.ops.is_empty());
    assert_eq!(block.exit, Exit::CondNe { src1: 1, src2: 2, taken: 8, not_taken: 4 });

    let mut differ = Cpu::new();
    differ.regs[1] = 1;
    differ.regs[2] = 2;
    assert_eq!(block.run(&mut differ), 8);

    let mut equal = Cpu::new();
    equal.regs[1] = 7;
    equal.regs[2] = 7;
    assert_eq!(block.run(&mut equal), 4);
}

#[test]
fn block_at_end_of_memory_returns_address_unchanged() {
    let rom = vec![add(1, 2, 1)];
    let mut jit = JIT::new();
    let block = jit.build_block(&rom, 4).unwrap();
    assert!(block.ops.is_empty());
    assert_eq!(block.exit, Exit::Ret { addr: 4 });
    let mut cpu = Cpu::new();
    cpu.regs[1] = 9;
    assert_eq!(block.run(&mut cpu), 4);
    assert_eq!(cpu.regs[1], 9);

    let far = jit.build_block(&rom, 400).unwrap();
    assert_eq!(far.exit, Exit::Ret { addr: 400 });
}

#[test]
fn unrecognized_word_fails_loudly() {
    let rom = vec![add(1, 2, 1), 0xffff_ffff];
    let mut jit = JIT::new();
    let err = jit.build_block(&rom, 0).unwrap_err();
    assert_eq!(err, BuildError::UnrecognizedOpcode { pc: 4, bits: 0xffff_ffff });
}

#[test]
fn cache_builds_each_address_once() {
    let rom = vec![add(1, 2, 1)];
    let mut cache = BlockCache::new();
    let mut jit = JIT::new();
    let first = cache.get_or_build(&mut jit, &rom, 0).unwrap().duplicate();
    let second = cache.get_or_build(&mut jit, &rom, 0).unwrap().duplicate();
    assert_eq!(jit.builds, 1);
    assert_eq!(first.ops, second.ops);
    assert_eq!(first.exit, second.exit);

    cache.get_or_build(&mut jit, &rom, 4).unwrap();
    assert_eq!(jit.builds, 2);
    cache.get_or_build(&mut jit, &rom, 0).unwrap();
    assert_eq!(jit.builds, 2);
}

#[test]
fn straight_line_adds_accumulate() {
    let n = 10;
    let rom: Vec<u32> = std::iter::repeat(add(1, 2, 1)).take(n).collect();
    let mut jit = JIT::new();
    let block = jit.build_block(&rom, 0).unwrap();
    assert_eq!(block.ops.len(), n);
    let mut cpu = Cpu::new();
    cpu.regs[2] = 1;
    let next = block.run(&mut cpu);
    assert_eq!(cpu.regs[1], n as u64);
    assert_eq!(next, (n as u64) * 4);
}

#[test]
fn countdown_loop_terminates_past_the_loop() {
    let rom = vec![add(1, 2, 1), bne(1, 10, -4)];
    let mut cpu = Cpu::new();
    cpu.regs[2] = 1;
    cpu.regs[10] = 5;
    let builds = dispatch(&rom, &mut cpu);
    assert_eq!(cpu.regs[1], 5);
    assert_eq!(cpu.pc, 8);
    assert_eq!(builds, 1);
}

#[test]
fn fresh_engine_has_built_nothing() {
    let jit: JIT = Default::default();
    assert_eq!(jit.builds, 0);
    assert_eq!(JIT::new().builds, 0);
}

#[test]
fn register_layout_is_dense() {
    assert_eq!(reg_byte_offset(0), 0);
    assert_eq!(reg_byte_offset(1), 8);
    assert_eq!(reg_byte_offset(31), 248);
}
