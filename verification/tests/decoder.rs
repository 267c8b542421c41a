use rvjit::insn::Insn;

fn rtype(funct7: u32, rs2: u32, rs1: u32, funct3: u32, rd: u32, opcode: u32) -> u32 {
    (funct7 << 25) | (rs2 << 20) | (rs1 << 15) | (funct3 << 12) | (rd << 7) | opcode
}

#[test]
fn bit_range_matches_slicing_formula() {
    let words: [u64; 4] = [0x001100b3, 0xfe009ee3, 0xdeadbeef, 0xffffffff];
    for &w in words.iter() {
        let insn = Insn(w);
        for offset in 0u8..28 {
            for length in 1u8..6 {
                let expected = (w >> offset) & ((1u64 << length) - 1);
                assert_eq!(insn.bit_range(offset, length), expected);
            }
        }
    }
}

#[test]
fn sign_extend_boundaries() {
    assert_eq!(Insn::sign_extend(0b111, 3), -1);
    assert_eq!(Insn::sign_extend(0b011, 3), 3);
    assert_eq!(Insn::sign_extend(0b100, 3), -4);
    assert_eq!(Insn::sign_extend(0, 3), 0);
    assert_eq!(Insn::sign_extend(0x1FFC, 13), -4);
    assert_eq!(Insn::sign_extend(0x0FFC, 13), 0xFFC);
}

#[test]
fn bit_range_sign_extended_agrees_with_sign_extend() {
    let w: u64 = 0xfe009ee3;
    let insn = Insn(w);
    for offset in 0u8..20 {
        for length in 1u8..13 {
            let field = insn.bit_range(offset, length);
            let expected = Insn::sign_extend(field, length) as u64;
            assert_eq!(insn.bit_range_sign_extended(offset, length), expected);
        }
    }
}

#[test]
fn instruction_length_from_low_bits() {
    assert_eq!(Insn::from_bits(0x001100b3).length(), 4);
    assert_eq!(Insn::from_bits(0xfe009ee3).length(), 4);
    assert_eq!(Insn::from_bits(0x0000).length(), 2);
    assert_eq!(Insn::from_bits(0x0001).length(), 2);
    assert_eq!(Insn::from_bits(0x0002).length(), 2);
    assert_eq!(Insn::from_bits(0xfffe).length(), 2);
    assert_eq!(Insn::from_bits(0x0003).length(), 4);
}

#[test]
fn from_bytes_is_little_endian() {
    let bytes = [0xb3u8, 0x00, 0x11, 0x00, 0x99];
    assert_eq!(Insn::from_bytes(&bytes).bits(), 0x001100b3);
    assert_eq!(Insn::from_bits(0x001100b3).bits(), 0x001100b3);
}

#[test]
fn named_fields_of_an_rtype_word() {
    let w = rtype(0, 1, 2, 0, 1, 0x33);
    assert_eq!(w, 0x001100b3);
    let insn = Insn(w as u64);
    assert_eq!(insn.opcode(), 0x33);
    assert_eq!(insn.rd(), 1);
    assert_eq!(insn.rs1(), 2);
    assert_eq!(insn.rs2(), 1);
    assert_eq!(insn.funct3(), 0);
    assert_eq!(insn.funct7(), 0);
}

#[test]
fn named_fields_of_a_branch_word() {
    let insn = Insn(0xfe009ee3);
    assert_eq!(insn.opcode(), 0x63);
    assert_eq!(insn.funct3(), 1);
    assert_eq!(insn.rs1(), 1);
    assert_eq!(insn.rs2(), 0);
    assert_eq!(insn.bimm12hi(), 0x7f);
    assert_eq!(insn.bimm12lo(), 0x1d);
}

#[test]
fn immediate_fields() {
    let w: u64 = 0xfff12345;
    let insn = Insn(w);
    assert_eq!(insn.imm12(), (w >> 20) & 0xfff);
    assert_eq!(insn.imm20(), (w >> 12) & 0xfffff);
    assert_eq!(insn.csr(), (w >> 20) & 0xfff);
    assert_eq!(insn.shamtd(), (w >> 20) & 0x3f);
    assert_eq!(insn.shamtw(), (w >> 20) & 0x1f);
    assert_eq!(insn.zimm(), (w >> 15) & 0x1f);
}
