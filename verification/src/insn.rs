use vstd::prelude::*;

verus! {

/// A raw instruction word: a 16- or 32-bit pattern held in the low bits of a
/// 64-bit value. Every field accessor is a pure function of the bits; any bit
/// pattern can be decoded (validity judgments belong to the translator).
#[derive(Clone, Copy, Debug)]
pub struct Insn(pub u64);

/// The unsigned value of the `length`-bit field of `bits` starting at bit
/// `offset`: the reference bit-slicing formula `(bits >> offset) & mask`.
pub open spec fn spec_bit_range(bits: u64, offset: u8, length: u8) -> u64 {
    (bits >> (offset as u64)) & (((1u64 << (length as u64)) - 1) as u64)
}

/// Two's-complement sign extension of the low `length` bits of `value`: the
/// sign bit is copied into every bit position at and above `length`.
pub open spec fn spec_sign_extend(value: u64, length: u8) -> i64 {
    if value & (1u64 << ((length - 1) as u64)) != 0 {
        (value | !(((1u64 << (length as u64)) - 1) as u64)) as i64
    } else {
        value as i64
    }
}

/// The byte length of the instruction starting with `bits`: a word whose two
/// low bits hold the reserved long-form marker occupies four bytes, any other
/// word two.
pub open spec fn spec_insn_length(bits: u64) -> u64 {
    if bits & 0b11 == 0b11 {
        4
    } else {
        2
    }
}

proof fn lemma_one_shl_positive(length: u64)
    by (bit_vector)
    requires
        length < 64,
    ensures
        1u64 << length >= 1,
{
}

/// For an in-range `value`, sign extension yields `value` itself when the
/// sign bit is clear and `value` minus two to the power of `length` when it
/// is set.
pub proof fn lemma_sign_extend_arith(value: u64, length: u8)
    by (bit_vector)
    requires
        0 < length < 64,
        value < (1u64 << (length as u64)),
    ensures
        spec_sign_extend(value, length) as int == if value >= (1u64 << (((length - 1) as u8) as u64)) {
            value - (1u64 << (length as u64))
        } else {
            value as int
        },
{
}

#[verifier::rlimit(100)]
proof fn lemma_shift_slice_is_sign_extend(bits: u64, offset: u8, length: u8)
    by (bit_vector)
    requires
        0 < length < 64,
        offset + length <= 64,
    ensures
        ((((bits as i64) << (((64 - offset - length) as u8) as u64)) >> (((64 - length) as u8)
            as u64)) as u64) == spec_sign_extend(spec_bit_range(bits, offset, length), length)
            as u64,
{
}

impl Insn {
    pub fn from_bits(bits: u32) -> (r: Self)
        ensures
            r.0 == bits,
    {
        Insn(bits as u64)
    }

    /// Reads a 32-bit little-endian word from the first four bytes.
    pub fn from_bytes(bytes: &[u8]) -> (r: Self)
        requires
            bytes@.len() >= 4,
        ensures
            r.0 == (bytes@[0] as u64) | ((bytes@[1] as u64) << 8u64) | ((bytes@[2] as u64)
                << 16u64) | ((bytes@[3] as u64) << 24u64),
    {
        let w: u64 = (bytes[0] as u64) | ((bytes[1] as u64) << 8u64) | ((bytes[2] as u64) << 16u64)
            | ((bytes[3] as u64) << 24u64);
        Insn(w)
    }

    pub fn bits(&self) -> (r: u64)
        ensures
            r == self.0,
    {
        self.0
    }

    /// Extracts the `length`-bit field at bit `offset` of the word.
    pub fn bit_range(&self, offset: u8, length: u8) -> (r: u64)
        requires
            0 < length < 64,
            offset + length <= 64,
        ensures
            r == spec_bit_range(self.0, offset, length),
    {
        proof {
            lemma_one_shl_positive(length as u64);
        }
        (self.0 >> (offset as u64)) & ((1u64 << (length as u64)) - 1)
    }

    /// Extracts the `length`-bit field at bit `offset`, sign-extended over
    /// `length` bits into a 64-bit pattern.
    pub fn bit_range_sign_extended(&self, offset: u8, length: u8) -> (r: u64)
        requires
            0 < length < 64,
            offset + length <= 64,
        ensures
            r == spec_sign_extend(spec_bit_range(self.0, offset, length), length) as u64,
    {
        proof {
            lemma_shift_slice_is_sign_extend(self.0, offset, length);
        }
        #[verifier::truncate]
        ((((self.0 as i64) << ((64 - offset - length) as u64)) >> ((64 - length) as u64)) as u64)
    }

    /// Interprets the low `length` bits of `value` as a two's-complement
    /// signed quantity.
    pub fn sign_extend(value: u64, length: u8) -> (r: i64)
        requires
            0 < length < 64,
        ensures
            r == spec_sign_extend(value, length),
            value < (1u64 << (length as u64)) ==> r as int == if value >= (1u64 << (((length - 1)
                as u8) as u64)) {
                value - (1u64 << (length as u64))
            } else {
                value as int
            },
    {
        proof {
            lemma_one_shl_positive(length as u64);
            if value < (1u64 << (length as u64)) {
                lemma_sign_extend_arith(value, length);
            }
        }
        let sign_bit: u64 = 1u64 << (((length - 1) as u8) as u64);
        if value & sign_bit != 0 {
            #[verifier::truncate]
            ((value | !((1u64 << (length as u64)) - 1)) as i64)
        } else {
            #[verifier::truncate]
            (value as i64)
        }
    }

    /// The byte length of this instruction word: four bytes when the two low
    /// bits hold the long-form marker, two bytes otherwise.
    pub fn length(&self) -> (r: u64)
        ensures
            r == spec_insn_length(self.0),
    {
        if self.0 & 0b11 == 0b11 {
            4
        } else {
            2
        }
    }
}

/// Named instruction fields of the encoding, each a fixed bit slice of the
/// word.
impl Insn {
    pub fn rd(&self) -> (r: u64)
        ensures
            r == spec_bit_range(self.0, 7, 5),
    {
        self.bit_range(7, 5)
    }

    pub fn rt(&self) -> (r: u64)
        ensures
            r == spec_bit_range(self.0, 15, 5),
    {
        self.bit_range(15, 5)
    }

    pub fn rs1(&self) -> (r: u64)
        ensures
            r == spec_bit_range(self.0, 15, 5),
    {
        self.bit_range(15, 5)
    }

    pub fn rs2(&self) -> (r: u64)
        ensures
            r == spec_bit_range(self.0, 20, 5),
    {
        self.bit_range(20, 5)
    }

    pub fn rs3(&self) -> (r: u64)
        ensures
            r == spec_bit_range(self.0, 27, 5),
    {
        self.bit_range(27, 5)
    }

    pub fn aqrl(&self) -> (r: u64)
        ensures
            r == spec_bit_range(self.0, 25, 2),
    {
        self.bit_range(25, 2)
    }

    pub fn aq(&self) -> (r: u64)
        ensures
            r == spec_bit_range(self.0, 26, 1),
    {
        self.bit_range(26, 1)
    }

    pub fn rl(&self) -> (r: u64)
        ensures
            r == spec_bit_range(self.0, 25, 1),
    {
        self.bit_range(25, 1)
    }

    pub fn fm(&self) -> (r: u64)
        ensures
            r == spec_bit_range(self.0, 28, 4),
    {
        self.bit_range(28, 4)
    }

    pub fn pred(&self) -> (r: u64)
        ensures
            r == spec_bit_range(self.0, 24, 4),
    {
        self.bit_range(24, 4)
    }

    pub fn succ(&self) -> (r: u64)
        ensures
            r == spec_bit_range(self.0, 20, 4),
    {
        self.bit_range(20, 4)
    }

    pub fn rm(&self) -> (r: u64)
        ensures
            r == spec_bit_range(self.0, 12, 3),
    {
        self.bit_range(12, 3)
    }

    pub fn funct3(&self) -> (r: u64)
        ensures
            r == spec_bit_range(self.0, 12, 3),
    {
        self.bit_range(12, 3)
    }

    pub fn funct2(&self) -> (r: u64)
        ensures
            r == spec_bit_range(self.0, 25, 2),
    {
        self.bit_range(25, 2)
    }

    pub fn imm20(&self) -> (r: u64)
        ensures
            r == spec_bit_range(self.0, 12, 20),
    {
        self.bit_range(12, 20)
    }

    pub fn jimm20(&self) -> (r: u64)
        ensures
            r == spec_bit_range(self.0, 12, 20),
    {
        self.bit_range(12, 20)
    }

    pub fn imm12(&self) -> (r: u64)
        ensures
            r == spec_bit_range(self.0, 20, 12),
    {
        self.bit_range(20, 12)
    }

    pub fn csr(&self) -> (r: u64)
        ensures
            r == spec_bit_range(self.0, 20, 12),
    {
        self.bit_range(20, 12)
    }

    pub fn imm12hi(&self) -> (r: u64)
        ensures
            r == spec_bit_range(self.0, 25, 7),
    {
        self.bit_range(25, 7)
    }

    pub fn bimm12hi(&self) -> (r: u64)
        ensures
            r == spec_bit_range(self.0, 25, 7),
    {
        self.bit_range(25, 7)
    }

    pub fn imm12lo(&self) -> (r: u64)
        ensures
            r == spec_bit_range(self.0, 7, 5),
    {
        self.bit_range(7, 5)
    }

    pub fn bimm12lo(&self) -> (r: u64)
        ensures
            r == spec_bit_range(self.0, 7, 5),
    {
        self.bit_range(7, 5)
    }

    pub fn shamtq(&self) -> (r: u64)
        ensures
            r == spec_bit_range(self.0, 20, 7),
    {
        self.bit_range(20, 7)
    }

    pub fn shamtw(&self) -> (r: u64)
        ensures
            r == spec_bit_range(self.0, 20, 5),
    {
        self.bit_range(20, 5)
    }

    pub fn shamtw4(&self) -> (r: u64)
        ensures
            r == spec_bit_range(self.0, 20, 4),
    {
        self.bit_range(20, 4)
    }

    pub fn shamtd(&self) -> (r: u64)
        ensures
            r == spec_bit_range(self.0, 20, 6),
    {
        self.bit_range(20, 6)
    }

    pub fn bs(&self) -> (r: u64)
        ensures
            r == spec_bit_range(self.0, 30, 2),
    {
        self.bit_range(30, 2)
    }

    pub fn rnum(&self) -> (r: u64)
        ensures
            r == spec_bit_range(self.0, 20, 4),
    {
        self.bit_range(20, 4)
    }

    pub fn rc(&self) -> (r: u64)
        ensures
            r == spec_bit_range(self.0, 25, 5),
    {
        self.bit_range(25, 5)
    }

    pub fn imm2(&self) -> (r: u64)
        ensures
            r == spec_bit_range(self.0, 20, 2),
    {
        self.bit_range(20, 2)
    }

    pub fn imm3(&self) -> (r: u64)
        ensures
            r == spec_bit_range(self.0, 20, 3),
    {
        self.bit_range(20, 3)
    }

    pub fn imm4(&self) -> (r: u64)
        ensures
            r == spec_bit_range(self.0, 20, 4),
    {
        self.bit_range(20, 4)
    }

    pub fn imm5(&self) -> (r: u64)
        ensures
            r == spec_bit_range(self.0, 20, 5),
    {
        self.bit_range(20, 5)
    }

    pub fn imm6(&self) -> (r: u64)
        ensures
            r == spec_bit_range(self.0, 20, 6),
    {
        self.bit_range(20, 6)
    }

    pub fn zimm(&self) -> (r: u64)
        ensures
            r == spec_bit_range(self.0, 15, 5),
    {
        self.bit_range(15, 5)
    }

    pub fn opcode(&self) -> (r: u64)
        ensures
            r == spec_bit_range(self.0, 0, 7),
    {
        self.bit_range(0, 7)
    }

    pub fn funct7(&self) -> (r: u64)
        ensures
            r == spec_bit_range(self.0, 25, 7),
    {
        self.bit_range(25, 7)
    }

    pub fn vd(&self) -> (r: u64)
        ensures
            r == spec_bit_range(self.0, 7, 5),
    {
        self.bit_range(7, 5)
    }

    pub fn vs3(&self) -> (r: u64)
        ensures
            r == spec_bit_range(self.0, 7, 5),
    {
        self.bit_range(7, 5)
    }

    pub fn vs1(&self) -> (r: u64)
        ensures
            r == spec_bit_range(self.0, 15, 5),
    {
        self.bit_range(15, 5)
    }

    pub fn vs2(&self) -> (r: u64)
        ensures
            r == spec_bit_range(self.0, 20, 5),
    {
        self.bit_range(20, 5)
    }

    pub fn vm(&self) -> (r: u64)
        ensures
            r == spec_bit_range(self.0, 25, 1),
    {
        self.bit_range(25, 1)
    }

    pub fn wd(&self) -> (r: u64)
        ensures
            r == spec_bit_range(self.0, 26, 1),
    {
        self.bit_range(26, 1)
    }

    pub fn amoop(&self) -> (r: u64)
        ensures
            r == spec_bit_range(self.0, 27, 5),
    {
        self.bit_range(27, 5)
    }

    pub fn nf(&self) -> (r: u64)
        ensures
            r == spec_bit_range(self.0, 29, 3),
    {
        self.bit_range(29, 3)
    }

    pub fn simm5(&self) -> (r: u64)
        ensures
            r == spec_bit_range(self.0, 15, 5),
    {
        self.bit_range(15, 5)
    }

    pub fn zimm5(&self) -> (r: u64)
        ensures
            r == spec_bit_range(self.0, 15, 5),
    {
        self.bit_range(15, 5)
    }

    pub fn zimm10(&self) -> (r: u64)
        ensures
            r == spec_bit_range(self.0, 20, 10),
    {
        self.bit_range(20, 10)
    }

    pub fn zimm11(&self) -> (r: u64)
        ensures
            r == spec_bit_range(self.0, 20, 11),
    {
        self.bit_range(20, 11)
    }

    pub fn zimm6hi(&self) -> (r: u64)
        ensures
            r == spec_bit_range(self.0, 26, 1),
    {
        self.bit_range(26, 1)
    }

    pub fn zimm6lo(&self) -> (r: u64)
        ensures
            r == spec_bit_range(self.0, 15, 5),
    {
        self.bit_range(15, 5)
    }

    pub fn c_nzuimm10(&self) -> (r: u64)
        ensures
            r == spec_bit_range(self.0, 5, 8),
    {
        self.bit_range(5, 8)
    }

    pub fn c_uimm7lo(&self) -> (r: u64)
        ensures
            r == spec_bit_range(self.0, 5, 2),
    {
        self.bit_range(5, 2)
    }

    pub fn c_uimm7hi(&self) -> (r: u64)
        ensures
            r == spec_bit_range(self.0, 10, 3),
    {
        self.bit_range(10, 3)
    }

    pub fn c_uimm8lo(&self) -> (r: u64)
        ensures
            r == spec_bit_range(self.0, 5, 2),
    {
        self.bit_range(5, 2)
    }

    pub fn c_uimm8hi(&self) -> (r: u64)
        ensures
            r == spec_bit_range(self.0, 10, 3),
    {
        self.bit_range(10, 3)
    }

    pub fn c_uimm9lo(&self) -> (r: u64)
        ensures
            r == spec_bit_range(self.0, 5, 2),
    {
        self.bit_range(5, 2)
    }

    pub fn c_uimm9hi(&self) -> (r: u64)
        ensures
            r == spec_bit_range(self.0, 10, 3),
    {
        self.bit_range(10, 3)
    }

    pub fn c_nzimm6lo(&self) -> (r: u64)
        ensures
            r == spec_bit_range(self.0, 2, 5),
    {
        self.bit_range(2, 5)
    }

    pub fn c_nzimm6hi(&self) -> (r: u64)
        ensures
            r == spec_bit_range(self.0, 12, 1),
    {
        self.bit_range(12, 1)
    }

    pub fn c_imm6lo(&self) -> (r: u64)
        ensures
            r == spec_bit_range(self.0, 2, 5),
    {
        self.bit_range(2, 5)
    }

    pub fn c_imm6hi(&self) -> (r: u64)
        ensures
            r == spec_bit_range(self.0, 12, 1),
    {
        self.bit_range(12, 1)
    }

    pub fn c_nzimm10hi(&self) -> (r: u64)
        ensures
            r == spec_bit_range(self.0, 12, 1),
    {
        self.bit_range(12, 1)
    }

    pub fn c_nzimm10lo(&self) -> (r: u64)
        ensures
            r == spec_bit_range(self.0, 2, 5),
    {
        self.bit_range(2, 5)
    }

    pub fn c_nzimm18hi(&self) -> (r: u64)
        ensures
            r == spec_bit_range(self.0, 12, 1),
    {
        self.bit_range(12, 1)
    }

    pub fn c_nzimm18lo(&self) -> (r: u64)
        ensures
            r == spec_bit_range(self.0, 2, 5),
    {
        self.bit_range(2, 5)
    }

    pub fn c_imm12(&self) -> (r: u64)
        ensures
            r == spec_bit_range(self.0, 2, 11),
    {
        self.bit_range(2, 11)
    }

    pub fn c_bimm9lo(&self) -> (r: u64)
        ensures
            r == spec_bit_range(self.0, 2, 5),
    {
        self.bit_range(2, 5)
    }

    pub fn c_bimm9hi(&self) -> (r: u64)
        ensures
            r == spec_bit_range(self.0, 10, 3),
    {
        self.bit_range(10, 3)
    }

    pub fn c_nzuimm5(&self) -> (r: u64)
        ensures
            r == spec_bit_range(self.0, 2, 5),
    {
        self.bit_range(2, 5)
    }

    pub fn c_nzuimm6lo(&self) -> (r: u64)
        ensures
            r == spec_bit_range(self.0, 2, 5),
    {
        self.bit_range(2, 5)
    }

    pub fn c_nzuimm6hi(&self) -> (r: u64)
        ensures
            r == spec_bit_range(self.0, 12, 1),
    {
        self.bit_range(12, 1)
    }

    pub fn c_uimm8splo(&self) -> (r: u64)
        ensures
            r == spec_bit_range(self.0, 2, 5),
    {
        self.bit_range(2, 5)
    }

    pub fn c_uimm8sphi(&self) -> (r: u64)
        ensures
            r == spec_bit_range(self.0, 12, 1),
    {
        self.bit_range(12, 1)
    }

    pub fn c_uimm8sp_s(&self) -> (r: u64)
        ensures
            r == spec_bit_range(self.0, 7, 6),
    {
        self.bit_range(7, 6)
    }

    pub fn c_uimm10splo(&self) -> (r: u64)
        ensures
            r == spec_bit_range(self.0, 2, 5),
    {
        self.bit_range(2, 5)
    }

    pub fn c_uimm10sphi(&self) -> (r: u64)
        ensures
            r == spec_bit_range(self.0, 12, 1),
    {
        self.bit_range(12, 1)
    }

    pub fn c_uimm9splo(&self) -> (r: u64)
        ensures
            r == spec_bit_range(self.0, 2, 5),
    {
        self.bit_range(2, 5)
    }

    pub fn c_uimm9sphi(&self) -> (r: u64)
        ensures
            r == spec_bit_range(self.0, 12, 1),
    {
        self.bit_range(12, 1)
    }

    pub fn c_uimm10sp_s(&self) -> (r: u64)
        ensures
            r == spec_bit_range(self.0, 7, 6),
    {
        self.bit_range(7, 6)
    }

    pub fn c_uimm9sp_s(&self) -> (r: u64)
        ensures
            r == spec_bit_range(self.0, 7, 6),
    {
        self.bit_range(7, 6)
    }

    pub fn c_uimm2(&self) -> (r: u64)
        ensures
            r == spec_bit_range(self.0, 5, 2),
    {
        self.bit_range(5, 2)
    }

    pub fn c_uimm1(&self) -> (r: u64)
        ensures
            r == spec_bit_range(self.0, 5, 1),
    {
        self.bit_range(5, 1)
    }

    pub fn c_rlist(&self) -> (r: u64)
        ensures
            r == spec_bit_range(self.0, 4, 4),
    {
        self.bit_range(4, 4)
    }

    pub fn c_spimm(&self) -> (r: u64)
        ensures
            r == spec_bit_range(self.0, 2, 2),
    {
        self.bit_range(2, 2)
    }

    pub fn c_index(&self) -> (r: u64)
        ensures
            r == spec_bit_range(self.0, 2, 8),
    {
        self.bit_range(2, 8)
    }

    pub fn rs1_p(&self) -> (r: u64)
        ensures
            r == spec_bit_range(self.0, 7, 3),
    {
        self.bit_range(7, 3)
    }

    pub fn rs2_p(&self) -> (r: u64)
        ensures
            r == spec_bit_range(self.0, 2, 3),
    {
        self.bit_range(2, 3)
    }

    pub fn rd_p(&self) -> (r: u64)
        ensures
            r == spec_bit_range(self.0, 2, 3),
    {
        self.bit_range(2, 3)
    }

    pub fn rd_rs1_n0(&self) -> (r: u64)
        ensures
            r == spec_bit_range(self.0, 7, 5),
    {
        self.bit_range(7, 5)
    }

    pub fn rd_rs1_p(&self) -> (r: u64)
        ensures
            r == spec_bit_range(self.0, 7, 3),
    {
        self.bit_range(7, 3)
    }

    pub fn rd_rs1(&self) -> (r: u64)
        ensures
            r == spec_bit_range(self.0, 7, 5),
    {
        self.bit_range(7, 5)
    }

    pub fn rd_n2(&self) -> (r: u64)
        ensures
            r == spec_bit_range(self.0, 7, 5),
    {
        self.bit_range(7, 5)
    }

    pub fn rd_n0(&self) -> (r: u64)
        ensures
            r == spec_bit_range(self.0, 7, 5),
    {
        self.bit_range(7, 5)
    }

    pub fn rs1_n0(&self) -> (r: u64)
        ensures
            r == spec_bit_range(self.0, 7, 5),
    {
        self.bit_range(7, 5)
    }

    pub fn c_rs2_n0(&self) -> (r: u64)
        ensures
            r == spec_bit_range(self.0, 2, 5),
    {
        self.bit_range(2, 5)
    }

    pub fn c_rs1_n0(&self) -> (r: u64)
        ensures
            r == spec_bit_range(self.0, 7, 5),
    {
        self.bit_range(7, 5)
    }

    pub fn c_rs2(&self) -> (r: u64)
        ensures
            r == spec_bit_range(self.0, 2, 5),
    {
        self.bit_range(2, 5)
    }

    pub fn c_sreg1(&self) -> (r: u64)
        ensures
            r == spec_bit_range(self.0, 7, 3),
    {
        self.bit_range(7, 3)
    }

    pub fn c_sreg2(&self) -> (r: u64)
        ensures
            r == spec_bit_range(self.0, 2, 3),
    {
        self.bit_range(2, 3)
    }

}

} // verus!
