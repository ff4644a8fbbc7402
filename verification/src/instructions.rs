//! Instruction words and their decoding.
//!
//! An instruction is one 16-bit word. Bits 15-12 hold the op-code; the
//! remaining bits hold op-code-specific fields: 3-bit register indices and
//! signed offsets of 5, 6, 9 or 11 bits. A decoded [`Instructions`] value
//! carries register fields as indices `0..8` and every offset or immediate
//! already sign-extended to a full 16-bit word.

use vstd::prelude::*;

use crate::VmError;

verus! {

/// One machine bit.
pub type Bit = bool;

/// `2 ^ n`.
pub open spec fn two_pow(n: nat) -> nat
    decreases n,
{
    if n == 0 {
        1
    } else {
        2 * two_pow((n - 1) as nat)
    }
}

pub proof fn lemma_two_pow_monotone(a: nat, b: nat)
    requires
        a <= b,
    ensures
        two_pow(a) <= two_pow(b),
    decreases b,
{
    if a < b {
        lemma_two_pow_monotone(a, (b - 1) as nat);
    }
}

/// The number a bit sequence denotes, least-significant bit first:
/// element `i` carries the weight `2 ^ i`, as the machine's canonical bit
/// numbering has it.
pub open spec fn bits_value(bits: Seq<Bit>) -> nat
    decreases bits.len(),
{
    if bits.len() == 0 {
        0
    } else {
        bits_value(bits.drop_last()) + if bits.last() {
            two_pow((bits.len() - 1) as nat)
        } else {
            0
        }
    }
}

/// Reads a number from at most 16 bits, least-significant bit first.
pub fn get_number_from_bits(bit_slice: &[Bit]) -> (r: u16)
    requires
        bit_slice@.len() <= 16,
    ensures
        r as nat == bits_value(bit_slice@),
{
    let mut result: u32 = 0;
    let mut weight: u32 = 1;
    let mut i: usize = 0;
    let n = bit_slice.len();
    proof {
        assert(bit_slice@.take(0) =~= Seq::<Bit>::empty());
    }
    while i < n
        invariant
            i <= n,
            n == bit_slice@.len() <= 16,
            weight == two_pow(i as nat),
            result == bits_value(bit_slice@.take(i as int)),
            result < weight,
        decreases n - i,
    {
        proof {
            reveal_with_fuel(two_pow, 17);
            lemma_two_pow_monotone(i as nat, 15);
            assert(two_pow(15) == 32768);
            assert(bit_slice@.take(i + 1).drop_last() =~= bit_slice@.take(i as int));
            assert(bit_slice@.take(i + 1).last() == bit_slice@[i as int]);
        }
        if *vstd::slice::slice_index_get(bit_slice, i) {
            result = result + weight;
        }
        weight = weight * 2;
        i = i + 1;
    }
    proof {
        reveal_with_fuel(two_pow, 17);
        assert(bit_slice@.take(n as int) =~= bit_slice@);
        lemma_two_pow_monotone(n as nat, 16);
        assert(two_pow(16) == 65536);
    }
    result as u16
}

/// Sign extension: replicating a field's own most-significant bit into all
/// higher bits of the 16-bit result. The widths are the ones the instruction
/// set uses for signed fields.
pub open spec fn sign_extend_spec(value: u16, bit_count: u16) -> u16 {
    if bit_count == 5 {
        if value < 0x10 {
            value
        } else {
            (value + 0xFFE0) as u16
        }
    } else if bit_count == 6 {
        if value < 0x20 {
            value
        } else {
            (value + 0xFFC0) as u16
        }
    } else if bit_count == 9 {
        if value < 0x100 {
            value
        } else {
            (value + 0xFE00) as u16
        }
    } else if bit_count == 11 {
        if value < 0x400 {
            value
        } else {
            (value + 0xF800) as u16
        }
    } else {
        value
    }
}

/// Sign-extends a field of 5, 6, 9 or 11 bits to a full 16-bit word.
pub fn sign_extend(value: u16, bit_count: u16) -> (r: u16)
    requires
        bit_count == 5 ==> value < 0x20,
        bit_count == 6 ==> value < 0x40,
        bit_count == 9 ==> value < 0x200,
        bit_count == 11 ==> value < 0x800,
        bit_count == 5 || bit_count == 6 || bit_count == 9 || bit_count == 11,
    ensures
        r == sign_extend_spec(value, bit_count),
{
    if bit_count == 5 {
        if value < 0x10 {
            value
        } else {
            value + 0xFFE0
        }
    } else if bit_count == 6 {
        if value < 0x20 {
            value
        } else {
            value + 0xFFC0
        }
    } else if bit_count == 9 {
        if value < 0x100 {
            value
        } else {
            value + 0xFE00
        }
    } else {
        if value < 0x400 {
            value
        } else {
            value + 0xF800
        }
    }
}

/// The second operand of an arithmetic instruction: a register, or a 5-bit
/// immediate already sign-extended.
#[derive(Debug, Clone, Copy, PartialEq, Eq)]
pub enum LoadType {
    Register { src_register: u16 },
    Immediate { value: u16 },
}

/// The operand of a Jump: a base register, or the canonical return form
/// (base register 7, recognized at decode time).
#[derive(Debug, Clone, Copy, PartialEq, Eq)]
pub enum JumpType {
    BaseRegister(u16),
    Return,
}

/// The operand of a JumpRegister: an 11-bit sign-extended offset, or a base
/// register.
#[derive(Debug, Clone, Copy, PartialEq, Eq)]
pub enum JumpRegisterType {
    FromOffset { pc_offset_11: u16 },
    FromRegister { base_register: u16 },
}

/// A decoded instruction: one variant per op-code. Register fields are
/// indices `0..8`; offset and immediate fields are sign-extended words.
#[derive(Debug, Clone, Copy, PartialEq, Eq)]
pub enum Instructions {
    /// The two reserved op-codes, carrying the raw op-code for diagnostics.
    UnImplemented(u16),
    Branch { pc_offset_9: u16, p: Bit, z: Bit, n: Bit },
    Add { dest_register: u16, src_register: u16, add_type: LoadType },
    LoadDirect { pc_offset_9: u16, dest_register: u16 },
    StoreDirect { pc_offset_9: u16, src_register: u16 },
    JumpRegister(JumpRegisterType),
    And { dest_register: u16, src_register: u16, add_type: LoadType },
    LoadRegister { offset6: u16, base_register: u16, dest_register: u16 },
    StoreRegister { offset6: u16, base_register: u16, src_register: u16 },
    Not { dest_register: u16, src_register: u16 },
    LoadIndirect { pc_offset_9: u16, dest_register: u16 },
    StoreIndirect { pc_offset_9: u16, src_register: u16 },
    Jump(JumpType),
    LoadEffectiveAddress { pc_offset_9: u16, dest_register: u16 },
    Trap { trap_vector: u16 },
}

/// Every register field is a legal index and every decoded field fits the
/// width it was read from.
pub open spec fn wf_instruction(i: Instructions) -> bool {
    match i {
        Instructions::UnImplemented(op) => op == 8 || op == 13,
        Instructions::Branch { pc_offset_9, p, z, n } => true,
        Instructions::Add { dest_register, src_register, add_type } => {
            &&& dest_register < 8
            &&& src_register < 8
            &&& (add_type matches LoadType::Register { src_register: s2 } ==> s2 < 8)
        },
        Instructions::LoadDirect { pc_offset_9, dest_register } => dest_register < 8,
        Instructions::StoreDirect { pc_offset_9, src_register } => src_register < 8,
        Instructions::JumpRegister(j) => (j matches JumpRegisterType::FromRegister {
            base_register,
        } ==> base_register < 8),
        Instructions::And { dest_register, src_register, add_type } => {
            &&& dest_register < 8
            &&& src_register < 8
            &&& (add_type matches LoadType::Register { src_register: s2 } ==> s2 < 8)
        },
        Instructions::LoadRegister { offset6, base_register, dest_register } => {
            &&& base_register < 8
            &&& dest_register < 8
        },
        Instructions::StoreRegister { offset6, base_register, src_register } => {
            &&& base_register < 8
            &&& src_register < 8
        },
        Instructions::Not { dest_register, src_register } => {
            &&& dest_register < 8
            &&& src_register < 8
        },
        Instructions::LoadIndirect { pc_offset_9, dest_register } => dest_register < 8,
        Instructions::StoreIndirect { pc_offset_9, src_register } => src_register < 8,
        Instructions::Jump(j) => (j matches JumpType::BaseRegister(b) ==> b < 8),
        Instructions::LoadEffectiveAddress { pc_offset_9, dest_register } => dest_register < 8,
        Instructions::Trap { trap_vector } => trap_vector < 0x100,
    }
}

/// What a 16-bit word decodes to. Bit fields are extracted arithmetically:
/// the field at bits `a..b` of `w` is `(w / 2^a) % 2^(b-a)`.
pub open spec fn spec_decode(w: u16) -> Instructions {
    let op = w / 0x1000;
    if op == 0 {
        Instructions::Branch {
            pc_offset_9: sign_extend_spec(w % 0x200, 9),
            p: (w / 0x200) % 2 == 1,
            z: (w / 0x400) % 2 == 1,
            n: (w / 0x800) % 2 == 1,
        }
    } else if op == 1 {
        Instructions::Add {
            dest_register: (w / 0x200) % 8,
            src_register: (w / 0x40) % 8,
            add_type: if (w / 0x20) % 2 == 1 {
                LoadType::Immediate { value: sign_extend_spec(w % 0x20, 5) }
            } else {
                LoadType::Register { src_register: w % 8 }
            },
        }
    } else if op == 2 {
        Instructions::LoadDirect {
            pc_offset_9: sign_extend_spec(w % 0x200, 9),
            dest_register: (w / 0x200) % 8,
        }
    } else if op == 3 {
        Instructions::StoreDirect {
            pc_offset_9: sign_extend_spec(w % 0x200, 9),
            src_register: (w / 0x200) % 8,
        }
    } else if op == 4 {
        if (w / 0x800) % 2 == 1 {
            Instructions::JumpRegister(
                JumpRegisterType::FromOffset { pc_offset_11: sign_extend_spec(w % 0x800, 11) },
            )
        } else {
            Instructions::JumpRegister(
                JumpRegisterType::FromRegister { base_register: (w / 0x40) % 8 },
            )
        }
    } else if op == 5 {
        Instructions::And {
            dest_register: (w / 0x200) % 8,
            src_register: (w / 0x40) % 8,
            add_type: if (w / 0x20) % 2 == 1 {
                LoadType::Immediate { value: sign_extend_spec(w % 0x20, 5) }
            } else {
                LoadType::Register { src_register: w % 8 }
            },
        }
    } else if op == 6 {
        Instructions::LoadRegister {
            offset6: sign_extend_spec(w % 0x40, 6),
            base_register: (w / 0x40) % 8,
            dest_register: (w / 0x200) % 8,
        }
    } else if op == 7 {
        Instructions::StoreRegister {
            offset6: sign_extend_spec(w % 0x40, 6),
            base_register: (w / 0x40) % 8,
            src_register: (w / 0x200) % 8,
        }
    } else if op == 9 {
        Instructions::Not { dest_register: (w / 0x200) % 8, src_register: (w / 0x40) % 8 }
    } else if op == 10 {
        Instructions::LoadIndirect {
            pc_offset_9: sign_extend_spec(w % 0x200, 9),
            dest_register: (w / 0x200) % 8,
        }
    } else if op == 11 {
        Instructions::StoreIndirect {
            pc_offset_9: sign_extend_spec(w % 0x200, 9),
            src_register: (w / 0x200) % 8,
        }
    } else if op == 12 {
        if (w / 0x40) % 8 == 7 {
            Instructions::Jump(JumpType::Return)
        } else {
            Instructions::Jump(JumpType::BaseRegister((w / 0x40) % 8))
        }
    } else if op == 14 {
        Instructions::LoadEffectiveAddress {
            pc_offset_9: sign_extend_spec(w % 0x200, 9),
            dest_register: (w / 0x200) % 8,
        }
    } else if op == 15 {
        Instructions::Trap { trap_vector: w % 0x100 }
    } else {
        Instructions::UnImplemented(op)
    }
}

impl Instructions {
    /// Decoding is total: the 4-bit op-code space is fully enumerated, with
    /// the two reserved op-codes kept as an explicit marker, so every word
    /// decodes to a well-formed instruction and the error case never occurs.
    pub fn decode(word: u16) -> (r: Result<Instructions, VmError>)
        ensures
            r == Ok::<Instructions, VmError>(spec_decode(word)),
            wf_instruction(spec_decode(word)),
    {
        let op = word / 0x1000;
        let i = if op == 0 {
            Instructions::Branch {
                pc_offset_9: sign_extend(word % 0x200, 9),
                p: (word / 0x200) % 2 == 1,
                z: (word / 0x400) % 2 == 1,
                n: (word / 0x800) % 2 == 1,
            }
        } else if op == 1 {
            Instructions::Add {
                dest_register: (word / 0x200) % 8,
                src_register: (word / 0x40) % 8,
                add_type: if (word / 0x20) % 2 == 1 {
                    LoadType::Immediate { value: sign_extend(word % 0x20, 5) }
                } else {
                    LoadType::Register { src_register: word % 8 }
                },
            }
        } else if op == 2 {
            Instructions::LoadDirect {
                pc_offset_9: sign_extend(word % 0x200, 9),
                dest_register: (word / 0x200) % 8,
            }
        } else if op == 3 {
            Instructions::StoreDirect {
                pc_offset_9: sign_extend(word % 0x200, 9),
                src_register: (word / 0x200) % 8,
            }
        } else if op == 4 {
            if (word / 0x800) % 2 == 1 {
                Instructions::JumpRegister(
                    JumpRegisterType::FromOffset { pc_offset_11: sign_extend(word % 0x800, 11) },
                )
            } else {
                Instructions::JumpRegister(
                    JumpRegisterType::FromRegister { base_register: (word / 0x40) % 8 },
                )
            }
        } else if op == 5 {
            Instructions::And {
                dest_register: (word / 0x200) % 8,
                src_register: (word / 0x40) % 8,
                add_type: if (word / 0x20) % 2 == 1 {
                    LoadType::Immediate { value: sign_extend(word % 0x20, 5) }
                } else {
                    LoadType::Register { src_register: word % 8 }
                },
            }
        } else if op == 6 {
            Instructions::LoadRegister {
                offset6: sign_extend(word % 0x40, 6),
                base_register: (word / 0x40) % 8,
                dest_register: (word / 0x200) % 8,
            }
        } else if op == 7 {
            Instructions::StoreRegister {
                offset6: sign_extend(word % 0x40, 6),
                base_register: (word / 0x40) % 8,
                src_register: (word / 0x200) % 8,
            }
        } else if op == 9 {
            Instructions::Not {
                dest_register: (word / 0x200) % 8,
                src_register: (word / 0x40) % 8,
            }
        } else if op == 10 {
            Instructions::LoadIndirect {
                pc_offset_9: sign_extend(word % 0x200, 9),
                dest_register: (word / 0x200) % 8,
            }
        } else if op == 11 {
            Instructions::StoreIndirect {
                pc_offset_9: sign_extend(word % 0x200, 9),
                src_register: (word / 0x200) % 8,
            }
        } else if op == 12 {
            if (word / 0x40) % 8 == 7 {
                Instructions::Jump(JumpType::Return)
            } else {
                Instructions::Jump(JumpType::BaseRegister((word / 0x40) % 8))
            }
        } else if op == 14 {
            Instructions::LoadEffectiveAddress {
                pc_offset_9: sign_extend(word % 0x200, 9),
                dest_register: (word / 0x200) % 8,
            }
        } else if op == 15 {
            Instructions::Trap { trap_vector: word % 0x100 }
        } else {
            Instructions::UnImplemented(op)
        };
        Ok(i)
    }

    /// Parses an instruction given as an array of 16 bits, element `i`
    /// holding bit `i` of the instruction word (bit 0 least significant).
    /// The array's word is decoded exactly as [`Instructions::decode`]
    /// decodes it, so the two decoders always agree.
    pub fn parse_instruction(instruction_slice: &[Bit; 16]) -> (r: Instructions)
        ensures
            r == spec_decode(bits_value(instruction_slice@) as u16),
            wf_instruction(r),
    {
        let word = get_number_from_bits(instruction_slice.as_slice());
        match Instructions::decode(word) {
            Ok(i) => i,
            Err(_) => Instructions::UnImplemented(word / 0x1000),  // never reached
        }
    }
}

/// The bit pattern of an Add-immediate instruction with the given fields:
/// op-code 1, the immediate-select bit set, and the three fields in their
/// places.
pub open spec fn encode_add_immediate_spec(
    dest_register: u16,
    src_register: u16,
    immediate: u16,
) -> u16 {
    (0x1000 + dest_register * 0x200 + src_register * 0x40 + 0x20 + immediate) as u16
}

/// Builds the word an Add-immediate instruction is encoded as.
pub fn encode_add_immediate(dest_register: u16, src_register: u16, immediate: u16) -> (w: u16)
    requires
        dest_register < 8,
        src_register < 8,
        immediate < 0x20,
    ensures
        w == encode_add_immediate_spec(dest_register, src_register, immediate),
{
    0x1000 + dest_register * 0x200 + src_register * 0x40 + 0x20 + immediate
}

/// Round trip: decoding an encoded Add-immediate instruction reproduces the
/// destination and source register indices and the immediate it was built
/// from — the decoded value is the immediate's sign extension, whose low
/// five bits are the immediate itself.
pub proof fn lemma_add_immediate_round_trip(dest_register: u16, src_register: u16, immediate: u16)
    requires
        dest_register < 8,
        src_register < 8,
        immediate < 0x20,
    ensures
        spec_decode(encode_add_immediate_spec(dest_register, src_register, immediate))
            == (Instructions::Add {
            dest_register,
            src_register,
            add_type: LoadType::Immediate { value: sign_extend_spec(immediate, 5) },
        }),
        sign_extend_spec(immediate, 5) % 0x20 == immediate,
{
    let w = encode_add_immediate_spec(dest_register, src_register, immediate);
    assert(w == 0x1000 + dest_register * 0x200 + src_register * 0x40 + 0x20 + immediate);
    assert(w / 0x1000 == 1 && (w / 0x200) % 8 == dest_register && (w / 0x40) % 8 == src_register
        && (w / 0x20) % 2 == 1 && w % 0x20 == immediate) by (bit_vector)
        requires
            dest_register < 8,
            src_register < 8,
            immediate < 0x20,
            w == 0x1000 + dest_register * 0x200 + src_register * 0x40 + 0x20 + immediate,
    ;
}

} // verus!
