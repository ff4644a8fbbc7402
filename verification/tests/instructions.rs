use lc3_vm::instructions::{
    encode_add_immediate, get_number_from_bits, sign_extend, Instructions, JumpRegisterType,
    JumpType, LoadType,
};

#[test]
fn test_create() {
    let instruction_slice = &mut [false; 16];
    instruction_slice[15] = true;
    instruction_slice[14] = true;
    instruction_slice[13] = true;
    instruction_slice[12] = false;
    let value = get_number_from_bits(&instruction_slice[12..16]);

    assert_eq!(value, 14);

    instruction_slice[15] = false;
    instruction_slice[14] = true;
    instruction_slice[13] = true;
    instruction_slice[12] = true;
    let value = get_number_from_bits(&instruction_slice[12..16]);

    assert_eq!(value, 7);
}

#[test]
fn test_parse_add() {
    let instruction_slice = &mut [false; 16];
    instruction_slice[12] = true;
    instruction_slice[5] = false;

    let ins = Instructions::parse_instruction(instruction_slice);
    assert!(
        matches!(ins, Instructions::Add { .. }),
        "instruction should be add"
    );
    assert!(
        matches!(
            ins,
            Instructions::Add {
                add_type: LoadType::Register { .. },
                ..
            }
        ),
        "instruction should be add register"
    )
}

#[test]
fn test_get_number_from_bits_weights() {
    assert_eq!(get_number_from_bits(&[]), 0);
    assert_eq!(get_number_from_bits(&[true]), 1);
    assert_eq!(get_number_from_bits(&[false, true]), 2);
    assert_eq!(get_number_from_bits(&[true, false, true, true]), 13);
    assert_eq!(get_number_from_bits(&[true; 16]), 0xFFFF);
}

#[test]
fn test_sign_extend_five_bits() {
    assert_eq!(sign_extend(0b10101, 5), 0xFFF5);
    assert_eq!(sign_extend(0b01010, 5), 10);
}

#[test]
fn test_sign_extend_other_widths() {
    assert_eq!(sign_extend(0x3F, 6), 0xFFFF);
    assert_eq!(sign_extend(0x1F, 6), 0x1F);
    assert_eq!(sign_extend(0x100, 9), 0xFF00);
    assert_eq!(sign_extend(0x0FF, 9), 0x0FF);
    assert_eq!(sign_extend(0x7FF, 11), 0xFFFF);
    assert_eq!(sign_extend(0x3FF, 11), 0x3FF);
}

#[test]
fn test_decode_is_total() {
    for word_value in 0u32..=0xFFFF {
        let word = word_value as u16;
        assert!(Instructions::decode(word).is_ok());
    }
}

#[test]
fn test_decode_branch() {
    let decoded = Instructions::decode(0x0E05).unwrap();
    assert_eq!(
        decoded,
        Instructions::Branch {
            pc_offset_9: 5,
            p: true,
            z: true,
            n: true,
        }
    );
    let positive_only = Instructions::decode(0x0205).unwrap();
    assert_eq!(
        positive_only,
        Instructions::Branch {
            pc_offset_9: 5,
            p: true,
            z: false,
            n: false,
        }
    );
}

#[test]
fn test_decode_add_and_not() {
    assert_eq!(
        Instructions::decode(0x1042).unwrap(),
        Instructions::Add {
            dest_register: 0,
            src_register: 1,
            add_type: LoadType::Register { src_register: 2 },
        }
    );
    assert_eq!(
        Instructions::decode(0x127F).unwrap(),
        Instructions::Add {
            dest_register: 1,
            src_register: 1,
            add_type: LoadType::Immediate { value: 0xFFFF },
        }
    );
    assert_eq!(
        Instructions::decode(0x5020).unwrap(),
        Instructions::And {
            dest_register: 0,
            src_register: 0,
            add_type: LoadType::Immediate { value: 0 },
        }
    );
    assert_eq!(
        Instructions::decode(0x903F).unwrap(),
        Instructions::Not {
            dest_register: 0,
            src_register: 0,
        }
    );
}

#[test]
fn test_decode_loads_and_stores() {
    assert_eq!(
        Instructions::decode(0x2E05).unwrap(),
        Instructions::LoadDirect {
            pc_offset_9: 5,
            dest_register: 7,
        }
    );
    assert_eq!(
        Instructions::decode(0x3005).unwrap(),
        Instructions::StoreDirect {
            pc_offset_9: 5,
            src_register: 0,
        }
    );
    assert_eq!(
        Instructions::decode(0x6685).unwrap(),
        Instructions::LoadRegister {
            offset6: 5,
            base_register: 2,
            dest_register: 3,
        }
    );
    assert_eq!(
        Instructions::decode(0x7685).unwrap(),
        Instructions::StoreRegister {
            offset6: 5,
            base_register: 2,
            src_register: 3,
        }
    );
    assert_eq!(
        Instructions::decode(0xA005).unwrap(),
        Instructions::LoadIndirect {
            pc_offset_9: 5,
            dest_register: 0,
        }
    );
    assert_eq!(
        Instructions::decode(0xB005).unwrap(),
        Instructions::StoreIndirect {
            pc_offset_9: 5,
            src_register: 0,
        }
    );
    assert_eq!(
        Instructions::decode(0xE005).unwrap(),
        Instructions::LoadEffectiveAddress {
            pc_offset_9: 5,
            dest_register: 0,
        }
    );
}

#[test]
fn test_decode_jumps_and_traps() {
    assert_eq!(
        Instructions::decode(0x4805).unwrap(),
        Instructions::JumpRegister(JumpRegisterType::FromOffset { pc_offset_11: 5 })
    );
    assert_eq!(
        Instructions::decode(0x4080).unwrap(),
        Instructions::JumpRegister(JumpRegisterType::FromRegister { base_register: 2 })
    );
    assert_eq!(
        Instructions::decode(0xC080).unwrap(),
        Instructions::Jump(JumpType::BaseRegister(2))
    );
    assert_eq!(
        Instructions::decode(0xC1C0).unwrap(),
        Instructions::Jump(JumpType::Return)
    );
    assert_eq!(
        Instructions::decode(0xF025).unwrap(),
        Instructions::Trap { trap_vector: 0x25 }
    );
    assert_eq!(
        Instructions::decode(0x8123).unwrap(),
        Instructions::UnImplemented(8)
    );
    assert_eq!(
        Instructions::decode(0xD000).unwrap(),
        Instructions::UnImplemented(13)
    );
}

#[test]
fn test_add_immediate_round_trip() {
    let word = encode_add_immediate(2, 3, 0b10101);
    assert_eq!(word, 0x14F5);
    let decoded = Instructions::decode(word).unwrap();
    match decoded {
        Instructions::Add {
            dest_register,
            src_register,
            add_type: LoadType::Immediate { value },
        } => {
            assert_eq!(dest_register, 2);
            assert_eq!(src_register, 3);
            assert_eq!(value, 0xFFF5);
            assert_eq!(value & 0x1F, 0b10101);
        }
        other => panic!("expected an add-immediate, got {:?}", other),
    }

    let word = encode_add_immediate(7, 0, 10);
    let decoded = Instructions::decode(word).unwrap();
    match decoded {
        Instructions::Add {
            dest_register,
            src_register,
            add_type: LoadType::Immediate { value },
        } => {
            assert_eq!(dest_register, 7);
            assert_eq!(src_register, 0);
            assert_eq!(value, 10);
        }
        other => panic!("expected an add-immediate, got {:?}", other),
    }
}

/// The bits of a word, element `i` holding bit `i`.
fn bits_of(word: u16) -> [bool; 16] {
    let mut bits = [false; 16];
    for i in 0..16 {
        bits[i] = (word >> i) & 1 == 1;
    }
    bits
}

#[test]
fn test_parse_instruction_reads_canonical_bit_order() {
    // Bit 0 is least significant: the bits of 0x1B75 spell ADD R5, R5, #-11.
    assert_eq!(
        Instructions::parse_instruction(&bits_of(0x1B75)),
        Instructions::Add {
            dest_register: 5,
            src_register: 5,
            add_type: LoadType::Immediate { value: 0xFFF5 },
        }
    );
    // Sign bit clear: the bits of 0x1B6A spell ADD R5, R5, #10.
    assert_eq!(
        Instructions::parse_instruction(&bits_of(0x1B6A)),
        Instructions::Add {
            dest_register: 5,
            src_register: 5,
            add_type: LoadType::Immediate { value: 10 },
        }
    );
    // Only bit 15 set is the word 0x8000: reserved op-code 8.
    assert_eq!(
        Instructions::parse_instruction(&bits_of(0x8000)),
        Instructions::UnImplemented(8)
    );
    assert_eq!(
        Instructions::parse_instruction(&bits_of(0xF025)),
        Instructions::Trap { trap_vector: 0x25 }
    );
}

#[test]
fn test_parse_instruction_agrees_with_decode() {
    for word_value in 0u32..=0xFFFF {
        let word = word_value as u16;
        assert_eq!(
            Instructions::parse_instruction(&bits_of(word)),
            Instructions::decode(word).unwrap()
        );
    }
}
