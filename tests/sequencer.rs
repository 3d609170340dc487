use i2s_pins::{BitAction, ClockControl, Enable, Peripheral, Register, RegisterOp};

fn op(register: Register, bit: u8, action: BitAction) -> RegisterOp {
    RegisterOp { register, bit, action }
}

const ALL_PERIPHERALS: [Peripheral; 5] = [
    Peripheral::Spi1,
    Peripheral::Spi2,
    Peripheral::Spi3,
    Peripheral::Spi4,
    Peripheral::Spi5,
];

#[test]
fn enable_spi2_sets_then_pulses_reset() {
    let mut ops = Vec::new();
    Peripheral::Spi2.enable(&mut ops);
    assert_eq!(
        ops,
        vec![
            op(Register::Apb1Enr, 14, BitAction::SetBit),
            op(Register::Apb1Rstr, 14, BitAction::SetBit),
            op(Register::Apb1Rstr, 14, BitAction::ClearBit),
        ]
    );
}

#[test]
fn enable_bits_of_every_instance() {
    let expected = [
        (Peripheral::Spi1, Register::Apb2Enr, Register::Apb2Rstr, 12),
        (Peripheral::Spi2, Register::Apb1Enr, Register::Apb1Rstr, 14),
        (Peripheral::Spi3, Register::Apb1Enr, Register::Apb1Rstr, 15),
        (Peripheral::Spi4, Register::Apb2Enr, Register::Apb2Rstr, 13),
        (Peripheral::Spi5, Register::Apb2Enr, Register::Apb2Rstr, 20),
    ];
    for (p, en, rst, bit) in expected {
        let mut ops = Vec::new();
        p.enable(&mut ops);
        assert_eq!(
            ops,
            vec![
                op(en, bit, BitAction::SetBit),
                op(rst, bit, BitAction::SetBit),
                op(rst, bit, BitAction::ClearBit),
            ]
        );
        assert_eq!(p.enable_register(), en);
        assert_eq!(p.reset_register(), rst);
        assert_eq!(p.enable_bit(), bit);
        assert_eq!(p.reset_bit(), bit);
    }
}

#[test]
fn enable_twice_gives_two_identical_groups() {
    let mut ops = vec![op(Register::Apb2Enr, 0, BitAction::SetBit)];
    Peripheral::Spi5.enable(&mut ops);
    Peripheral::Spi5.enable(&mut ops);
    assert_eq!(ops.len(), 7);
    assert_eq!(ops[0], op(Register::Apb2Enr, 0, BitAction::SetBit));
    assert_eq!(ops[1..4], ops[4..7]);
    assert_eq!(ops[1], op(Register::Apb2Enr, 20, BitAction::SetBit));
    assert_eq!(ops[3], op(Register::Apb2Rstr, 20, BitAction::ClearBit));
}

#[test]
fn enable_leaves_other_instances_bits_alone() {
    let start = ClockControl {
        apb1enr: 0xA5A5_5A5A,
        apb2enr: 0x0F0F_F0F0,
        apb1rstr: 0xFFFF_FFFF,
        apb2rstr: 0x1234_5678,
    };
    for p in ALL_PERIPHERALS {
        let mut regs = start;
        let mut ops = Vec::new();
        p.enable(&mut ops);
        for o in &ops {
            regs.apply(*o);
        }
        assert!(regs.is_set(p.enable_register(), p.enable_bit()));
        assert!(!regs.is_set(p.reset_register(), p.reset_bit()));
        for q in ALL_PERIPHERALS {
            if q != p {
                assert_eq!(
                    regs.is_set(q.enable_register(), q.enable_bit()),
                    start.is_set(q.enable_register(), q.enable_bit())
                );
                assert_eq!(
                    regs.is_set(q.reset_register(), q.reset_bit()),
                    start.is_set(q.reset_register(), q.reset_bit())
                );
            }
        }
    }
}

#[test]
fn enable_spi2_changes_only_its_two_words_in_one_bit() {
    let start = ClockControl { apb1enr: 0, apb2enr: 0, apb1rstr: 0, apb2rstr: 0 };
    let mut regs = start;
    let mut ops = Vec::new();
    Peripheral::Spi2.enable(&mut ops);
    for o in &ops {
        regs.apply(*o);
    }
    assert_eq!(
        regs,
        ClockControl { apb1enr: 1 << 14, apb2enr: 0, apb1rstr: 0, apb2rstr: 0 }
    );
}

#[test]
fn apply_sets_and_clears_single_bits() {
    let mut regs = ClockControl { apb1enr: 0, apb2enr: 0xFF, apb1rstr: 0, apb2rstr: 0 };
    regs.apply(op(Register::Apb1Rstr, 31, BitAction::SetBit));
    assert_eq!(regs.apb1rstr, 0x8000_0000);
    regs.apply(op(Register::Apb2Enr, 3, BitAction::ClearBit));
    assert_eq!(regs.apb2enr, 0xF7);
    regs.apply(op(Register::Apb2Enr, 3, BitAction::ClearBit));
    assert_eq!(regs.apb2enr, 0xF7);
    assert!(regs.is_set(Register::Apb1Rstr, 31));
    assert!(!regs.is_set(Register::Apb2Enr, 3));
}
