use i2s_pins::bundle::BundleView;
use i2s_pins::{
    bind, AltPin, BindError, CapabilityFact, ChipVariant, NoMasterClock, Peripheral, Pin, Pins,
    Port, Registry, Role,
};

const ALL_VARIANTS: [ChipVariant; 17] = [
    ChipVariant::F401,
    ChipVariant::F405,
    ChipVariant::F407,
    ChipVariant::F410,
    ChipVariant::F411,
    ChipVariant::F412,
    ChipVariant::F413,
    ChipVariant::F415,
    ChipVariant::F417,
    ChipVariant::F423,
    ChipVariant::F427,
    ChipVariant::F429,
    ChipVariant::F437,
    ChipVariant::F439,
    ChipVariant::F446,
    ChipVariant::F469,
    ChipVariant::F479,
];

const ALL_PERIPHERALS: [Peripheral; 5] = [
    Peripheral::Spi1,
    Peripheral::Spi2,
    Peripheral::Spi3,
    Peripheral::Spi4,
    Peripheral::Spi5,
];

const ROLES: [Role; 5] = [
    Role::DataLine,
    Role::WordSelect,
    Role::BitClock,
    Role::MasterClock,
    Role::NoMasterClock,
];

fn pin(port: Port, number: u8, af: u8) -> AltPin {
    AltPin::new(port, number, af)
}

#[test]
fn registry_has_no_contradicting_facts_on_any_variant() {
    for v in ALL_VARIANTS {
        let reg = Registry::new(v);
        for per in ALL_PERIPHERALS {
            for role in ROLES {
                let pins = reg.pins_for(per, role);
                for (i, a) in pins.iter().enumerate() {
                    for b in pins.iter().skip(i + 1) {
                        assert_ne!(a.pin, b.pin, "{:?} {:?} {:?}", v, per, role);
                    }
                    assert!(reg.declares(per));
                    assert!(a.pin.number < 16);
                    assert_eq!(reg.alternate_function(per, role, a.pin), Some(a.af));
                }
            }
        }
    }
}

#[test]
fn pins_for_lists_word_select_pins_of_spi2() {
    let reg = Registry::new(ChipVariant::F411);
    let pins = reg.pins_for(Peripheral::Spi2, Role::WordSelect);
    assert_eq!(pins, vec![pin(Port::B, 9, 5), pin(Port::B, 12, 5)]);
    let reg = Registry::new(ChipVariant::F413);
    let pins = reg.pins_for(Peripheral::Spi2, Role::WordSelect);
    assert_eq!(pins, vec![pin(Port::A, 11, 5), pin(Port::B, 9, 5), pin(Port::B, 12, 5)]);
}

#[test]
fn missing_peripheral_has_no_pins() {
    let reg = Registry::new(ChipVariant::F410);
    assert!(!reg.declares(Peripheral::Spi3));
    for role in ROLES {
        assert!(reg.pins_for(Peripheral::Spi3, role).is_empty());
    }
    let reg = Registry::new(ChipVariant::F407);
    assert!(!reg.declares(Peripheral::Spi4));
    assert!(reg.pins_for(Peripheral::Spi4, Role::DataLine).is_empty());
    assert!(reg.pins_for(Peripheral::Spi2, Role::NoMasterClock).is_empty());
}

#[test]
fn master_clock_pins_move_between_instances_on_f410() {
    let f410 = Registry::new(ChipVariant::F410);
    let f411 = Registry::new(ChipVariant::F411);
    let pc7 = Pin { port: Port::C, number: 7 };
    let pb10 = Pin { port: Port::B, number: 10 };
    assert_eq!(f410.alternate_function(Peripheral::Spi1, Role::MasterClock, pc7), Some(6));
    assert_eq!(f410.alternate_function(Peripheral::Spi3, Role::MasterClock, pc7), None);
    assert_eq!(f411.alternate_function(Peripheral::Spi3, Role::MasterClock, pc7), Some(6));
    assert_eq!(f411.alternate_function(Peripheral::Spi1, Role::MasterClock, pc7), None);
    assert_eq!(f410.alternate_function(Peripheral::Spi1, Role::MasterClock, pb10), Some(6));
    assert_eq!(f411.alternate_function(Peripheral::Spi3, Role::MasterClock, pb10), Some(6));
}

#[test]
fn has_fact_checks_the_alternate_function() {
    let reg = Registry::new(ChipVariant::F446);
    let fact = CapabilityFact {
        pin: pin(Port::B, 4, 7),
        peripheral: Peripheral::Spi2,
        role: Role::WordSelect,
    };
    assert!(reg.has_fact(fact));
    assert!(!reg.has_fact(CapabilityFact { pin: pin(Port::B, 4, 5), ..fact }));
    assert!(!Registry::new(ChipVariant::F411).has_fact(fact));
    assert_eq!(reg.variant(), ChipVariant::F446);
}

#[test]
fn bind_rejects_data_pin_as_word_select() {
    let reg = Registry::new(ChipVariant::F411);
    let sd_only = pin(Port::A, 7, 5);
    let r = bind(
        &reg,
        Peripheral::Spi1,
        sd_only,
        pin(Port::A, 5, 5),
        NoMasterClock,
        sd_only,
    );
    assert!(matches!(r, Err(BindError::CapabilityMismatch(Role::WordSelect))));
    // the same pin is fine in its own role
    let r = bind(
        &reg,
        Peripheral::Spi1,
        pin(Port::A, 4, 5),
        pin(Port::A, 5, 5),
        NoMasterClock,
        sd_only,
    );
    assert!(r.is_ok());
}

#[test]
fn bind_without_master_clock_succeeds() {
    let reg = Registry::new(ChipVariant::F407);
    let ws = pin(Port::B, 12, 5);
    let ck = pin(Port::B, 13, 5);
    let sd = pin(Port::B, 15, 5);
    let b = bind(&reg, Peripheral::Spi2, ws, ck, NoMasterClock, sd).unwrap();
    assert_eq!(b.peripheral(), Peripheral::Spi2);
    assert_eq!(b.word_select(), ws);
    assert_eq!(b.bit_clock(), ck);
    assert_eq!(b.master_clock(), None);
    assert_eq!(b.data_line(), sd);
}

#[test]
fn bind_with_master_clock_pin() {
    let reg = Registry::new(ChipVariant::F407);
    let ws = pin(Port::B, 12, 5);
    let ck = pin(Port::B, 13, 5);
    let sd = pin(Port::B, 15, 5);
    let mck = pin(Port::C, 6, 5);
    let b = bind(&reg, Peripheral::Spi2, ws, ck, mck, sd).unwrap();
    assert_eq!(b.master_clock(), Some(mck));
    let wrong = pin(Port::C, 7, 6);
    let r = bind(&reg, Peripheral::Spi2, ws, ck, wrong, sd);
    assert!(matches!(r, Err(BindError::CapabilityMismatch(Role::MasterClock))));
}

#[test]
fn bind_reports_the_first_failing_role() {
    let reg = Registry::new(ChipVariant::F411);
    let ws = pin(Port::B, 12, 5);
    let ck = pin(Port::B, 13, 5);
    let sd = pin(Port::B, 15, 5);
    let bad = pin(Port::D, 9, 1);
    let r = bind(&reg, Peripheral::Spi2, ws, bad, bad, bad);
    assert!(matches!(r, Err(BindError::CapabilityMismatch(Role::BitClock))));
    let r = bind(&reg, Peripheral::Spi2, ws, ck, NoMasterClock, bad);
    assert!(matches!(r, Err(BindError::CapabilityMismatch(Role::DataLine))));
    // a peripheral the variant lacks fails at the first pin
    let reg = Registry::new(ChipVariant::F410);
    let r = bind(
        &reg,
        Peripheral::Spi3,
        pin(Port::A, 4, 6),
        pin(Port::B, 3, 6),
        NoMasterClock,
        pin(Port::B, 5, 6),
    );
    assert!(matches!(r, Err(BindError::CapabilityMismatch(Role::WordSelect))));
}

fn view_of(r: &Result<i2s_pins::PinBundle, BindError>) -> Result<BundleView, BindError> {
    match r {
        Ok(b) => Ok(BundleView {
            peripheral: b.peripheral(),
            ws: b.word_select(),
            ck: b.bit_clock(),
            mck: b.master_clock(),
            sd: b.data_line(),
        }),
        Err(e) => Err(*e),
    }
}

#[test]
fn bind_is_deterministic() {
    let reg = Registry::new(ChipVariant::F412);
    let cases = [
        (pin(Port::E, 4, 5), pin(Port::E, 2, 5), pin(Port::E, 6, 5)),
        (pin(Port::E, 4, 6), pin(Port::E, 2, 5), pin(Port::E, 6, 5)),
    ];
    for (ws, ck, sd) in cases {
        let a = bind(&reg, Peripheral::Spi4, ws, ck, NoMasterClock, sd);
        let b = bind(&reg, Peripheral::Spi4, ws, ck, NoMasterClock, sd);
        assert_eq!(view_of(&a), view_of(&b));
    }
}
