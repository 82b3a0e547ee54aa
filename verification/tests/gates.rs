use stm32f30x_hal::rcc::{GateRegister, GateWrite, RccExt, RCC};

fn rcc() -> RCC {
    RCC {
        ahbenr: 0x0000_0014,
        ahbrstr: 0x0000_0000,
        apb1enr: 0x1000_0000,
        apb1rstr: 0x0000_0001,
        apb2enr: 0x0000_4001,
        apb2rstr: 0x8000_0000,
    }
}

#[test]
fn constraint_hands_out_the_register_images() {
    let rcc = rcc().constraint();
    assert_eq!(rcc.AHB.gate.enr(), 0x0000_0014);
    assert_eq!(rcc.AHB.gate.rstr(), 0x0000_0000);
    assert_eq!(rcc.APB1.gate.enr(), 0x1000_0000);
    assert_eq!(rcc.APB1.gate.rstr(), 0x0000_0001);
    assert_eq!(rcc.APB2.gate.enr(), 0x0000_4001);
    assert_eq!(rcc.APB2.gate.rstr(), 0x8000_0000);
    let mut rcc = rcc;
    assert!(rcc.AHB.gate.take_writes().is_empty());
    assert!(rcc.APB1.gate.take_writes().is_empty());
    assert!(rcc.APB2.gate.take_writes().is_empty());
    assert_eq!(rcc.CFGR.solve().unwrap().pllmul, 2);
}

#[test]
fn enable_sets_the_line_and_keeps_the_others() {
    let mut ahb = rcc().constraint().AHB;
    ahb.gate.enable(17);
    assert_eq!(ahb.gate.enr(), 0x0002_0014);
    assert_eq!(ahb.gate.rstr(), 0);
    assert_eq!(
        ahb.gate.take_writes(),
        vec![GateWrite { register: GateRegister::Enable, bits: 0x0002_0014 }]
    );
}

#[test]
fn enable_twice_is_enable_once() {
    let mut apb2 = rcc().constraint().APB2;
    apb2.gate.enable(14);
    assert_eq!(apb2.gate.enr(), 0x0000_4001);
    apb2.gate.enable(14);
    assert_eq!(apb2.gate.enr(), 0x0000_4001);
    apb2.gate.enable(31);
    apb2.gate.enable(31);
    assert_eq!(apb2.gate.enr(), 0x8000_4001);
}

#[test]
fn reset_asserts_then_releases() {
    let mut apb1 = rcc().constraint().APB1;
    apb1.gate.reset(4);
    assert_eq!(apb1.gate.rstr(), 0x0000_0001);
    assert_eq!(apb1.gate.enr(), 0x1000_0000);
    assert_eq!(
        apb1.gate.take_writes(),
        vec![
            GateWrite { register: GateRegister::Reset, bits: 0x0000_0011 },
            GateWrite { register: GateRegister::Reset, bits: 0x0000_0001 },
        ]
    );
}

#[test]
fn reset_releases_a_line_that_was_held() {
    let mut apb2 = rcc().constraint().APB2;
    apb2.gate.reset(31);
    assert_eq!(apb2.gate.rstr(), 0);
    assert_eq!(
        apb2.gate.take_writes(),
        vec![
            GateWrite { register: GateRegister::Reset, bits: 0x8000_0000 },
            GateWrite { register: GateRegister::Reset, bits: 0x0000_0000 },
        ]
    );
}

#[test]
fn writes_are_taken_oldest_first_and_once() {
    let mut ahb = rcc().constraint().AHB;
    ahb.gate.enable(18);
    ahb.gate.reset(18);
    ahb.gate.enable(0);
    assert_eq!(
        ahb.gate.take_writes(),
        vec![
            GateWrite { register: GateRegister::Enable, bits: 0x0004_0014 },
            GateWrite { register: GateRegister::Reset, bits: 0x0004_0000 },
            GateWrite { register: GateRegister::Reset, bits: 0x0000_0000 },
            GateWrite { register: GateRegister::Enable, bits: 0x0004_0015 },
        ]
    );
    assert!(ahb.gate.take_writes().is_empty());
    assert_eq!(ahb.gate.enr(), 0x0004_0015);
    ahb.gate.enable(1);
    assert_eq!(
        ahb.gate.take_writes(),
        vec![GateWrite { register: GateRegister::Enable, bits: 0x0004_0017 }]
    );
}

#[test]
fn load_replaces_the_images_and_keeps_the_pending_writes() {
    let mut ahb = rcc().constraint().AHB;
    ahb.gate.enable(17);
    ahb.gate.load(0x0000_0001, 0x0000_0002);
    assert_eq!(ahb.gate.enr(), 0x0000_0001);
    assert_eq!(ahb.gate.rstr(), 0x0000_0002);
    ahb.gate.reset(1);
    assert_eq!(ahb.gate.rstr(), 0);
    assert_eq!(
        ahb.gate.take_writes(),
        vec![
            GateWrite { register: GateRegister::Enable, bits: 0x0002_0014 },
            GateWrite { register: GateRegister::Reset, bits: 0x0000_0002 },
            GateWrite { register: GateRegister::Reset, bits: 0x0000_0000 },
        ]
    );
}
