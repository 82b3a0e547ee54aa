use stm32f30x_hal::gpio::{
    Bank, Floating, GpioExt, Input, Output, PXx, Parts, Pin, PushPull, GPIOA, GPIOB, GPIOC, GPIOD,
    GPIOE, GPIOF,
};
use stm32f30x_hal::rcc::{GateRegister, GateWrite, RccExt, AHB, RCC};

fn ahb() -> AHB {
    RCC { ahbenr: 0x14, ahbrstr: 0, apb1enr: 0, apb1rstr: 0, apb2enr: 0, apb2rstr: 0 }
        .constraint()
        .AHB
}

fn present<B>(parts: &Parts<B>) -> u16 {
    let flags = [
        parts.p0.is_some(),
        parts.p1.is_some(),
        parts.p2.is_some(),
        parts.p3.is_some(),
        parts.p4.is_some(),
        parts.p5.is_some(),
        parts.p6.is_some(),
        parts.p7.is_some(),
        parts.p8.is_some(),
        parts.p9.is_some(),
        parts.p10.is_some(),
        parts.p11.is_some(),
        parts.p12.is_some(),
        parts.p13.is_some(),
        parts.p14.is_some(),
        parts.p15.is_some(),
    ];
    let mut mask = 0;
    for (i, flag) in flags.iter().enumerate() {
        if *flag {
            mask |= 1 << i;
        }
    }
    mask
}

#[test]
fn split_gates_and_resets_the_bank() {
    let mut ahb = ahb();
    let _parts = GPIOA.split(&mut ahb);
    assert_eq!(ahb.gate.enr(), 0x0002_0014);
    assert_eq!(ahb.gate.rstr(), 0);
    assert_eq!(
        ahb.gate.take_writes(),
        vec![
            GateWrite { register: GateRegister::Enable, bits: 0x0002_0014 },
            GateWrite { register: GateRegister::Reset, bits: 0x0002_0000 },
            GateWrite { register: GateRegister::Reset, bits: 0x0000_0000 },
        ]
    );
}

#[test]
fn each_bank_has_its_own_line() {
    let mut ahb = ahb();
    let _ = GPIOB.split(&mut ahb);
    assert_eq!(ahb.gate.enr(), 0x0004_0014);
    let _ = GPIOC.split(&mut ahb);
    assert_eq!(ahb.gate.enr(), 0x000c_0014);
    let _ = GPIOD.split(&mut ahb);
    assert_eq!(ahb.gate.enr(), 0x001c_0014);
    let _ = GPIOE.split(&mut ahb);
    assert_eq!(ahb.gate.enr(), 0x003c_0014);
    let _ = GPIOF.split(&mut ahb);
    assert_eq!(ahb.gate.enr(), 0x007c_0014);
    let _ = GPIOA.split(&mut ahb);
    assert_eq!(ahb.gate.enr(), 0x007e_0014);
    assert_eq!(ahb.gate.rstr(), 0);
    assert_eq!(ahb.gate.take_writes().len(), 18);
}

#[test]
fn split_twice_gates_and_resets_again() {
    let mut ahb = ahb();
    let _ = GPIOC.split(&mut ahb);
    let first = ahb.gate.take_writes();
    let _ = GPIOC.split(&mut ahb);
    assert_eq!(ahb.gate.take_writes(), first);
    assert_eq!(ahb.gate.enr(), 0x0008_0014);
}

#[test]
fn banks_offer_their_pins() {
    assert_eq!(present(&GPIOA.split(&mut ahb())), 0b0001_1111_1111_1111);
    assert_eq!(present(&GPIOB.split(&mut ahb())), 0b1111_1111_1110_0111);
    assert_eq!(present(&GPIOC.split(&mut ahb())), 0xffff);
    assert_eq!(present(&GPIOD.split(&mut ahb())), 0xffff);
    assert_eq!(present(&GPIOE.split(&mut ahb())), 0xffff);
    assert_eq!(present(&GPIOF.split(&mut ahb())), 0b0000_0110_0101_0111);
    assert_eq!(GPIOA::describe().pins, 0x1fff);
    assert_eq!(GPIOA::describe().line, 17);
    assert_eq!(GPIOF::describe().pins, 0x0657);
    assert_eq!(GPIOF::describe().line, 22);
}

#[test]
fn proxies_hold_what_a_reset_leaves() {
    let a = GPIOA.split(&mut ahb());
    assert_eq!(a.MODER.bits(), 0xa800_0000);
    assert_eq!(a.PUPDR.bits(), 0x6400_0000);
    assert_eq!(a.OTYPER.bits(), 0);
    assert_eq!(a.AFRL.bits(), 0);
    assert_eq!(a.AFRH.bits(), 0);
    let b = GPIOB.split(&mut ahb());
    assert_eq!(b.MODER.bits(), 0x0000_0280);
    assert_eq!(b.PUPDR.bits(), 0x0000_0100);
    let c = GPIOC.split(&mut ahb());
    assert_eq!(c.MODER.bits(), 0);
    assert_eq!(c.PUPDR.bits(), 0);
}

#[test]
fn offered_pins_are_floating_inputs_after_split() {
    fn check<B: Bank>(bank: B) {
        let parts = bank.split(&mut ahb());
        let pins = present(&parts);
        for i in 0..16 {
            if pins & (1 << i) != 0 {
                assert_eq!((parts.MODER.bits() >> (2 * i)) & 0b11, 0b00);
                assert_eq!((parts.PUPDR.bits() >> (2 * i)) & 0b11, 0b00);
            }
        }
    }
    check(GPIOA);
    check(GPIOB);
    check(GPIOC);
    check(GPIOD);
    check(GPIOE);
    check(GPIOF);
}

#[test]
fn input_output_input_leaves_the_mode_register_as_it_was() {
    let mut parts = GPIOC.split(&mut ahb());
    parts.MODER.load(0xdead_b0ef);
    let pin: Pin<GPIOC, 5, Input<Floating>> = parts.p5.unwrap();
    let pin: Pin<GPIOC, 5, Output<PushPull>> =
        pin.as_push_pull_output(&mut parts.MODER, &mut parts.OTYPER);
    assert_eq!(parts.MODER.bits(), 0xdead_b4ef);
    let _pin: Pin<GPIOC, 5, Input<Floating>> =
        pin.as_floating_input(&mut parts.MODER, &mut parts.PUPDR);
    assert_eq!(parts.MODER.bits(), 0xdead_b0ef);
    assert_eq!((parts.MODER.bits() >> 10) & 0b11, 0b00);
}

#[test]
fn input_output_input_on_every_pin_of_a_fresh_bank() {
    let mut parts = GPIOA.split(&mut ahb());
    let pin = parts.p0.unwrap().as_push_pull_output(&mut parts.MODER, &mut parts.OTYPER);
    assert_eq!(parts.MODER.bits(), 0xa800_0001);
    pin.as_floating_input(&mut parts.MODER, &mut parts.PUPDR);
    assert_eq!(parts.MODER.bits(), 0xa800_0000);
    let pin = parts.p12.unwrap().as_push_pull_output(&mut parts.MODER, &mut parts.OTYPER);
    assert_eq!(parts.MODER.bits(), 0xa900_0000);
    pin.as_floating_input(&mut parts.MODER, &mut parts.PUPDR);
    assert_eq!(parts.MODER.bits(), 0xa800_0000);
    assert_eq!(parts.PUPDR.bits(), 0x6400_0000);
    assert_eq!(parts.OTYPER.bits(), 0);
}

#[test]
fn af7_on_pin_10() {
    let mut parts = GPIOB.split(&mut ahb());
    parts.MODER.load(0xffff_ffff);
    parts.AFRH.load(0xffff_ffff);
    parts.AFRL.load(0x1234_5678);
    let _pin = parts.p10.unwrap().as_af7(&mut parts.MODER, &mut parts.AFRH);
    assert_eq!(parts.MODER.bits(), 0xffef_ffff);
    assert_eq!(parts.AFRH.bits(), 0xffff_f7ff);
    assert_eq!(parts.AFRL.bits(), 0x1234_5678);

    let mut parts = GPIOA.split(&mut ahb());
    let _pin = parts.p10.unwrap().as_af7(&mut parts.MODER, &mut parts.AFRH);
    assert_eq!((parts.MODER.bits() >> 20) & 0b11, 0b10);
    assert_eq!(parts.MODER.bits(), 0xa820_0000);
    assert_eq!((parts.AFRH.bits() >> 8) & 0b1111, 0b0111);
    assert_eq!(parts.AFRH.bits(), 0x0000_0700);
    assert_eq!(parts.AFRL.bits(), 0);
}

#[test]
fn alternate_functions_4_to_7() {
    let mut parts = GPIOC.split(&mut ahb());
    parts.p0.unwrap().as_af4(&mut parts.MODER, &mut parts.AFRL);
    parts.p7.unwrap().as_af5(&mut parts.MODER, &mut parts.AFRL);
    parts.p8.unwrap().as_af6(&mut parts.MODER, &mut parts.AFRH);
    parts.p15.unwrap().as_af7(&mut parts.MODER, &mut parts.AFRH);
    assert_eq!(parts.MODER.bits(), 0x8002_8002);
    assert_eq!(parts.AFRL.bits(), 0x5000_0004);
    assert_eq!(parts.AFRH.bits(), 0x7000_0006);
    parts.AFRL.load(0xffff_ffff);
    parts.p3.unwrap().as_af4(&mut parts.MODER, &mut parts.AFRL);
    assert_eq!(parts.AFRL.bits(), 0xffff_4fff);
    assert_eq!(parts.MODER.bits(), 0x8002_8082);
}

#[test]
fn input_modes() {
    let mut parts = GPIOD.split(&mut ahb());
    parts.MODER.load(0xffff_ffff);
    parts.PUPDR.load(0xffff_ffff);
    let pin = parts.p3.unwrap().as_pull_down_input(&mut parts.MODER, &mut parts.PUPDR);
    assert_eq!(parts.MODER.bits(), 0xffff_ff3f);
    assert_eq!(parts.PUPDR.bits(), 0xffff_ffbf);
    let pin = pin.as_pull_up_input(&mut parts.MODER, &mut parts.PUPDR);
    assert_eq!(parts.MODER.bits(), 0xffff_ff3f);
    assert_eq!(parts.PUPDR.bits(), 0xffff_ff7f);
    let _pin = pin.as_floating_input(&mut parts.MODER, &mut parts.PUPDR);
    assert_eq!(parts.MODER.bits(), 0xffff_ff3f);
    assert_eq!(parts.PUPDR.bits(), 0xffff_ff3f);

    let mut parts = GPIOD.split(&mut ahb());
    parts.p15.unwrap().as_pull_up_input(&mut parts.MODER, &mut parts.PUPDR);
    parts.p0.unwrap().as_pull_down_input(&mut parts.MODER, &mut parts.PUPDR);
    assert_eq!(parts.MODER.bits(), 0);
    assert_eq!(parts.PUPDR.bits(), 0x4000_0002);
}

#[test]
fn output_modes() {
    let mut parts = GPIOE.split(&mut ahb());
    let pin = parts.p9.unwrap().as_open_drain_output(&mut parts.MODER, &mut parts.OTYPER);
    assert_eq!(parts.MODER.bits(), 0x0004_0000);
    assert_eq!(parts.OTYPER.bits(), 0x0000_0200);
    let _pin = pin.as_push_pull_output(&mut parts.MODER, &mut parts.OTYPER);
    assert_eq!(parts.MODER.bits(), 0x0004_0000);
    assert_eq!(parts.OTYPER.bits(), 0);

    parts.MODER.load(0xffff_ffff);
    parts.OTYPER.load(0xffff_ffff);
    parts.p15.unwrap().as_push_pull_output(&mut parts.MODER, &mut parts.OTYPER);
    assert_eq!(parts.MODER.bits(), 0x7fff_ffff);
    assert_eq!(parts.OTYPER.bits(), 0xffff_7fff);
    parts.p0.unwrap().as_open_drain_output(&mut parts.MODER, &mut parts.OTYPER);
    assert_eq!(parts.MODER.bits(), 0x7fff_fffd);
    assert_eq!(parts.OTYPER.bits(), 0xffff_7fff);
}

#[test]
fn internal_pull_up_of_an_open_drain_output() {
    let mut parts = GPIOF.split(&mut ahb());
    parts.PUPDR.load(0xffff_ffff);
    let mut pin = parts.p6.unwrap().as_open_drain_output(&mut parts.MODER, &mut parts.OTYPER);
    pin.internal_pull_up(&mut parts.PUPDR, true);
    assert_eq!(parts.PUPDR.bits(), 0xffff_dfff);
    pin.internal_pull_up(&mut parts.PUPDR, false);
    assert_eq!(parts.PUPDR.bits(), 0xffff_cfff);
    pin.internal_pull_up(&mut parts.PUPDR, true);
    assert_eq!(parts.PUPDR.bits(), 0xffff_dfff);
}

#[test]
fn output_level() {
    let mut parts = GPIOE.split(&mut ahb());
    let mut pin = parts.p9.unwrap().as_push_pull_output(&mut parts.MODER, &mut parts.OTYPER);
    assert_eq!(pin.set_high(), 0x0000_0200);
    assert_eq!(pin.set_low(), 0x0200_0000);
    assert!(pin.is_high(0x0000_0200));
    assert!(!pin.is_low(0x0000_0200));
    assert!(pin.is_low(0xffff_fdff));
    assert!(!pin.is_high(0xffff_fdff));
    let mut pin = parts.p0.unwrap().as_open_drain_output(&mut parts.MODER, &mut parts.OTYPER);
    assert_eq!(pin.set_high(), 0x0000_0001);
    assert_eq!(pin.set_low(), 0x0001_0000);
    let mut pin = parts.p15.unwrap().as_push_pull_output(&mut parts.MODER, &mut parts.OTYPER);
    assert_eq!(pin.set_high(), 0x0000_8000);
    assert_eq!(pin.set_low(), 0x8000_0000);
    assert!(pin.is_high(0x8000));
    assert!(pin.is_low(0x7fff));
}

#[test]
fn erased_pins_share_a_type() {
    let mut parts = GPIOE.split(&mut ahb());
    let a = parts.p8.unwrap().as_push_pull_output(&mut parts.MODER, &mut parts.OTYPER);
    let b = parts.p13.unwrap().as_push_pull_output(&mut parts.MODER, &mut parts.OTYPER);
    let mut leds: [PXx<GPIOE, Output<PushPull>>; 2] = [a.downgrade(), b.downgrade()];
    assert_eq!(leds[0].set_high(), 0x0000_0100);
    assert_eq!(leds[0].set_low(), 0x0100_0000);
    assert_eq!(leds[1].set_high(), 0x0000_2000);
    assert_eq!(leds[1].set_low(), 0x2000_0000);
    assert!(leds[0].is_high(0x0100));
    assert!(leds[0].is_low(0x2000));
    assert!(leds[1].is_high(0x2000));
    assert!(!leds[1].is_low(0x2000));
    assert!(leds[1].is_low(0x0100));
}
