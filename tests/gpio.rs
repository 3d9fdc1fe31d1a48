use kernel_periph::bus::BusOp;
use kernel_periph::gpio::{GpioError, PinMode, SocVariant, GPIOInner, GPIO};

fn fsels(g: &GPIO) -> [u32; 3] {
    [g.fsel(0), g.fsel(1), g.fsel(2)]
}

#[test]
fn configure_rejects_pins_from_30() {
    let mut g = GPIO::new(SocVariant::Bcm2837);
    for pin in [30u8, 31, 53, 255] {
        assert_eq!(g.set_pin_as_output(pin), Err(GpioError::UnsupportedPin { pin }));
        assert_eq!(g.set_pin_mode(pin, PinMode::Alt0), Err(GpioError::UnsupportedPin { pin }));
    }
    assert_eq!(fsels(&g), [0, 0, 0]);
    assert!(g.take_ops().is_empty());
}

#[test]
fn configure_accepts_every_pin_below_30_and_is_idempotent() {
    for pin in 0u8..30 {
        let mut g = GPIO::new(SocVariant::Bcm2711);
        assert_eq!(g.set_pin_as_output(pin), Ok(()));
        let once = fsels(&g);
        assert_eq!(g.set_pin_as_output(pin), Ok(()));
        assert_eq!(fsels(&g), once);
        assert_eq!(g.level(), 0);
    }
}

#[test]
fn pin_to_register_mapping() {
    let cases: [(u8, usize, u32); 6] = [(0, 0, 0), (9, 0, 27), (10, 1, 0), (17, 1, 21), (19, 1, 27), (29, 2, 27)];
    for (pin, reg, shift) in cases {
        let mut g = GPIO::new(SocVariant::Bcm2837);
        g.set_pin_as_output(pin).unwrap();
        let mut expected = [0u32; 3];
        expected[reg] = 1 << shift;
        assert_eq!(fsels(&g), expected, "pin {pin}");
        assert_eq!(g.take_ops(), vec![BusOp::Write { offset: 4 * reg as u32, value: 1 << shift }]);
    }
}

#[test]
fn configure_keeps_neighbouring_fields() {
    let mut g = GPIO::new(SocVariant::Bcm2837);
    g.set_pin_mode(11, PinMode::Alt5).unwrap();
    g.set_pin_mode(12, PinMode::Output).unwrap();
    g.set_pin_mode(13, PinMode::Alt3).unwrap();
    assert_eq!(g.fsel(1), (0b010 << 3) | (0b001 << 6) | (0b111 << 9));
    g.set_pin_mode(12, PinMode::Input).unwrap();
    assert_eq!(g.fsel(1), (0b010 << 3) | (0b111 << 9));
}

#[test]
fn set_high_writes_one_bit_to_the_set_register() {
    let mut g = GPIO::new(SocVariant::Bcm2837);
    g.set_gpio_high(3).unwrap();
    g.set_gpio_high(21).unwrap();
    assert_eq!(
        g.take_ops(),
        vec![BusOp::Write { offset: 0x1C, value: 1 << 3 }, BusOp::Write { offset: 0x1C, value: 1 << 21 }]
    );
    assert_eq!(g.level(), (1 << 3) | (1 << 21));
    assert!(g.is_high(3) && g.is_high(21) && !g.is_high(4));
}

#[test]
fn set_low_writes_one_bit_to_the_clear_register() {
    let mut g = GPIO::new(SocVariant::Bcm2837);
    g.set_gpio_high(5).unwrap();
    g.set_gpio_high(6).unwrap();
    g.take_ops();
    g.set_gpio_low(5).unwrap();
    assert_eq!(g.take_ops(), vec![BusOp::Write { offset: 0x28, value: 1 << 5 }]);
    assert_eq!(g.level(), 1 << 6);
}

#[test]
fn set_high_twice_is_set_high_once() {
    let mut once = GPIO::new(SocVariant::Bcm2837);
    once.set_gpio_high(8).unwrap();
    let mut twice = GPIO::new(SocVariant::Bcm2837);
    twice.set_gpio_high(8).unwrap();
    twice.set_gpio_high(8).unwrap();
    assert_eq!(once.level(), twice.level());
    assert_eq!(fsels(&once), fsels(&twice));
}

#[test]
fn level_changes_reject_unsupported_pins() {
    let mut g = GPIO::new(SocVariant::Bcm2837);
    assert_eq!(g.set_gpio_high(30), Err(GpioError::UnsupportedPin { pin: 30 }));
    assert_eq!(g.set_gpio_low(31), Err(GpioError::UnsupportedPin { pin: 31 }));
    assert_eq!(g.level(), 0);
    assert!(g.take_ops().is_empty());
}

#[test]
fn uart_pins_with_clocked_pull_disable() {
    let mut g = GPIO::new(SocVariant::Bcm2837);
    g.map_pl011_uart();
    let fsel1 = (0b100 << 12) | (0b100 << 15);
    assert_eq!(g.fsel(1), fsel1);
    assert_eq!(
        g.take_ops(),
        vec![
            BusOp::Write { offset: 0x04, value: fsel1 },
            BusOp::Write { offset: 0x94, value: 0 },
            BusOp::DelayMicros { micros: 1 },
            BusOp::Write { offset: 0x98, value: (1 << 15) | (1 << 14) },
            BusOp::DelayMicros { micros: 1 },
            BusOp::Write { offset: 0x94, value: 0 },
            BusOp::Write { offset: 0x98, value: 0 },
        ]
    );
}

#[test]
fn uart_pins_with_direct_pull_disable() {
    let mut g = GPIO::new(SocVariant::Bcm2711);
    g.set_pin_as_output(17).unwrap();
    g.take_ops();
    g.map_pl011_uart();
    let fsel1 = (0b100 << 12) | (0b100 << 15) | (0b001 << 21);
    assert_eq!(g.fsel(1), fsel1);
    assert_eq!(
        g.take_ops(),
        vec![BusOp::Write { offset: 0x04, value: fsel1 }, BusOp::Write { offset: 0xE4, value: 0 }]
    );
}

#[test]
fn inner_driver_makes_pin_17_an_output() {
    let mut g = GPIOInner::new(SocVariant::Bcm2837);
    g.set_gpio17_as_output();
    assert_eq!(g.fsel(1), 1 << 21);
    assert_eq!(g.take_ops(), vec![BusOp::Write { offset: 0x04, value: 1 << 21 }]);
}

#[test]
fn compatible_name() {
    let g = GPIO::new(SocVariant::Bcm2837);
    assert_eq!(g.compatible(), "BCM GPIO");
}
