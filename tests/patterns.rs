use kernel_periph::board::{Board, Reply};
use kernel_periph::dhrystone::{cycles_elapsed, run_dhrystone, ITERATIONS};
use kernel_periph::gpio::{GpioError, SocVariant, GPIO};
use kernel_periph::patterns::{
    gpio_off, gpio_off_after, gpio_on, gpio_on_after, reset_gpio, run_deferred, setup_output,
    DeferredPin, Pattern, PatternKind, PatternScheduler, PatternStep,
};

const RING: [u8; 5] = [1, 2, 3, 4, 5];

fn lit_ring(g: &GPIO) -> Vec<usize> {
    (0..5).filter(|&i| g.is_high(RING[i])).collect()
}

#[test]
fn hex_counter_shows_each_value_then_goes_dark() {
    let mut g = GPIO::new(SocVariant::Bcm2837);
    let mut s = PatternScheduler::new();
    let mut step = s.start_hex_counter();
    assert_eq!(step.pattern, Pattern::Hex { step: 0 });
    for value in 0u8..16 {
        let next = s.run_step(&mut g, step);
        if value < 15 {
            for i in 0..4 {
                assert_eq!(g.is_high(i + 1), (value >> i) & 1 == 1, "step {value} pin {}", i + 1);
            }
            step = next.unwrap();
            assert_eq!(step.pattern, Pattern::Hex { step: value + 1 });
        } else {
            assert_eq!(next, None);
        }
    }
    assert_eq!(s.current(), Pattern::Idle);
    assert!(lit_ring(&g).is_empty());
}

#[test]
fn hex_step_fifteen_lights_all_four_before_the_reset() {
    let mut g = GPIO::new(SocVariant::Bcm2837);
    let mut s = PatternScheduler::new();
    let mut step = s.start(PatternKind::Hex);
    for _ in 0..15 {
        step = s.run_step(&mut g, step).unwrap();
    }
    g.take_ops();
    assert_eq!(s.run_step(&mut g, step), None);
    let sets: Vec<u32> = g
        .take_ops()
        .iter()
        .filter_map(|op| match op {
            kernel_periph::bus::BusOp::Write { offset: 0x1C, value } => Some(*value),
            _ => None,
        })
        .collect();
    assert_eq!(sets, vec![1 << 1, 1 << 2, 1 << 3, 1 << 4]);
    assert_eq!(g.level(), 0);
}

#[test]
fn left_ring_visits_each_index_once() {
    let mut g = GPIO::new(SocVariant::Bcm2837);
    let mut s = PatternScheduler::new();
    let mut step = Some(s.start_left_ring_counter());
    let mut seen = Vec::new();
    while let Some(st) = step {
        if let Pattern::LeftRing { index } = st.pattern {
            seen.push(index);
        }
        step = s.run_step(&mut g, st);
        if step.is_some() {
            assert_eq!(lit_ring(&g).len(), 1);
            assert_eq!(lit_ring(&g), vec![*seen.last().unwrap() as usize]);
        }
    }
    assert_eq!(seen, vec![0, 1, 2, 3, 4]);
    assert!(lit_ring(&g).is_empty());
    assert_eq!(s.current(), Pattern::Idle);
}

#[test]
fn right_ring_visits_each_index_once() {
    let mut g = GPIO::new(SocVariant::Bcm2837);
    let mut s = PatternScheduler::new();
    let mut step = Some(s.start_right_ring_counter());
    let mut seen = Vec::new();
    while let Some(st) = step {
        if let Pattern::RightRing { index } = st.pattern {
            seen.push(index);
        }
        step = s.run_step(&mut g, st);
        if step.is_some() {
            assert_eq!(lit_ring(&g), vec![*seen.last().unwrap() as usize]);
        }
    }
    assert_eq!(seen, vec![4, 3, 2, 1, 0]);
    assert!(lit_ring(&g).is_empty());
}

#[test]
fn ring_turns_previous_pin_off_before_lighting_the_next() {
    let mut g = GPIO::new(SocVariant::Bcm2837);
    let mut s = PatternScheduler::new();
    let first = s.start(PatternKind::RightRing);
    let second = s.run_step(&mut g, first).unwrap();
    g.take_ops();
    s.run_step(&mut g, second);
    let ops = g.take_ops();
    let clear5 = ops.iter().position(|op| *op == kernel_periph::bus::BusOp::Write { offset: 0x28, value: 1 << 5 });
    let set4 = ops.iter().position(|op| *op == kernel_periph::bus::BusOp::Write { offset: 0x1C, value: 1 << 4 });
    assert!(clear5.unwrap() < set4.unwrap());
}

#[test]
fn starting_another_pattern_cancels_the_pending_step() {
    let mut g = GPIO::new(SocVariant::Bcm2837);
    let mut s = PatternScheduler::new();
    let a = s.start_hex_counter();
    let b = s.start_left_ring_counter();
    g.take_ops();
    assert_eq!(s.run_step(&mut g, a), None);
    assert!(g.take_ops().is_empty());
    assert_eq!(g.level(), 0);
    assert_eq!(s.current(), Pattern::LeftRing { index: 0 });
    assert!(s.run_step(&mut g, b).is_some());
}

#[test]
fn restarting_the_same_pattern_cancels_the_old_chain() {
    let mut g = GPIO::new(SocVariant::Bcm2837);
    let mut s = PatternScheduler::new();
    let old = s.start(PatternKind::Hex);
    let fresh = s.start(PatternKind::Hex);
    assert_eq!(old.pattern, fresh.pattern);
    assert_ne!(old.generation, fresh.generation);
    assert_eq!(s.run_step(&mut g, old), None);
    assert!(g.take_ops().is_empty());
    assert!(s.run_step(&mut g, fresh).is_some());
}

#[test]
fn stopped_pattern_ignores_its_step() {
    let mut g = GPIO::new(SocVariant::Bcm2837);
    let mut s = PatternScheduler::new();
    let a = s.start(PatternKind::LeftRing);
    s.stop_all_patterns();
    assert_eq!(s.run_step(&mut g, a), None);
    assert!(g.take_ops().is_empty());
    let forged = PatternStep { pattern: Pattern::Idle, generation: a.generation };
    assert_eq!(s.run_step(&mut g, forged), None);
}

#[test]
fn console_commands_drive_the_scheduler() {
    let mut board = Board::new(SocVariant::Bcm2837);
    for b in "hex_counter".bytes() {
        board.on_rx_data(b as u32);
    }
    let a = match board.on_rx_data(10) {
        Reply::Started(step) => step,
        other => panic!("unexpected {other:?}"),
    };
    let next = board.run_step(a).unwrap();
    assert_eq!(next.pattern, Pattern::Hex { step: 1 });
    for b in "reset_gpio\n".bytes() {
        board.on_rx_data(b as u32);
    }
    assert_eq!(board.patterns().current(), Pattern::Idle);
    assert_eq!(board.run_step(next), None);
    assert_eq!(board.gpio().level(), 0);
    for pin in RING {
        assert_eq!((board.gpio().fsel(0) >> (3 * pin)) & 7, 1);
    }
}

#[test]
fn reset_makes_ring_pins_dark_outputs() {
    let mut g = GPIO::new(SocVariant::Bcm2837);
    g.set_gpio_high(3).unwrap();
    g.set_gpio_high(20).unwrap();
    reset_gpio(&mut g);
    assert_eq!(g.level(), 1 << 20);
    assert_eq!(g.fsel(0), (1 << 3) | (1 << 6) | (1 << 9) | (1 << 12) | (1 << 15));
}

#[test]
fn pin_helpers() {
    let mut g = GPIO::new(SocVariant::Bcm2837);
    assert_eq!(gpio_on(&mut g, 18), Ok(()));
    assert!(g.is_high(18));
    assert_eq!(g.fsel(1), 1 << 24);
    assert_eq!(gpio_off(&mut g, 18), Ok(()));
    assert!(!g.is_high(18));
    assert_eq!(gpio_on(&mut g, 40), Err(GpioError::UnsupportedPin { pin: 40 }));
    assert_eq!(setup_output(&mut g, 2), Ok(()));
    assert_eq!(g.fsel(0), 1 << 6);
}

#[test]
fn deferred_pin_changes() {
    let on = gpio_on_after(6, 3);
    assert_eq!(on, DeferredPin { delay_secs: 3, pin: 6, on: true });
    let off = gpio_off_after(6, 4);
    assert_eq!(off, DeferredPin { delay_secs: 4, pin: 6, on: false });
    let mut g = GPIO::new(SocVariant::Bcm2837);
    run_deferred(&mut g, on).unwrap();
    assert!(g.is_high(6));
    run_deferred(&mut g, off).unwrap();
    assert!(!g.is_high(6));
    assert!(run_deferred(&mut g, gpio_on_after(30, 1)).is_err());
}

#[test]
fn dhrystone_workload() {
    let r = run_dhrystone();
    assert_eq!(r.iterations, ITERATIONS);
    assert_eq!(r.int3, 6);
    assert_eq!(r.record2.int_comp, 6);
    assert_eq!(r.record2.string_comp, "DHRYSTONE STRING");
    assert_eq!(&r.record1.string_comp[0..5], "DHRYS");
}

#[test]
fn elapsed_cycles_across_wrap() {
    assert_eq!(cycles_elapsed(100, 350), 250);
    assert_eq!(cycles_elapsed(u64::MAX - 9, 5), 15);
}
