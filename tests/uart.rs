use kernel_periph::bus::BusOp;
use kernel_periph::uart::{
    baud_divisors, rx_poll, BlockingMode, PL011Uart, PL011UartInner, RxPoll,
};

#[test]
fn baud_divisors_for_48mhz_and_921600() {
    assert_eq!(baud_divisors(48_000_000, 921_600), (3, 16));
}

#[test]
fn baud_divisors_other_rates() {
    // 48 MHz / (16 * 115200) = 26.0417: 26 and round(0.0417 * 64) = 3.
    assert_eq!(baud_divisors(48_000_000, 115_200), (26, 3));
    // 3 MHz / (16 * 115200) = 1.6276: 1 and round(0.6276 * 64) = 40.
    assert_eq!(baud_divisors(3_000_000, 115_200), (1, 40));
}

#[test]
fn init_programs_divisors_before_the_frame_format() {
    let mut u = PL011Uart::new();
    u.init();
    let ops = u.take_ops();
    assert_eq!(
        ops,
        vec![
            BusOp::WaitClear { offset: 0x18, mask: 1 << 3 },
            BusOp::Write { offset: 0x30, value: 0 },
            BusOp::Write { offset: 0x44, value: 0x7FF },
            BusOp::Write { offset: 0x24, value: 3 },
            BusOp::Write { offset: 0x28, value: 16 },
            BusOp::Write { offset: 0x2C, value: 0x70 },
            BusOp::Write { offset: 0x34, value: 0 },
            BusOp::Write { offset: 0x38, value: 0x50 },
            BusOp::Write { offset: 0x30, value: 0x301 },
        ]
    );
}

#[test]
fn write_char_waits_for_room_then_stores() {
    let mut u = PL011Uart::new();
    u.write_char('x');
    u.write_array(&['o', 'k']);
    assert_eq!(u.chars_written(), 3);
    assert_eq!(
        u.take_ops(),
        vec![
            BusOp::WaitClear { offset: 0x18, mask: 1 << 5 },
            BusOp::Write { offset: 0x00, value: 'x' as u32 },
            BusOp::WaitClear { offset: 0x18, mask: 1 << 5 },
            BusOp::Write { offset: 0x00, value: 'o' as u32 },
            BusOp::WaitClear { offset: 0x18, mask: 1 << 5 },
            BusOp::Write { offset: 0x00, value: 'k' as u32 },
        ]
    );
}

#[test]
fn write_str_and_flush() {
    let mut u = PL011UartInner::new();
    u.write_str("hi");
    u.flush();
    assert_eq!(u.chars_written(), 2);
    let ops = u.take_ops();
    assert_eq!(ops.len(), 5);
    assert_eq!(ops[1], BusOp::Write { offset: 0, value: 'h' as u32 });
    assert_eq!(ops[3], BusOp::Write { offset: 0, value: 'i' as u32 });
    assert_eq!(ops[4], BusOp::WaitClear { offset: 0x18, mask: 1 << 3 });
}

#[test]
fn non_blocking_read_on_empty_fifo_gives_no_data() {
    let empty = 1u32 << 4;
    assert_eq!(rx_poll(BlockingMode::NonBlocking, empty), RxPoll::NoData);
    assert_eq!(rx_poll(BlockingMode::NonBlocking, empty | (1 << 7)), RxPoll::NoData);
}

#[test]
fn blocking_read_waits_until_data_arrives() {
    let empty = 1u32 << 4;
    assert_eq!(rx_poll(BlockingMode::Blocking, empty), RxPoll::Spin);
    assert_eq!(rx_poll(BlockingMode::Blocking, 0), RxPoll::Ready);
    assert_eq!(rx_poll(BlockingMode::NonBlocking, 1 << 5), RxPoll::Ready);
}

#[test]
fn read_converts_carriage_return_and_counts() {
    let mut u = PL011Uart::new();
    assert_eq!(u.read_char_converting(13), '\n');
    assert_eq!(u.read_char_converting('a' as u32), 'a');
    assert_eq!(u.read_char_converting(0x100 | 'b' as u32), 'b');
    assert_eq!(u.chars_read(), 3);
    assert!(u.take_ops().is_empty());
}

#[test]
fn interrupt_latches_then_clears() {
    let mut u = PL011Uart::new();
    assert!(u.handle(1 << 4));
    assert!(u.handle(1 << 6));
    assert!(!u.handle(1 << 5));
    assert!(!u.handle(0));
    let clear = BusOp::Write { offset: 0x44, value: 0x7FF };
    assert_eq!(u.take_ops(), vec![clear, clear, clear, clear]);
}

#[test]
fn receive_echoes_and_accumulates() {
    let mut u = PL011Uart::new();
    assert!(matches!(u.receive('l' as u32), kernel_periph::console::LineEvent::Pending));
    match u.receive(13) {
        kernel_periph::console::LineEvent::Line(v) => assert_eq!(v, vec!['l']),
        other => panic!("unexpected {other:?}"),
    }
    let ops = u.take_ops();
    assert_eq!(ops[1], BusOp::Write { offset: 0, value: 'l' as u32 });
    assert_eq!(ops[3], BusOp::Write { offset: 0, value: '\n' as u32 });
}

#[test]
fn compatible_uart_name() {
    assert_eq!(PL011Uart::new().compatible(), "BCM PL011 UART");
}
