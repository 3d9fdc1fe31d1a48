use kernel_periph::board::{Board, Reply};
use kernel_periph::bus::BusOp;
use kernel_periph::console::{parse_command, parse_pin, trim_line, Command, CommandBuffer, LineEvent};
use kernel_periph::gpio::{GpioError, SocVariant};

fn chars(s: &str) -> Vec<char> {
    s.chars().collect()
}

fn feed(board: &mut Board, s: &str) -> Vec<Reply> {
    s.bytes().map(|b| board.on_rx_data(b as u32)).collect()
}

#[test]
fn command_table_by_prefix() {
    let cases = [
        ("level", Command::Level),
        ("reset_gpio", Command::ResetGpio),
        ("board_name", Command::BoardName),
        ("timer_resolution", Command::TimerResolution),
        ("mmu", Command::Mmu),
        ("driver", Command::Driver),
        ("irq_handler", Command::IrqHandler),
        ("kernel_heap", Command::KernelHeap),
        ("hex_counter", Command::HexCounter),
        ("left_counter", Command::LeftCounter),
        ("right_counter", Command::RightCounter),
        ("test", Command::Test),
        ("levelling up", Command::Level),
        ("testing", Command::Test),
        ("  mmu  \t", Command::Mmu),
        ("hello", Command::NotFound),
        ("", Command::NotFound),
        ("   ", Command::NotFound),
        ("lev", Command::NotFound),
    ];
    for (line, cmd) in cases {
        assert_eq!(parse_command(&chars(line)), cmd, "{line:?}");
    }
}

#[test]
fn pin_commands_take_the_second_word() {
    assert_eq!(parse_command(&chars("gpio_on 17")), Command::GpioOn(Some(17)));
    assert_eq!(parse_command(&chars("  gpio_off\t 4  ")), Command::GpioOff(Some(4)));
    assert_eq!(parse_command(&chars("gpio_on 007 x")), Command::GpioOn(Some(7)));
    assert_eq!(parse_command(&chars("gpio_on")), Command::GpioOn(None));
    assert_eq!(parse_command(&chars("gpio_on abc")), Command::GpioOn(None));
    assert_eq!(parse_command(&chars("gpio_on 12a")), Command::GpioOn(None));
    assert_eq!(parse_command(&chars("gpio_off 256")), Command::GpioOff(None));
    assert_eq!(parse_command(&chars("gpio_off 255")), Command::GpioOff(Some(255)));
}

#[test]
fn pin_numbers() {
    assert_eq!(parse_pin(&chars("0")), Some(0));
    assert_eq!(parse_pin(&chars("29")), Some(29));
    assert_eq!(parse_pin(&chars("")), None);
    assert_eq!(parse_pin(&chars("99999999999")), None);
    assert_eq!(parse_pin(&chars("-1")), None);
}

#[test]
fn trimming() {
    assert_eq!(trim_line(&chars(" \t a b \r\n")), chars("a b"));
    assert_eq!(trim_line(&chars("   ")), chars(""));
}

#[test]
fn buffer_holds_64_characters() {
    let mut b = CommandBuffer::new();
    for _ in 0..64 {
        assert!(matches!(b.push('a'), LineEvent::Pending));
    }
    assert_eq!(b.len(), 64);
    match b.push('\n') {
        LineEvent::Line(v) => assert_eq!(v, vec!['a'; 64]),
        other => panic!("unexpected {other:?}"),
    }
    assert_eq!(b.len(), 0);
}

#[test]
fn buffer_overflows_on_the_65th_character() {
    let mut b = CommandBuffer::new();
    for _ in 0..64 {
        b.push('a');
    }
    assert!(matches!(b.push('a'), LineEvent::Overflow));
    assert_eq!(b.len(), 0);
}

#[test]
fn line_of_capacity_dispatches() {
    let mut board = Board::new(SocVariant::Bcm2837);
    let line = format!("{:<64}", "gpio_on 7");
    assert_eq!(line.len(), 64);
    let replies = feed(&mut board, &line);
    assert!(replies.iter().all(|r| *r == Reply::Nothing));
    assert_eq!(board.on_rx_data('\n' as u32), Reply::PinSet { pin: 7, on: true });
    assert!(board.gpio().is_high(7));
}

#[test]
fn line_over_capacity_is_reported_and_dropped() {
    let mut board = Board::new(SocVariant::Bcm2837);
    let line = format!("{:<64}", "gpio_on 7");
    feed(&mut board, &line);
    board.take_uart_ops();
    assert_eq!(board.on_rx_data('x' as u32), Reply::TooLong);
    let ops = board.take_uart_ops();
    let sent: String = ops
        .iter()
        .filter_map(|op| match op {
            BusOp::Write { offset: 0, value } => Some(char::from_u32(*value).unwrap()),
            _ => None,
        })
        .collect();
    assert_eq!(sent, "xCommand too long\n");
    assert_eq!(board.on_rx_data('\n' as u32), Reply::NotFound);
    assert!(!board.gpio().is_high(7));
}

#[test]
fn carriage_return_is_echoed_as_newline_and_ends_the_line() {
    let mut board = Board::new(SocVariant::Bcm2837);
    feed(&mut board, "level");
    board.take_uart_ops();
    assert_eq!(board.on_rx_data(13), Reply::Report(Command::Level));
    assert_eq!(
        board.take_uart_ops(),
        vec![BusOp::WaitClear { offset: 0x18, mask: 1 << 5 }, BusOp::Write { offset: 0, value: 10 }]
    );
    assert_eq!(board.uart().chars_read(), 6);
}

#[test]
fn every_received_byte_is_echoed() {
    let mut board = Board::new(SocVariant::Bcm2837);
    feed(&mut board, "ab");
    assert_eq!(board.uart().chars_written(), 2);
}

#[test]
fn pin_command_errors_are_replies() {
    let mut board = Board::new(SocVariant::Bcm2837);
    feed(&mut board, "gpio_on 30");
    assert_eq!(board.on_rx_data(10), Reply::PinError(GpioError::UnsupportedPin { pin: 30 }));
    feed(&mut board, "gpio_off");
    assert_eq!(board.on_rx_data(10), Reply::BadArgument);
    feed(&mut board, "what");
    assert_eq!(board.on_rx_data(10), Reply::NotFound);
    feed(&mut board, "test");
    assert_eq!(board.on_rx_data(10), Reply::Benchmark);
    assert!(board.take_gpio_ops().is_empty());
}

#[test]
fn gpio_off_command_drives_low() {
    let mut board = Board::new(SocVariant::Bcm2837);
    feed(&mut board, "gpio_on 12\n");
    assert!(board.gpio().is_high(12));
    feed(&mut board, "gpio_off 12\n");
    assert!(!board.gpio().is_high(12));
    assert_eq!(board.gpio().fsel(1), 1 << 6);
}

#[test]
fn board_init_maps_uart_pins_and_programs_uart() {
    let mut board = Board::new(SocVariant::Bcm2711);
    board.init();
    assert_eq!(board.gpio().fsel(1), (0b100 << 12) | (0b100 << 15));
    let ops = board.take_uart_ops();
    assert_eq!(ops.len(), 9);
    assert_eq!(ops[5], BusOp::Write { offset: 0x2C, value: 0x70 });
    assert_eq!(board.take_gpio_ops().len(), 2);
}

#[test]
fn interrupt_entry_on_board() {
    let mut board = Board::new(SocVariant::Bcm2837);
    assert!(board.handle_irq(1 << 6));
    assert!(!board.handle_irq(1 << 1));
    assert_eq!(board.take_uart_ops(), vec![BusOp::Write { offset: 0x44, value: 0x7FF }; 2]);
}
