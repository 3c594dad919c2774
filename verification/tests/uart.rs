use rpi_mailbox::aux::{AUXStruct, MiniUartStruct};
use rpi_mailbox::register::Register;
use rpi_mailbox::uart::Uart1;

fn block(io: u32, status: u32) -> AUXStruct {
    AUXStruct {
        IRQ: Register::new(0x11),
        ENABLES: Register::new(1),
        MU: MiniUartStruct {
            IO: Register::new(io),
            IER: Register::new(0),
            IIR: Register::new(0xc6),
            LCR: Register::new(3),
            MCR: Register::new(0),
            LSR: Register::new(0x60),
            MSR: Register::new(0),
            scratch: Register::new(0),
            control: Register::new(3),
            status: Register::new(status),
            baud_rate: Register::new(270),
        },
    }
}

#[test]
fn bytes_of_a_string() {
    assert_eq!(Uart1.write_str_blocking("hi\r\n"), vec![b'h', b'i', b'\r', b'\n']);
    assert_eq!(Uart1.write_str_blocking(""), Vec::<u8>::new());
    // one byte for each character: the low eight bits of its code
    assert_eq!(Uart1.write_str_blocking("é"), vec![0xe9]);
    assert_eq!(Uart1.write_str_blocking("a€b"), vec![b'a', 0xac, b'b']);
    assert_eq!(Uart1.write_str_blocking("\u{1f600}"), vec![0x00]);
}

#[test]
fn write_u8_waits_for_room() {
    let mut regs = block(0x55, 0);
    assert!(!Uart1.write_u8_blocking(&mut regs, b'x'));
    assert_eq!(regs.MU.IO.read(), 0x55);
    let mut regs = block(0x55, 0b01);
    assert!(!Uart1.write_u8_blocking(&mut regs, b'x'));
    assert_eq!(regs.MU.IO.read(), 0x55);
}

#[test]
fn write_u8_stores_the_byte() {
    let mut regs = block(0x55, 0b10);
    assert!(Uart1.write_u8_blocking(&mut regs, b'x'));
    assert_eq!(regs.MU.IO.read(), 0x78);
    assert_eq!(regs.MU.status.read(), 0b10);
    assert_eq!(regs.MU.control.read(), 3);
    assert_eq!(regs.MU.baud_rate.read(), 270);
    assert_eq!(regs.ENABLES.read(), 1);
    assert_eq!(regs.IRQ.read(), 0x11);
    let mut regs = block(0, 0xffff_ffff);
    assert!(Uart1.write_u8_blocking(&mut regs, 0xff));
    assert_eq!(regs.MU.IO.read(), 0xff);
}

#[test]
fn try_read_u8_takes_the_low_byte() {
    assert_eq!(Uart1.try_read_u8(&block(0x41, 0b01)), Some(0x41));
    assert_eq!(Uart1.try_read_u8(&block(0xabcd_ef41, 0b11)), Some(0x41));
    assert_eq!(Uart1.try_read_u8(&block(0x1ff, 1)), Some(0xff));
}

#[test]
fn try_read_u8_without_data() {
    assert_eq!(Uart1.try_read_u8(&block(0x41, 0)), None);
    assert_eq!(Uart1.try_read_u8(&block(0x41, 0b10)), None);
}

#[test]
fn try_read_char_is_the_byte_as_character() {
    assert_eq!(Uart1.try_read_char(&block(0x41, 1)), Some('A'));
    assert_eq!(Uart1.try_read_char(&block(0xe9, 1)), Some('é'));
    assert_eq!(Uart1.try_read_char(&block(0x0a, 1)), Some('\n'));
    assert_eq!(Uart1.try_read_char(&block(0x41, 0)), None);
}
