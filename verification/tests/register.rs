use rpi_mailbox::register::Register;
use rpi_mailbox::regop::RegOp;

/// A small generator of reproducible 64-bit values.
struct Lcg(u64);

impl Lcg {
    fn next(&mut self) -> u64 {
        self.0 = self.0.wrapping_mul(6364136223846793005).wrapping_add(1442695040888963407);
        self.0 ^ (self.0 >> 29)
    }
}

#[test]
fn zero_and_one_of_every_width() {
    assert_eq!(<u8 as RegOp>::zero(), 0);
    assert_eq!(<u8 as RegOp>::one(), 1);
    assert_eq!(<u16 as RegOp>::zero(), 0);
    assert_eq!(<u16 as RegOp>::one(), 1);
    assert_eq!(<u32 as RegOp>::zero(), 0);
    assert_eq!(<u32 as RegOp>::one(), 1);
    assert_eq!(<u64 as RegOp>::zero(), 0);
    assert_eq!(<u64 as RegOp>::one(), 1);
    assert_eq!(<i8 as RegOp>::zero(), 0);
    assert_eq!(<i8 as RegOp>::one(), 1);
    assert_eq!(<i16 as RegOp>::zero(), 0);
    assert_eq!(<i16 as RegOp>::one(), 1);
    assert_eq!(<i32 as RegOp>::zero(), 0);
    assert_eq!(<i32 as RegOp>::one(), 1);
    assert_eq!(<i64 as RegOp>::zero(), 0);
    assert_eq!(<i64 as RegOp>::one(), 1);
    assert_eq!(<usize as RegOp>::zero(), 0);
    assert_eq!(<usize as RegOp>::one(), 1);
    assert_eq!(<isize as RegOp>::zero(), 0);
    assert_eq!(<isize as RegOp>::one(), 1);
}

#[test]
fn bit_operations_of_a_width() {
    assert_eq!(0b1100u8.bit_and(0b1010), 0b1000);
    assert_eq!(0b1100u8.bit_or(0b1010), 0b1110);
    assert_eq!(0b1100u8.bit_not(), 0b1111_0011);
    assert_eq!(0b1100u8.shift_left(2), 0b11_0000);
    assert_eq!(0xffu8.shift_left(7), 0x80);
    assert_eq!(1i8.shift_left(7), i8::MIN);
    assert_eq!(0i16.bit_not(), -1);
    assert!(5u64.equals(5));
    assert!(!5u64.equals(6));
}

#[test]
fn read_returns_what_was_written() {
    let mut r = Register::new(0u32);
    assert_eq!(r.read(), 0);
    r.write(0xdead_beef);
    assert_eq!(r.read(), 0xdead_beef);
    r.write(7);
    assert_eq!(r.read(), 7);
}

#[test]
fn read_with_mask_keeps_selected_bits() {
    let r = Register::new(0xdead_beefu32);
    assert_eq!(r.read_with_mask(0x0000_ffff), 0x0000_beef);
    assert_eq!(r.read_with_mask(0xf000_000f), 0xd000_000f);
    assert_eq!(r.read_with_mask(0), 0);
    assert_eq!(r.read_with_mask(u32::MAX), 0xdead_beef);
}

#[test]
fn read_with_mask_at_shifts_the_mask() {
    let r = Register::new(0xdead_beefu32);
    assert_eq!(r.read_with_mask_at(0xff, 8), 0x0000_be00);
    assert_eq!(r.read_with_mask_at(0xf, 28), 0xd000_0000);
    assert_eq!(r.read_with_mask_at(0xff, 0), 0xef);
    // bits of the mask that leave the word are lost
    assert_eq!(r.read_with_mask_at(0xff, 28), 0xd000_0000);
}

#[test]
fn write_with_mask_replaces_only_the_masked_bits() {
    let mut r = Register::new(0xaaaa_aaaau32);
    r.write_with_mask(0x0000_1234, 0x0000_ffff);
    assert_eq!(r.read(), 0xaaaa_1234);
    // bits of the value outside the mask are not stored
    let mut r = Register::new(0xaaaa_aaaau32);
    r.write_with_mask(0xffff_ffff, 0x0000_00f0);
    assert_eq!(r.read(), 0xaaaa_aafa);
    let mut r = Register::new(0x55u8);
    r.write_with_mask(0, 0x0f);
    assert_eq!(r.read(), 0x50);
}

#[test]
fn write_with_mask_at_places_a_field() {
    // function select of pin 4: three bits at position 12
    let mut r = Register::new(0xffff_ffffu32);
    r.write_with_mask_at(0b010, 0b111, 12);
    assert_eq!(r.read(), 0xffff_afff);
    let mut r = Register::new(0u32);
    r.write_with_mask_at(0b101, 0b111, 27);
    assert_eq!(r.read(), 0x2800_0000);
    let mut r = Register::new(0x1234u16);
    r.write_with_mask_at(0xf, 0xf, 4);
    assert_eq!(r.read(), 0x12f4);
}

fn masked_write_keeps_outside_u8(old: u8, v: u8, m: u8, s: u8) {
    let mut r = Register::new(old);
    r.write_with_mask_at(v, m, s);
    let mask = m << s;
    assert_eq!(r.read() & !mask, old & !mask);
    assert_eq!(r.read() & mask, (v << s) & mask);
}

fn masked_write_keeps_outside_u16(old: u16, v: u16, m: u16, s: u16) {
    let mut r = Register::new(old);
    r.write_with_mask_at(v, m, s);
    let mask = m << s;
    assert_eq!(r.read() & !mask, old & !mask);
    assert_eq!(r.read() & mask, (v << s) & mask);
}

fn masked_write_keeps_outside_u32(old: u32, v: u32, m: u32, s: u32) {
    let mut r = Register::new(old);
    r.write_with_mask_at(v, m, s);
    let mask = m << s;
    assert_eq!(r.read() & !mask, old & !mask);
    assert_eq!(r.read() & mask, (v << s) & mask);
}

fn masked_write_keeps_outside_u64(old: u64, v: u64, m: u64, s: u64) {
    let mut r = Register::new(old);
    r.write_with_mask_at(v, m, s);
    let mask = m << s;
    assert_eq!(r.read() & !mask, old & !mask);
    assert_eq!(r.read() & mask, (v << s) & mask);
}

fn masked_write_keeps_outside_i8(old: i8, v: i8, m: i8, s: i8) {
    let mut r = Register::new(old);
    r.write_with_mask_at(v, m, s);
    let mask = m << s;
    assert_eq!(r.read() & !mask, old & !mask);
    assert_eq!(r.read() & mask, (v << s) & mask);
}

fn masked_write_keeps_outside_i16(old: i16, v: i16, m: i16, s: i16) {
    let mut r = Register::new(old);
    r.write_with_mask_at(v, m, s);
    let mask = m << s;
    assert_eq!(r.read() & !mask, old & !mask);
    assert_eq!(r.read() & mask, (v << s) & mask);
}

fn masked_write_keeps_outside_i32(old: i32, v: i32, m: i32, s: i32) {
    let mut r = Register::new(old);
    r.write_with_mask_at(v, m, s);
    let mask = m << s;
    assert_eq!(r.read() & !mask, old & !mask);
    assert_eq!(r.read() & mask, (v << s) & mask);
}

fn masked_write_keeps_outside_i64(old: i64, v: i64, m: i64, s: i64) {
    let mut r = Register::new(old);
    r.write_with_mask_at(v, m, s);
    let mask = m << s;
    assert_eq!(r.read() & !mask, old & !mask);
    assert_eq!(r.read() & mask, (v << s) & mask);
}

fn masked_write_keeps_outside_usize(old: usize, v: usize, m: usize, s: usize) {
    let mut r = Register::new(old);
    r.write_with_mask_at(v, m, s);
    let mask = m << s;
    assert_eq!(r.read() & !mask, old & !mask);
    assert_eq!(r.read() & mask, (v << s) & mask);
}

fn masked_write_keeps_outside_isize(old: isize, v: isize, m: isize, s: isize) {
    let mut r = Register::new(old);
    r.write_with_mask_at(v, m, s);
    let mask = m << s;
    assert_eq!(r.read() & !mask, old & !mask);
    assert_eq!(r.read() & mask, (v << s) & mask);
}

#[test]
fn masked_write_at_keeps_bits_outside_mask_unsigned() {
    let mut g = Lcg(1);
    for _ in 0..2000 {
        let (a, b, c, d) = (g.next(), g.next(), g.next(), g.next());
        masked_write_keeps_outside_u8(a as u8, b as u8, c as u8, (d % 8) as u8);
        masked_write_keeps_outside_u16(a as u16, b as u16, c as u16, (d % 16) as u16);
        masked_write_keeps_outside_u32(a as u32, b as u32, c as u32, (d % 32) as u32);
        masked_write_keeps_outside_u64(a, b, c, d % 64);
        masked_write_keeps_outside_usize(
            a as usize,
            b as usize,
            c as usize,
            (d % (usize::BITS as u64)) as usize,
        );
    }
}

#[test]
fn masked_write_at_keeps_bits_outside_mask_signed() {
    let mut g = Lcg(2);
    for _ in 0..2000 {
        let (a, b, c, d) = (g.next(), g.next(), g.next(), g.next());
        masked_write_keeps_outside_i8(a as i8, b as i8, c as i8, (d % 8) as i8);
        masked_write_keeps_outside_i16(a as i16, b as i16, c as i16, (d % 16) as i16);
        masked_write_keeps_outside_i32(a as i32, b as i32, c as i32, (d % 32) as i32);
        masked_write_keeps_outside_i64(a as i64, b as i64, c as i64, (d % 64) as i64);
        masked_write_keeps_outside_isize(
            a as isize,
            b as isize,
            c as isize,
            (d % (isize::BITS as u64)) as isize,
        );
    }
}

#[test]
fn masked_write_with_value_wider_than_mask() {
    // the value has bits outside the mask: they must not reach the register
    masked_write_keeps_outside_u32(0, 0xff, 0x1, 0);
    masked_write_keeps_outside_u32(0x8000_0001, 0xffff_ffff, 0b11, 15);
    masked_write_keeps_outside_u8(0, 0xff, 0, 3);
    let mut r = Register::new(0u32);
    r.write_with_mask_at(0xff, 0x1, 0);
    assert_eq!(r.read(), 1);
}

#[test]
fn set_then_get_every_bit_u32() {
    for &old in &[0u32, u32::MAX, 0xdead_beef, 0x5555_5555, 0x8000_0000, 1] {
        for n in 0..32u32 {
            let mut r = Register::new(old);
            r.set(n, true);
            assert!(r.get(n));
            assert_eq!(r.read() & !(1 << n), old & !(1 << n));
            for k in 0..32u32 {
                if k != n {
                    assert_eq!(r.get(k), old & (1 << k) != 0);
                }
            }
            r.set(n, false);
            assert!(!r.get(n));
            assert_eq!(r.read() & !(1 << n), old & !(1 << n));
        }
    }
}

#[test]
fn set_then_get_every_bit_u8_and_u16() {
    for old in 0..=255u8 {
        for n in 0..8u8 {
            let mut r = Register::new(old);
            r.set(n, true);
            assert!(r.get(n));
            assert_eq!(r.read(), old | (1 << n));
            r.set(n, false);
            assert!(!r.get(n));
            assert_eq!(r.read(), old & !(1 << n));
        }
    }
    for &old in &[0u16, u16::MAX, 0xa5a5, 0x8001] {
        for n in 0..16u16 {
            let mut r = Register::new(old);
            r.set(n, true);
            assert!(r.get(n));
            assert_eq!(r.read(), old | (1 << n));
        }
    }
}

#[test]
fn set_then_get_every_bit_u64_and_usize() {
    for &old in &[0u64, u64::MAX, 0x0123_4567_89ab_cdef, 1 << 63] {
        for n in 0..64u64 {
            let mut r = Register::new(old);
            r.set(n, true);
            assert!(r.get(n));
            assert_eq!(r.read(), old | (1 << n));
            r.set(n, false);
            assert_eq!(r.read(), old & !(1 << n));
        }
    }
    for &old in &[0usize, usize::MAX, 0x1234_5678] {
        for n in 0..(usize::BITS as usize) {
            let mut r = Register::new(old);
            r.set(n, true);
            assert!(r.get(n));
            assert_eq!(r.read(), old | (1 << n));
        }
    }
}

#[test]
fn set_then_get_every_bit_signed() {
    for &old in &[0i8, -1, i8::MIN, i8::MAX, 0x55] {
        for n in 0..8i8 {
            let mut r = Register::new(old);
            r.set(n, true);
            assert!(r.get(n));
            assert_eq!(r.read(), old | (1 << n));
            r.set(n, false);
            assert!(!r.get(n));
            assert_eq!(r.read(), old & !(1 << n));
        }
    }
    for &old in &[0i16, -1, i16::MIN, 0x1234] {
        for n in 0..16i16 {
            let mut r = Register::new(old);
            r.set(n, true);
            assert!(r.get(n));
            assert_eq!(r.read(), old | (1 << n));
        }
    }
    for &old in &[0i32, -1, i32::MIN, 0x1234_5678] {
        for n in 0..32i32 {
            let mut r = Register::new(old);
            r.set(n, true);
            assert!(r.get(n));
            assert_eq!(r.read(), old | (1 << n));
        }
    }
    for &old in &[0i64, -1, i64::MIN, 0x1234_5678_9abc] {
        for n in 0..64i64 {
            let mut r = Register::new(old);
            r.set(n, true);
            assert!(r.get(n));
            assert_eq!(r.read(), old | (1 << n));
        }
    }
    for &old in &[0isize, -1, isize::MIN] {
        for n in 0..(isize::BITS as isize) {
            let mut r = Register::new(old);
            r.set(n, true);
            assert!(r.get(n));
            assert_eq!(r.read(), old | (1 << n));
        }
    }
}

#[test]
fn get_reads_single_bits() {
    let r = Register::new(0x8000_0001u32);
    assert!(r.get(0));
    assert!(!r.get(1));
    assert!(!r.get(30));
    assert!(r.get(31));
    let r = Register::new(i8::MIN);
    assert!(r.get(7));
    assert!(!r.get(6));
}
