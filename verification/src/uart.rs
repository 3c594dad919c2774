//! The mini UART: sending and receiving bytes.

use crate::aux::AUXStruct;
use crate::register::bit_at;
use vstd::prelude::*;

verus! {

/// Position of the status bit that says that a received byte is waiting.
pub const STATUS_SYMBOL_AVAILABLE: u32 = 0;

/// Position of the status bit that says that the transmitter takes a byte.
pub const STATUS_SPACE_AVAILABLE: u32 = 1;

/// The byte that goes out for the character `c`: the low eight bits of its
/// code.
pub open spec fn byte_of(c: char) -> u8 {
    (c as u32 & 0xff) as u8
}

/// Handle on the mini UART.
pub struct Uart1;

impl Uart1 {
    /// The bytes that go out for `s`, one for each character.
    pub fn write_str_blocking(&mut self, s: &str) -> (r: Vec<u8>)
        ensures
            r@ == s@.map_values(|c: char| byte_of(c)),
    {
        let mut bytes: Vec<u8> = Vec::new();
        for c in iter: s.chars()
            invariant
                iter.seq() == s@,
                bytes@ == s@.subrange(0, iter.index() as int).map_values(|c: char| byte_of(c)),
        {
            bytes.push((c as u32 & 0xff) as u8);
            assert(s@.subrange(0, iter.index() + 1) == s@.subrange(0, iter.index() as int).push(
                s@[iter.index() as int],
            ));
        }
        assert(s@.subrange(0, s@.len() as int) == s@);
        bytes
    }

    /// One attempt to send the byte `c`. While the transmitter has no room
    /// nothing is stored and the result is `false`: the status has to be
    /// loaded again. Otherwise the byte is stored in the data register.
    pub fn write_u8_blocking(&mut self, regs: &mut AUXStruct, c: u8) -> (sent: bool)
        ensures
            sent == bit_at(old(regs).MU.status@, STATUS_SPACE_AVAILABLE),
            sent ==> final(regs).MU.IO@ == c,
            !sent ==> final(regs).MU.IO == old(regs).MU.IO,
            final(regs).MU.same_but_io(&old(regs).MU),
            final(regs).IRQ == old(regs).IRQ,
            final(regs).ENABLES == old(regs).ENABLES,
    {
        if !regs.MU.status.get(STATUS_SPACE_AVAILABLE) {
            return false;
        }
        regs.MU.IO.write(c as u32);
        true
    }

    /// The byte that was received, if one is waiting.
    pub fn try_read_u8(&self, regs: &AUXStruct) -> (r: Option<u8>)
        ensures
            r == (if bit_at(regs.MU.status@, STATUS_SYMBOL_AVAILABLE) {
                Some((regs.MU.IO@ & 0xff) as u8)
            } else {
                None
            }),
    {
        if regs.MU.status.get(STATUS_SYMBOL_AVAILABLE) {
            Some((regs.MU.IO.read() & 0xff) as u8)
        } else {
            None
        }
    }

    /// The character that was received, if one is waiting: the character
    /// whose code is the byte.
    #[inline]
    pub fn try_read_char(&self, regs: &AUXStruct) -> (r: Option<char>)
        ensures
            r == (if bit_at(regs.MU.status@, STATUS_SYMBOL_AVAILABLE) {
                Some((regs.MU.IO@ & 0xff) as u8 as char)
            } else {
                None
            }),
    {
        match self.try_read_u8(regs) {
            Some(v) => Some(v as char),
            None => None,
        }
    }
}

} // verus!
