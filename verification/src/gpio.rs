//! The GPIO pins: where the bits of a pin lie in the register arrays, and
//! the register changes that configure a pin.

use crate::register::{bit_at, merged, Register};
use vstd::prelude::*;

verus! {

/// The register arrays of the GPIO block that the pin operations touch.
#[derive(Debug, Clone, Copy, PartialEq, Eq, Structural)]
pub enum Bank {
    /// Function select: ten pins per register, three bits each.
    GPFSEL,
    /// Output set: 32 pins per register.
    GPSET,
    /// Output clear: 32 pins per register.
    GPCLR,
    /// Pin level: 32 pins per register.
    GPLEV,
    /// Rising edge detect enable: 32 pins per register.
    GPREN,
    /// Falling edge detect enable: 32 pins per register.
    GPFEN,
    /// High detect enable: 32 pins per register.
    GPHEN,
    /// Low detect enable: 32 pins per register.
    GPLEN,
    /// Pull-up and pull-down control: 16 pins per register, two bits each.
    PullControl,
}

impl Bank {
    /// The number of registers of the array.
    pub open spec fn len_value(self) -> int {
        match self {
            Bank::GPFSEL => 6,
            Bank::PullControl => 4,
            _ => 2,
        }
    }

    /// The number of pins that one register of the array serves.
    pub open spec fn pins_value(self) -> int {
        match self {
            Bank::GPFSEL => 10,
            Bank::PullControl => 16,
            _ => 32,
        }
    }

    /// The number of bits that a pin has in a register of the array.
    pub open spec fn width_value(self) -> int {
        match self {
            Bank::GPFSEL => 3,
            Bank::PullControl => 2,
            _ => 1,
        }
    }

    /// The pattern of `width_value()` low bits.
    pub open spec fn mask_value(self) -> u32 {
        match self {
            Bank::GPFSEL => 0b111,
            Bank::PullControl => 0b11,
            _ => 0b1,
        }
    }

    /// The number of pins that one register of the array serves.
    pub fn pins(self) -> (r: usize)
        ensures
            r == self.pins_value(),
    {
        match self {
            Bank::GPFSEL => 10,
            Bank::PullControl => 16,
            _ => 32,
        }
    }

    /// The number of registers of the array.
    pub fn len(self) -> (r: usize)
        ensures
            r == self.len_value(),
    {
        match self {
            Bank::GPFSEL => 6,
            Bank::PullControl => 4,
            _ => 2,
        }
    }

    /// The pattern of `width()` low bits.
    pub fn mask(self) -> (r: u32)
        ensures
            r == self.mask_value(),
    {
        match self {
            Bank::GPFSEL => 0b111,
            Bank::PullControl => 0b11,
            _ => 0b1,
        }
    }
}

/// The place of a pin in a register array: which register, and where in it
/// the bits of the pin begin.
#[derive(Debug, Clone, Copy)]
pub struct Field {
    pub bank: Bank,
    pub index: usize,
    pub at: u32,
}

impl Field {
    /// The place of pin `pin` in `bank`.
    pub open spec fn of(bank: Bank, pin: int) -> Field {
        Field {
            bank,
            index: (pin / bank.pins_value()) as usize,
            at: ((pin % bank.pins_value()) * bank.width_value()) as u32,
        }
    }

    /// The bits of the register that belong to the pin.
    pub open spec fn mask_value(self) -> u32 {
        self.bank.mask_value() << self.at
    }

    /// The value that the pin's bits of `word` hold.
    pub open spec fn value_in(self, word: u32) -> u32 {
        (word >> self.at) & self.bank.mask_value()
    }
}

/// One read-modify-write of a GPIO register: the bits of `field` take the
/// value `value`, the other bits of the register stay.
#[derive(Debug, Clone, Copy)]
pub struct Change {
    pub field: Field,
    pub value: u32,
}

impl Change {
    /// The word that the register holds after the change, if it held `word`.
    pub open spec fn applied(self, word: u32) -> u32 {
        merged(word, self.value << self.field.at, self.field.mask_value())
    }

    /// Carries the change out on the register.
    pub fn apply(&self, cell: &mut Register<u32>)
        requires
            self.field.at < 32,
        ensures
            final(cell)@ == self.applied(old(cell)@),
    {
        cell.write_with_mask_at(self.value, self.field.bank.mask(), self.field.at);
    }
}

/// A change gives the bits of its pin the low bits of its value, and leaves
/// the bits of every other pin of the same register as they were.
pub proof fn lemma_change_is_local(bank: Bank, pin: int, other: int, value: u32, word: u32)
    requires
        0 <= pin < bank.len_value() * bank.pins_value(),
        0 <= other < bank.len_value() * bank.pins_value(),
    ensures
        Field::of(bank, pin).value_in(
            Change { field: Field::of(bank, pin), value }.applied(word),
        ) == value & bank.mask_value(),
        other != pin && Field::of(bank, other).index == Field::of(bank, pin).index ==> Field::of(
            bank,
            other,
        ).value_in(Change { field: Field::of(bank, pin), value }.applied(word)) == Field::of(
            bank,
            other,
        ).value_in(word),
{
    let a = Field::of(bank, pin).at;
    let b = Field::of(bank, other).at;
    match bank {
        Bank::GPFSEL => {
            assert(a <= 27 && a % 3 == 0 ==> (((word & !(0b111u32 << a)) | ((value << a) & (0b111u32
                << a))) >> a) & 0b111 == value & 0b111) by (bit_vector);
            assert(a <= 27 && a % 3 == 0 && b <= 27 && b % 3 == 0 && a != b ==> (((word & !(0b111u32
                << a)) | ((value << a) & (0b111u32 << a))) >> b) & 0b111 == (word >> b) & 0b111)
                by (bit_vector);
        },
        Bank::PullControl => {
            assert(a <= 30 && a % 2 == 0 ==> (((word & !(0b11u32 << a)) | ((value << a) & (0b11u32
                << a))) >> a) & 0b11 == value & 0b11) by (bit_vector);
            assert(a <= 30 && a % 2 == 0 && b <= 30 && b % 2 == 0 && a != b ==> (((word & !(0b11u32
                << a)) | ((value << a) & (0b11u32 << a))) >> b) & 0b11 == (word >> b) & 0b11)
                by (bit_vector);
        },
        _ => {
            assert(a < 32 ==> (((word & !(0b1u32 << a)) | ((value << a) & (0b1u32 << a))) >> a)
                & 0b1 == value & 0b1) by (bit_vector);
            assert(a < 32 && b < 32 && a != b ==> (((word & !(0b1u32 << a)) | ((value << a) & (0b1u32
                << a))) >> b) & 0b1 == (word >> b) & 0b1) by (bit_vector);
        },
    }
}

/// How a pin is used.
#[derive(Debug, Clone, Copy)]
pub enum Function {
    Input,
    Output,
    Alternate0,
    Alternate1,
    Alternate2,
    Alternate3,
    Alternate4,
    Alternate5,
}

impl Function {
    /// The three bits that select the function.
    pub open spec fn code_value(self) -> u32 {
        match self {
            Function::Input => 0b000,
            Function::Output => 0b001,
            Function::Alternate0 => 0b100,
            Function::Alternate1 => 0b101,
            Function::Alternate2 => 0b110,
            Function::Alternate3 => 0b111,
            Function::Alternate4 => 0b011,
            Function::Alternate5 => 0b010,
        }
    }

    /// The three bits that select the function.
    pub fn code(self) -> (r: u32)
        ensures
            r == self.code_value(),
            r < 8,
    {
        match self {
            Function::Input => 0b000,
            Function::Output => 0b001,
            Function::Alternate0 => 0b100,
            Function::Alternate1 => 0b101,
            Function::Alternate2 => 0b110,
            Function::Alternate3 => 0b111,
            Function::Alternate4 => 0b011,
            Function::Alternate5 => 0b010,
        }
    }
}

/// The resistor that holds an unconnected pin at a level.
#[derive(Debug, Clone, Copy)]
pub enum Resistor {
    No,
    PullUp,
    PullDown,
}

impl Resistor {
    /// The two bits that select the resistor.
    pub open spec fn code_value(self) -> u32 {
        match self {
            Resistor::No => 0b00,
            Resistor::PullUp => 0b01,
            Resistor::PullDown => 0b10,
        }
    }

    /// The two bits that select the resistor.
    pub fn code(self) -> (r: u32)
        ensures
            r == self.code_value(),
            r < 4,
    {
        match self {
            Resistor::No => 0b00,
            Resistor::PullUp => 0b01,
            Resistor::PullDown => 0b10,
        }
    }
}

/// A pin, by its number.
pub struct GPIO(pub usize);

impl GPIO {
    /// Whether `bank` has a register for the pin.
    pub open spec fn served_by(&self, bank: Bank) -> bool {
        self.0 < bank.len_value() * bank.pins_value()
    }

    /// The place of the pin in `bank`, if the array has a register for it.
    pub fn field(&self, bank: Bank) -> (r: Option<Field>)
        ensures
            r == (if self.served_by(bank) {
                Some(Field::of(bank, self.0 as int))
            } else {
                None
            }),
            r matches Some(f) ==> f.index < bank.len_value() && f.at + bank.width_value() <= 32,
    {
        let index = self.0 / bank.pins();
        if index < bank.len() {
            let at = match bank {
                Bank::GPFSEL => (self.0 % 10) * 3,
                Bank::PullControl => (self.0 % 16) * 2,
                _ => self.0 % 32,
            };
            Some(Field { bank, index, at: at as u32 })
        } else {
            None
        }
    }

    /// The change that drives the pin high (`v`) or low: one bit written to
    /// the set or to the clear array.
    pub fn set(&self, v: bool) -> (r: Option<Change>)
        ensures
            r == self.change_value(
                if v {
                    Bank::GPSET
                } else {
                    Bank::GPCLR
                },
                1,
            ),
    {
        self.change(
            if v {
                Bank::GPSET
            } else {
                Bank::GPCLR
            },
            1,
        )
    }

    /// Where the level of the pin is read.
    pub fn get(&self) -> (r: Option<Field>)
        ensures
            r == (if self.served_by(Bank::GPLEV) {
                Some(Field::of(Bank::GPLEV, self.0 as int))
            } else {
                None
            }),
    {
        self.field(Bank::GPLEV)
    }

    /// The change that selects the function of the pin.
    pub fn set_function(&self, function: Function) -> (r: Option<Change>)
        ensures
            r == self.change_value(Bank::GPFSEL, function.code_value()),
    {
        self.change(Bank::GPFSEL, function.code())
    }

    /// The change that selects the resistor of the pin.
    pub fn set_pullup_pulldown(&self, pup_pdn: Resistor) -> (r: Option<Change>)
        ensures
            r == self.change_value(Bank::PullControl, pup_pdn.code_value()),
    {
        self.change(Bank::PullControl, pup_pdn.code())
    }

    /// The change that switches the detection of rising edges on or off.
    pub fn rising_edge_detect(&self, v: bool) -> (r: Option<Change>)
        ensures
            r == self.change_value(Bank::GPREN, flag(v)),
    {
        self.change(Bank::GPREN, flag_of(v))
    }

    /// The change that switches the detection of falling edges on or off.
    pub fn falling_edge_detect(&self, v: bool) -> (r: Option<Change>)
        ensures
            r == self.change_value(Bank::GPFEN, flag(v)),
    {
        self.change(Bank::GPFEN, flag_of(v))
    }

    /// The change that switches the detection of a high level on or off.
    pub fn high_edge_detect(&self, v: bool) -> (r: Option<Change>)
        ensures
            r == self.change_value(Bank::GPHEN, flag(v)),
    {
        self.change(Bank::GPHEN, flag_of(v))
    }

    /// The change that switches the detection of a low level on or off.
    pub fn low_edge_detect(&self, v: bool) -> (r: Option<Change>)
        ensures
            r == self.change_value(Bank::GPLEN, flag(v)),
    {
        self.change(Bank::GPLEN, flag_of(v))
    }

    /// The change that gives the pin's bits in `bank` the value `value`, if
    /// the array has a register for the pin.
    pub open spec fn change_value(&self, bank: Bank, value: u32) -> Option<Change> {
        if self.served_by(bank) {
            Some(Change { field: Field::of(bank, self.0 as int), value })
        } else {
            None
        }
    }

    fn change(&self, bank: Bank, value: u32) -> (r: Option<Change>)
        ensures
            r == self.change_value(bank, value),
    {
        match self.field(bank) {
            Some(field) => Some(Change { field, value }),
            None => None,
        }
    }
}

/// The bit that stands for `v`.
pub open spec fn flag(v: bool) -> u32 {
    if v {
        1
    } else {
        0
    }
}

fn flag_of(v: bool) -> (r: u32)
    ensures
        r == flag(v),
{
    if v {
        1
    } else {
        0
    }
}

/// Two pins that are configured together.
pub trait GPIOTuple {
    /// The pins of the pair.
    spec fn pins(&self) -> (GPIO, GPIO);

    /// The changes that select the function of both pins.
    fn set_function(&self, function: Function) -> (r: (Option<Change>, Option<Change>))
        ensures
            r.0 == self.pins().0.change_value(Bank::GPFSEL, function.code_value()),
            r.1 == self.pins().1.change_value(Bank::GPFSEL, function.code_value()),
    ;

    /// The changes that select the resistor of both pins.
    fn set_pullup_pulldown(&self, pup_pdn: Resistor) -> (r: (Option<Change>, Option<Change>))
        ensures
            r.0 == self.pins().0.change_value(Bank::PullControl, pup_pdn.code_value()),
            r.1 == self.pins().1.change_value(Bank::PullControl, pup_pdn.code_value()),
    ;
}

impl GPIOTuple for (GPIO, GPIO) {
    open spec fn pins(&self) -> (GPIO, GPIO) {
        *self
    }

    fn set_function(&self, function: Function) -> (r: (Option<Change>, Option<Change>)) {
        let first = self.0.set_function(function);
        let second = self.1.set_function(function);
        (first, second)
    }

    fn set_pullup_pulldown(&self, pup_pdn: Resistor) -> (r: (Option<Change>, Option<Change>)) {
        let first = self.0.set_pullup_pulldown(pup_pdn);
        let second = self.1.set_pullup_pulldown(pup_pdn);
        (first, second)
    }
}

} // verus!
