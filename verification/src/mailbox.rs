//! The mailbox: two FIFOs that the processor and the firmware share, and the
//! property-tag messages that are exchanged through them.

pub mod list;
pub mod message;
pub mod tag;
pub mod tag_res;
pub mod wire;

use crate::register::{bit_at, Register};
use vstd::prelude::*;

pub use list::{NoTag, Tag, Tags, TagsHolder};
pub use message::{Message, ProtocolError, SentMessage};

verus! {

/// The logical channels that share the mailbox; the id of each travels in the
/// low four bits of every doorbell word.
#[derive(Clone, Copy)]
pub enum Channel {
    PowerManagement,
    FrameBuffer,
    VirtualUART,
    VCHIQ,
    Leds,
    Buttons,
    Touchscreen,
    TagsArmToVC,
    TagsVCToARM,
}

impl Channel {
    /// The channel id.
    pub open spec fn id_value(self) -> u32 {
        match self {
            Channel::PowerManagement => 0,
            Channel::FrameBuffer => 1,
            Channel::VirtualUART => 2,
            Channel::VCHIQ => 3,
            Channel::Leds => 4,
            Channel::Buttons => 5,
            Channel::Touchscreen => 6,
            Channel::TagsArmToVC => 8,
            Channel::TagsVCToARM => 9,
        }
    }

    /// The channel id.
    pub fn id(self) -> (r: u32)
        ensures
            r == self.id_value(),
            r < 16,
    {
        match self {
            Channel::PowerManagement => 0,
            Channel::FrameBuffer => 1,
            Channel::VirtualUART => 2,
            Channel::VCHIQ => 3,
            Channel::Leds => 4,
            Channel::Buttons => 5,
            Channel::Touchscreen => 6,
            Channel::TagsArmToVC => 8,
            Channel::TagsVCToARM => 9,
        }
    }
}

/// The four registers that follow the data register of either FIFO.
pub struct MailboxParam {
    pub peek: Register<u32>,
    pub sender: Register<u32>,
    pub status: Register<u32>,
    pub config: Register<u32>,
}

/// The registers of the FIFO that the processor reads from.
pub struct MailboxRead {
    pub read: Register<u32>,
    pub param: MailboxParam,
}

/// The registers of the FIFO that the processor writes to.
pub struct MailboxWrite {
    pub write: Register<u32>,
    pub param: MailboxParam,
}

/// The register block of the mailbox.
pub struct MailboxStruct {
    pub read: MailboxRead,
    pub write: MailboxWrite,
}

/// Position of the status bit that says that the write FIFO is full.
pub const STATUS_FULL: u32 = 31;

/// Position of the status bit that says that the read FIFO is empty.
pub const STATUS_EMPTY: u32 = 30;

/// The doorbell word that carries `value` to `channel`: the channel id in
/// bits 0 to 3, the value in the bits above.
pub open spec fn doorbell(channel: Channel, value: u32) -> u32 {
    (value << 4) | channel.id_value()
}

/// The channel id that a doorbell word carries.
pub open spec fn doorbell_channel(word: u32) -> u32 {
    word & 0xF
}

/// The value that a doorbell word carries.
pub open spec fn doorbell_value(word: u32) -> u32 {
    word >> 4
}

/// Handle on the mailbox. One exchange is a word sent with
/// [`Mailbox::write_message`] and a word received with
/// [`Mailbox::read_message`]; both work on the register block as it was last
/// loaded and say whether the hardware has to be polled again.
#[derive(Clone, Copy)]
pub struct Mailbox;

impl Mailbox {
    /// Whether the write FIFO has no room.
    pub fn is_full(&self, regs: &MailboxStruct) -> (r: bool)
        ensures
            r == bit_at(regs.write.param.status@, STATUS_FULL),
    {
        regs.write.param.status.get(STATUS_FULL)
    }

    /// Whether the read FIFO holds no word.
    pub fn is_empty(&self, regs: &MailboxStruct) -> (r: bool)
        ensures
            r == bit_at(regs.read.param.status@, STATUS_EMPTY),
    {
        regs.read.param.status.get(STATUS_EMPTY)
    }

    /// One attempt to send `value` to `channel`. While the write FIFO is full
    /// nothing is stored and the result is `false`: the status has to be
    /// loaded again. Otherwise the doorbell word is stored in the write
    /// register.
    pub fn write_message(&mut self, regs: &mut MailboxStruct, channel: Channel, value: u32) -> (sent:
        bool)
        ensures
            sent == !bit_at(old(regs).write.param.status@, STATUS_FULL),
            sent ==> final(regs).write.write@ == doorbell(channel, value),
            !sent ==> final(regs).write.write == old(regs).write.write,
            final(regs).write.param == old(regs).write.param,
            final(regs).read == old(regs).read,
    {
        let mut message = value << 4;
        message |= channel.id();
        if regs.write.param.status.get(STATUS_FULL) {
            return false;
        }
        regs.write.write.write(message);
        true
    }

    /// One attempt to receive a value from `channel`. While the read FIFO is
    /// empty there is nothing to take. A word that carries another channel's
    /// id is dropped, never handed out: in both cases the result is `None` and
    /// the hardware has to be polled again.
    pub fn read_message(&mut self, regs: &MailboxStruct, channel: Channel) -> (r: Option<u32>)
        ensures
            r == (if !bit_at(regs.read.param.status@, STATUS_EMPTY) && doorbell_channel(
                regs.read.read@,
            ) == channel.id_value() {
                Some(doorbell_value(regs.read.read@))
            } else {
                None
            }),
    {
        if regs.read.param.status.get(STATUS_EMPTY) {
            return None;
        }
        let message = regs.read.read.read();
        if (message & 0xF) == channel.id() {
            Some(message >> 4)
        } else {
            None
        }
    }
}

/// A value of at most 28 bits that was sent on a channel is what a receiver
/// on that channel takes out of the doorbell word, and a receiver on any
/// other channel drops the word.
pub proof fn lemma_doorbell_round_trip(channel: Channel, other: Channel, value: u32)
    requires
        value < 0x1000_0000,
    ensures
        doorbell_channel(doorbell(channel, value)) == channel.id_value(),
        doorbell_value(doorbell(channel, value)) == value,
        other != channel ==> doorbell_channel(doorbell(channel, value)) != other.id_value(),
{
    let id = channel.id_value();
    assert(id < 16 && value < 0x1000_0000 ==> ((value << 4) | id) & 0xF == id && ((value << 4)
        | id) >> 4 == value) by (bit_vector);
}

/// The doorbell word for a buffer at a multiple of 16 is the address of the
/// buffer with the channel id in its four low bits.
pub proof fn lemma_doorbell_of_address(channel: Channel, address: u32)
    requires
        address % 16 == 0,
    ensures
        doorbell(channel, (address / 16) as u32) == address | channel.id_value(),
        doorbell(channel, (address / 16) as u32) & !0xFu32 == address,
{
    let id = channel.id_value();
    assert(id < 16 && address % 16 == 0 ==> (((address / 16) as u32) << 4) | id == address | id && (
    (((address / 16) as u32) << 4) | id) & !0xFu32 == address) by (bit_vector);
}

} // verus!
