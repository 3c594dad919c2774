use rpi_mailbox::mailbox::message::buffer_value;
use rpi_mailbox::mailbox::{
    Channel, Mailbox, MailboxParam, MailboxRead, MailboxStruct, MailboxWrite,
};
use rpi_mailbox::register::Register;

const FULL: u32 = 1 << 31;
const EMPTY: u32 = 1 << 30;

fn param(status: u32) -> MailboxParam {
    MailboxParam {
        peek: Register::new(0),
        sender: Register::new(0),
        status: Register::new(status),
        config: Register::new(0),
    }
}

fn block(read_word: u32, read_status: u32, write_word: u32, write_status: u32) -> MailboxStruct {
    MailboxStruct {
        read: MailboxRead { read: Register::new(read_word), param: param(read_status) },
        write: MailboxWrite { write: Register::new(write_word), param: param(write_status) },
    }
}

fn all_channels() -> [Channel; 9] {
    [
        Channel::PowerManagement,
        Channel::FrameBuffer,
        Channel::VirtualUART,
        Channel::VCHIQ,
        Channel::Leds,
        Channel::Buttons,
        Channel::Touchscreen,
        Channel::TagsArmToVC,
        Channel::TagsVCToARM,
    ]
}

#[test]
fn channel_ids() {
    assert_eq!(Channel::PowerManagement.id(), 0);
    assert_eq!(Channel::FrameBuffer.id(), 1);
    assert_eq!(Channel::VirtualUART.id(), 2);
    assert_eq!(Channel::VCHIQ.id(), 3);
    assert_eq!(Channel::Leds.id(), 4);
    assert_eq!(Channel::Buttons.id(), 5);
    assert_eq!(Channel::Touchscreen.id(), 6);
    assert_eq!(Channel::TagsArmToVC.id(), 8);
    assert_eq!(Channel::TagsVCToARM.id(), 9);
}

#[test]
fn status_flags_are_bits_31_and_30() {
    let regs = block(0, EMPTY, 0, FULL);
    assert!(Mailbox.is_full(&regs));
    assert!(Mailbox.is_empty(&regs));
    let regs = block(0, FULL, 0, EMPTY);
    assert!(!Mailbox.is_full(&regs));
    assert!(!Mailbox.is_empty(&regs));
    let regs = block(0, !EMPTY, 0, !FULL);
    assert!(!Mailbox.is_full(&regs));
    assert!(!Mailbox.is_empty(&regs));
}

#[test]
fn write_message_stores_doorbell_word() {
    let mut regs = block(0, EMPTY, 0, 0);
    assert!(Mailbox.write_message(&mut regs, Channel::TagsArmToVC, 0x0012_3456));
    assert_eq!(regs.write.write.read(), 0x0123_4568);
    let mut regs = block(0, EMPTY, 0xffff_ffff, EMPTY);
    assert!(Mailbox.write_message(&mut regs, Channel::FrameBuffer, 0));
    assert_eq!(regs.write.write.read(), 1);
    // the four high bits of the value do not fit the word
    let mut regs = block(0, 0, 0, 0);
    assert!(Mailbox.write_message(&mut regs, Channel::PowerManagement, 0xf000_0001));
    assert_eq!(regs.write.write.read(), 0x0000_0010);
}

#[test]
fn write_message_waits_while_full() {
    let mut regs = block(7, EMPTY, 0xabcd, FULL);
    assert!(!Mailbox.write_message(&mut regs, Channel::TagsArmToVC, 0x1234));
    assert_eq!(regs.write.write.read(), 0xabcd);
    assert_eq!(regs.write.param.status.read(), FULL);
    assert_eq!(regs.read.read.read(), 7);
    // once the flag is gone the same call sends
    regs.write.param.status.write(0);
    assert!(Mailbox.write_message(&mut regs, Channel::TagsArmToVC, 0x1234));
    assert_eq!(regs.write.write.read(), 0x0001_2348);
    assert_eq!(regs.read.read.read(), 7);
    assert_eq!(regs.read.param.status.read(), EMPTY);
}

#[test]
fn read_message_returns_value_of_matching_word() {
    let regs = block(0x0123_4568, 0, 0, 0);
    assert_eq!(Mailbox.read_message(&regs, Channel::TagsArmToVC), Some(0x0012_3456));
    let regs = block(0xffff_fff9, FULL, 0, 0);
    assert_eq!(Mailbox.read_message(&regs, Channel::TagsVCToARM), Some(0x0fff_ffff));
    let regs = block(0, 0, 0, 0);
    assert_eq!(Mailbox.read_message(&regs, Channel::PowerManagement), Some(0));
}

#[test]
fn read_message_discards_words_of_other_channels() {
    for word_channel in 0..16u32 {
        let word = (0x00ab_cdef << 4) | word_channel;
        let regs = block(word, 0, 0, 0);
        for &channel in all_channels().iter() {
            let got = Mailbox.read_message(&regs, channel);
            if channel.id() == word_channel {
                assert_eq!(got, Some(0x00ab_cdef));
            } else {
                assert_eq!(got, None);
            }
        }
    }
}

#[test]
fn read_message_waits_while_empty() {
    // the word in the read register matches, but the FIFO says there is none
    let regs = block(0x0123_4568, EMPTY, 0, 0);
    assert_eq!(Mailbox.read_message(&regs, Channel::TagsArmToVC), None);
    let regs = block(0x0123_4568, EMPTY | FULL, 0, 0);
    assert_eq!(Mailbox.read_message(&regs, Channel::TagsArmToVC), None);
}

#[test]
fn read_message_skips_until_own_channel() {
    // a FIFO that first holds two words for other channels
    let fifo = [0x0000_0011u32, 0x0000_0229, 0x0000_0338, 0x0000_0448];
    let mut regs = block(0, EMPTY, 0, 0);
    let mut taken = 0;
    let mut got = None;
    for &word in fifo.iter() {
        regs.read.param.status.write(0);
        regs.read.read.write(word);
        taken += 1;
        got = Mailbox.read_message(&regs, Channel::TagsArmToVC);
        if got.is_some() {
            break;
        }
    }
    assert_eq!(taken, 3);
    assert_eq!(got, Some(0x33));
}

#[test]
fn sent_value_is_received_on_same_channel() {
    for &channel in all_channels().iter() {
        for &value in &[0u32, 1, 0x0fff_ffff, 0x0800_0000, 0x0012_3456] {
            let mut regs = block(0, 0, 0, 0);
            assert!(Mailbox.write_message(&mut regs, channel, value));
            let word = regs.write.write.read();
            assert_eq!(word & 0xf, channel.id());
            let back = block(word, 0, 0, 0);
            assert_eq!(Mailbox.read_message(&back, channel), Some(value));
            for &other in all_channels().iter() {
                if other.id() != channel.id() {
                    assert_eq!(Mailbox.read_message(&back, other), None);
                }
            }
        }
    }
}

#[test]
fn buffer_value_of_aligned_address() {
    assert_eq!(buffer_value(0).unwrap(), 0);
    assert_eq!(buffer_value(16).unwrap(), 1);
    assert_eq!(buffer_value(0x0008_0000).unwrap(), 0x8000);
    assert_eq!(buffer_value(0xffff_fff0).unwrap(), 0x0fff_ffff);
}

#[test]
fn buffer_value_rejects_unaligned_address() {
    for low in 1..16u32 {
        let e = buffer_value(0x0008_0000 + low).unwrap_err();
        assert_eq!(e.address, 0x0008_0000 + low);
    }
    assert_eq!(buffer_value(8).unwrap_err().address, 8);
}

#[test]
fn buffer_value_then_doorbell_is_address_with_channel() {
    let address = 0x0123_4560u32;
    let value = buffer_value(address).unwrap();
    let mut regs = block(0, 0, 0, 0);
    assert!(Mailbox.write_message(&mut regs, Channel::TagsArmToVC, value));
    assert_eq!(regs.write.write.read(), address | 8);
}
