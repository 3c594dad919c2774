//! Verified logic for the peripherals of the Raspberry Pi: register words
//! and their bit fields, the mailbox doorbell, and the property-tag messages
//! that travel through it to the firmware.
//!
//! Nothing here touches the hardware. The functions work on the words that a
//! driver has loaded and say which words it has to store; what they compute
//! is stated in their contracts and proved.

pub mod aux;
pub mod gpio;
pub mod mailbox;
pub mod register;
pub mod regop;
pub mod time;
pub mod uart;

use mailbox::list::result_of;
use mailbox::message::{Message, ProtocolError};
use mailbox::tag::{GetArmMemory, GetFirmwareVersion};
use mailbox::tag_res::Ptr;
use mailbox::wire::SUCCESS;
use vstd::prelude::*;

verus! {

/// The number of the core, from the value of its affinity register: the two
/// low bits.
#[inline(always)]
pub fn core_id(mpidr: u64) -> (r: usize)
    ensures
        r == mpidr & 0x3,
        r < 4,
{
    let id = mpidr & 0x3;
    assert(mpidr & 0x3 < 4) by (bit_vector);
    id as usize
}

/// The exception level, from the value of the register that holds it: bits 2
/// and 3.
#[inline(always)]
pub fn execption_level(current_el: u64) -> (r: u8)
    ensures
        r == (current_el >> 2) & 0b11,
        r < 4,
{
    let level = (current_el >> 2) & 0b11;
    assert((current_el >> 2) & 0b11 < 4) by (bit_vector);
    level as u8
}

/// Why a query gave no result.
#[derive(Debug, Clone, Copy)]
pub enum QueryError {
    /// The response did not report success.
    Protocol(ProtocolError),
    /// The response reported success, but the scan of its records reached the
    /// terminator without meeting the record of the tag.
    TagNotFound,
}

/// The outcome of a query for the tag `T` on the buffer `response`.
pub open spec fn answer<T: mailbox::Tag>(response: Seq<u32>) -> Result<T::Res, QueryError> {
    if response.len() >= 2 && response[1] == SUCCESS {
        match result_of::<T>(response) {
            Some(v) => Ok(v),
            None => Err(QueryError::TagNotFound),
        }
    } else {
        Err(
            QueryError::Protocol(
                ProtocolError {
                    code: if response.len() >= 2 {
                        Some(response[1])
                    } else {
                        None
                    },
                },
            ),
        )
    }
}

/// The firmware revision, read from the buffer of a message with the one tag
/// [`GetFirmwareVersion`] after the exchange with the firmware.
pub fn firmware_version(response: Vec<u32>) -> (r: Result<u32, QueryError>)
    ensures
        r == answer::<GetFirmwareVersion>(response@),
{
    match Message::new().with(GetFirmwareVersion).commit(response) {
        Ok(sent) => match sent.results().1 {
            Some(version) => Ok(version),
            None => Err(QueryError::TagNotFound),
        },
        Err(e) => Err(QueryError::Protocol(e)),
    }
}

/// The memory of the processor, read from the buffer of a message with the
/// one tag [`GetArmMemory`] after the exchange with the firmware.
pub fn memory(response: Vec<u32>) -> (r: Result<Ptr, QueryError>)
    ensures
        r == answer::<GetArmMemory>(response@),
{
    match Message::new().with(GetArmMemory).commit(response) {
        Ok(sent) => match sent.results().1 {
            Some(region) => Ok(region),
            None => Err(QueryError::TagNotFound),
        },
        Err(e) => Err(QueryError::Protocol(e)),
    }
}

} // verus!
