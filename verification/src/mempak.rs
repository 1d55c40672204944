//! Memory card transactions: the block checksum and the classification of
//! what the accessory answers.
//!
//! A transaction moves one block of 32 bytes. The accessory adds to a block it
//! sends, and answers to a block it receives, one checksum byte: the
//! remainder of the block, taken as a polynomial and followed by eight zero
//! bits, modulo the polynomial 0x185.

use vstd::prelude::*;
use crate::controller::MempakError;

verus! {

/// Number of bytes in one block of a memory card.
pub const BLOCK_SIZE: usize = 32;

/// Whether bit `index` of `byte` is set, counted from the lowest bit.
pub open spec fn spec_bit_of(byte: u8, index: nat) -> bool {
    (byte >> index) & 1 == 1
}

/// The checksum register after one more bit of the message.
pub open spec fn spec_checksum_step(crc: u8, bit: bool) -> u8 {
    let low: u8 = if bit {
        1
    } else {
        0
    };
    let shifted: u8 = (crc << 1) | low;
    if crc & 0x80 != 0 {
        shifted ^ 0x85
    } else {
        shifted
    }
}

/// The checksum register after the `count` highest bits of `byte`, highest
/// first.
pub open spec fn spec_checksum_feed(crc: u8, byte: u8, count: nat) -> u8
    decreases count,
{
    if count == 0 {
        crc
    } else {
        spec_checksum_step(
            spec_checksum_feed(crc, byte, (count - 1) as nat),
            spec_bit_of(byte, (8 - count) as nat),
        )
    }
}

/// The checksum register after the first `count` bytes of `data`.
pub open spec fn spec_checksum_prefix(data: Seq<u8>, count: nat) -> u8
    decreases count,
{
    if count == 0 {
        0
    } else {
        spec_checksum_feed(
            spec_checksum_prefix(data, (count - 1) as nat),
            data[count - 1],
            8,
        )
    }
}

/// The checksum of a block: the register after all of its bytes and one
/// closing zero byte.
pub open spec fn spec_data_checksum(data: Seq<u8>) -> u8 {
    spec_checksum_feed(spec_checksum_prefix(data, data.len()), 0, 8)
}

/// Whether a transaction may name this port and address: the port is one of
/// the four, and the address is the start of a block.
pub open spec fn spec_address_valid(controller: i32, address: u16) -> bool {
    0 <= controller < 4 && address % 32 == 0
}

fn checksum_step(crc: u8, bit: bool) -> (next: u8)
    ensures
        next == spec_checksum_step(crc, bit),
{
    let low: u8 = if bit {
        1
    } else {
        0
    };
    let shifted: u8 = (crc << 1) | low;
    if crc & 0x80 != 0 {
        shifted ^ 0x85
    } else {
        shifted
    }
}

fn checksum_feed(crc: u8, byte: u8) -> (next: u8)
    ensures
        next == spec_checksum_feed(crc, byte, 8),
{
    let mut register: u8 = crc;
    let mut count: u8 = 0;
    while count < 8
        invariant
            count <= 8,
            register == spec_checksum_feed(crc, byte, count as nat),
        decreases 8 - count,
    {
        let bit: bool = (byte >> (7 - count)) & 1 == 1;
        register = checksum_step(register, bit);
        count += 1;
    }
    register
}

/// Computes the checksum of one block.
pub fn data_checksum(data: &[u8; 32]) -> (checksum: u8)
    ensures
        checksum == spec_data_checksum(data@),
{
    let mut register: u8 = 0;
    let mut count: usize = 0;
    while count < 32
        invariant
            count <= 32,
            register == spec_checksum_prefix(data@, count as nat),
        decreases 32 - count,
    {
        register = checksum_feed(register, data[count]);
        count += 1;
    }
    checksum_feed(register, 0)
}

/// What the driver hands back after it asked an accessory for one block.
#[derive(Clone, Copy, Debug, PartialEq, Eq)]
pub struct MempakReadReply {
    /// The driver's status code for the transfer.
    pub status: i32,
    /// The block that the accessory sent.
    pub data: [u8; 32],
    /// The checksum that the accessory sent after the block.
    pub checksum: u8,
}

/// What the driver hands back after it sent an accessory one block.
#[derive(Clone, Copy, Debug, PartialEq, Eq, Structural)]
pub struct MempakWriteReply {
    /// The driver's status code for the transfer.
    pub status: i32,
    /// The checksum that the accessory computed over what it received.
    pub checksum: u8,
}

/// How the read of one block ends. A port or address that no transaction
/// may name is out of range, whatever the reply holds; else the driver's
/// status decides, unless it is success; else the block must match the
/// checksum sent with it, and is the result.
pub open spec fn spec_read_outcome(controller: i32, address: u16, reply: MempakReadReply) -> Result<
    [u8; 32],
    MempakError,
> {
    if !spec_address_valid(controller, address) {
        Err(MempakError::OutOfRange)
    } else if MempakError::spec_from_status(reply.status) != MempakError::NoError {
        Err(MempakError::spec_from_status(reply.status))
    } else if reply.checksum != spec_data_checksum(reply.data@) {
        Err(MempakError::InvalidData)
    } else {
        Ok(reply.data)
    }
}

/// How the write of one block ends. A port or address that no transaction
/// may name is out of range, whatever the reply holds; else the driver's
/// status decides, unless it is success; else the accessory must have
/// echoed the checksum of the block that was sent.
pub open spec fn spec_write_outcome(
    controller: i32,
    address: u16,
    data: [u8; 32],
    reply: MempakWriteReply,
) -> Result<(), MempakError> {
    if !spec_address_valid(controller, address) {
        Err(MempakError::OutOfRange)
    } else if MempakError::spec_from_status(reply.status) != MempakError::NoError {
        Err(MempakError::spec_from_status(reply.status))
    } else if reply.checksum != spec_data_checksum(data@) {
        Err(MempakError::InvalidData)
    } else {
        Ok(())
    }
}

/// Decides, before any transfer, whether a transaction may name this port
/// and address.
pub fn check_address(controller: i32, address: u16) -> (checked: Result<(), MempakError>)
    ensures
        checked == if spec_address_valid(controller, address) {
            Ok::<(), MempakError>(())
        } else {
            Err::<(), MempakError>(MempakError::OutOfRange)
        },
{
    if 0 <= controller && controller < 4 && address % 32 == 0 {
        Ok(())
    } else {
        Err(MempakError::OutOfRange)
    }
}

/// What a card that works answers to the write of `data`: success, and the
/// checksum of what it received.
pub open spec fn spec_card_write_reply(data: [u8; 32]) -> MempakWriteReply {
    MempakWriteReply { status: 0, checksum: spec_data_checksum(data@) }
}

/// What a card that works answers to the read of the block at `address`:
/// success, the block it holds there, and the checksum of that block.
pub open spec fn spec_card_read_reply(card: Map<u16, [u8; 32]>, address: u16) -> MempakReadReply {
    MempakReadReply {
        status: 0,
        data: card[address],
        checksum: spec_data_checksum(card[address]@),
    }
}

/// A block written to a card that works is read back byte for byte. Read
/// a block, write `data` to the same address, and read again: the first
/// read returns what the card held, the write succeeds, and the second
/// read, on the card as the write left it, returns `data`, whatever the
/// card held there before.
pub proof fn lemma_write_then_read_returns_block(
    card: Map<u16, [u8; 32]>,
    controller: i32,
    address: u16,
    data: [u8; 32],
)
    requires
        spec_address_valid(controller, address),
    ensures
        spec_read_outcome(controller, address, spec_card_read_reply(card, address)) == Ok::<
            [u8; 32],
            MempakError,
        >(card[address]),
        spec_write_outcome(controller, address, data, spec_card_write_reply(data)) == Ok::<
            (),
            MempakError,
        >(()),
        spec_read_outcome(
            controller,
            address,
            spec_card_read_reply(card.insert(address, data), address),
        ) == Ok::<[u8; 32], MempakError>(data),
{
}

/// A reply whose checksum is not that of its block is invalid data, and
/// never a success: for a read on every reply that reports success, for a
/// write on every echo that reports success.
pub proof fn lemma_corrupted_checksum_is_invalid_data(
    controller: i32,
    address: u16,
    data: [u8; 32],
    read_reply: MempakReadReply,
    write_reply: MempakWriteReply,
)
    requires
        spec_address_valid(controller, address),
    ensures
        read_reply.status == 0 && read_reply.checksum != spec_data_checksum(read_reply.data@)
            ==> spec_read_outcome(controller, address, read_reply) == Err::<
            [u8; 32],
            MempakError,
        >(MempakError::InvalidData),
        write_reply.status == 0 && write_reply.checksum != spec_data_checksum(data@)
            ==> spec_write_outcome(controller, address, data, write_reply) == Err::<
            (),
            MempakError,
        >(MempakError::InvalidData),
{
}

/// An address that is not the start of a block is out of range for a read
/// and for a write, whatever the reply holds: the decision needs no
/// transfer.
pub proof fn lemma_misaligned_address_is_out_of_range(
    controller: i32,
    address: u16,
    data: [u8; 32],
    read_reply: MempakReadReply,
    write_reply: MempakWriteReply,
)
    requires
        address % 32 != 0,
    ensures
        spec_read_outcome(controller, address, read_reply) == Err::<[u8; 32], MempakError>(
            MempakError::OutOfRange,
        ),
        spec_write_outcome(controller, address, data, write_reply) == Err::<(), MempakError>(
            MempakError::OutOfRange,
        ),
{
}

} // verus!
