//! Mailbox transport words: the channel packed into the low nibble of every
//! mailbox word, and the two flags of the status register.
use vstd::prelude::*;

verus! {

/// A logical sub-device on the mailbox bus.
#[derive(Clone, Copy, Debug, PartialEq, Eq, Structural)]
pub enum MailboxChannel {
    Property,
}

impl MailboxChannel {
    pub open spec fn spec_number(self) -> u8 {
        match self {
            MailboxChannel::Property => 8,
        }
    }

    /// The channel's number, as carried in the low four bits of a word.
    pub fn number(&self) -> (r: u32)
        ensures
            r == self.spec_number(),
            r < 16,
    {
        match self {
            MailboxChannel::Property => 8,
        }
    }
}

/// A mailbox word split into its channel (low four bits) and its payload
/// (the upper 28 bits).
#[derive(Clone, Copy, Debug, PartialEq, Eq, Structural)]
pub struct MailMessage {
    pub channel: u8,
    pub data: u32,
}

impl MailMessage {
    pub open spec fn spec_from_word(word: u32) -> MailMessage {
        MailMessage { channel: (word % 16) as u8, data: word / 16 }
    }
}

impl From<u32> for MailMessage {
    fn from(message: u32) -> (r: Self) {
        let channel = (message & 0xF) as u8;
        let data = (message & 0xFFFF_FFF0) >> 4u32;
        proof {
            assert(message & 0xF == message % 16) by (bit_vector);
            assert((message & 0xFFFF_FFF0) >> 4u32 == message / 16) by (bit_vector);
        }
        MailMessage { channel, data }
    }
}

impl vstd::std_specs::convert::FromSpecImpl<u32> for MailMessage {
    open spec fn obeys_from_spec() -> bool {
        true
    }

    open spec fn from_spec(v: u32) -> MailMessage {
        MailMessage::spec_from_word(v)
    }
}

/// The two flags of the mailbox status register.
#[derive(Clone, Copy, Debug, PartialEq, Eq, Structural)]
pub struct MailStatus {
    /// Bit 30: nothing to read.
    pub empty: bool,
    /// Bit 31: no room to write.
    pub full: bool,
}

pub const STATUS_EMPTY_BIT: u32 = 0x4000_0000;

pub const STATUS_FULL_BIT: u32 = 0x8000_0000;

impl MailStatus {
    pub open spec fn spec_from_word(status: u32) -> MailStatus {
        MailStatus { empty: (status / 0x4000_0000) % 2 == 1, full: status >= 0x8000_0000 }
    }
}

impl From<u32> for MailStatus {
    fn from(status: u32) -> (r: Self) {
        let empty = (status & STATUS_EMPTY_BIT) != 0;
        let full = (status & STATUS_FULL_BIT) != 0;
        proof {
            assert(((status & 0x4000_0000) != 0) == ((status / 0x4000_0000) % 2 == 1))
                by (bit_vector);
            assert(((status & 0x8000_0000) != 0) == (status >= 0x8000_0000)) by (bit_vector);
        }
        MailStatus { empty, full }
    }
}

impl vstd::std_specs::convert::FromSpecImpl<u32> for MailStatus {
    open spec fn obeys_from_spec() -> bool {
        true
    }

    open spec fn from_spec(v: u32) -> MailStatus {
        MailStatus::spec_from_word(v)
    }
}

/// The word written to the mailbox to hand the firmware a message: the
/// message's 16-byte aligned address with the channel in its low bits.
pub fn mail_word(address: u32, channel: MailboxChannel) -> (r: u32)
    requires
        address % 16 == 0,
    ensures
        r == address + channel.spec_number(),
        MailMessage::spec_from_word(r).channel == channel.spec_number(),
        MailMessage::spec_from_word(r).data == address / 16,
{
    let number = channel.number();
    let r = address | number;
    proof {
        assert(address % 16 == 0 && number < 16 ==> address | number == address + number)
            by (bit_vector);
    }
    r
}

} // verus!
