//! The property protocol client: one request/response exchange with the
//! firmware over the property channel, as a state machine. The caller owns the
//! hardware: it performs each action the machine asks for (poll the status
//! register, hand over the message, read the data register, read the message
//! back) and feeds the observation back in as an event.
use vstd::prelude::*;
use crate::mailbox::{mail_word, MailMessage, MailStatus, MailboxChannel};
use crate::property::{
    build_property_message_buffer, message_fits, message_words, BufferRequestResultCode,
    PropertyMessage,
};

verus! {

/// Why an exchange did not yield a successful response.
#[derive(Clone, Copy, Debug, PartialEq, Eq, Structural)]
pub enum ExchangeError {
    /// The firmware handed the message back still marked as a request.
    Unprocessed,
    /// The firmware reported that it could not serve the request.
    Firmware,
    /// The header carried a code outside the protocol: the firmware contract
    /// is broken and no safe continuation exists.
    Decoding(u32),
    /// The status register stayed busy for longer than the wait policy allows.
    TimedOut,
    /// An observation arrived that the current step did not ask for.
    OutOfOrder,
}

/// How long to keep polling a busy status register.
#[derive(Clone, Copy, Debug, PartialEq, Eq, Structural)]
pub enum WaitPolicy {
    /// Poll for as long as it takes, as the firmware contract assumes.
    Unbounded,
    /// Give up after this many unsuccessful polls over the whole exchange.
    Bounded(u64),
}

#[derive(Clone, Copy, Debug, PartialEq, Eq, Structural)]
pub enum ExchangePhase {
    /// Waiting for room in the mailbox to hand over the message.
    AwaitSendSlot,
    /// The message is being handed over.
    AwaitSent,
    /// Waiting for a word to read.
    AwaitReply,
    /// Reading the data register.
    AwaitReplyWord,
    /// Reading the message back from shared memory.
    AwaitResponse,
    /// The message has come back.
    Complete,
    Failed(ExchangeError),
}

/// What the caller observed after performing the last action.
#[derive(Debug)]
pub enum MailboxEvent {
    Status(u32),
    Sent,
    Data(u32),
    Response(Vec<u32>),
}

/// What the caller is asked to do next.
#[derive(Clone, Copy, Debug, PartialEq, Eq, Structural)]
pub enum MailboxAction {
    /// Read the status register and report it.
    ReadStatus,
    /// Copy the message to the shared memory, write this word to the data
    /// register, and report `Sent`.
    Send(u32),
    /// Read the data register and report it.
    ReadData,
    /// Read this many words of shared memory back and report them.
    ReadResponse(usize),
    /// The exchange is over: see `outcome`.
    Stop,
}

/// One unsuccessful poll: the remaining budget afterwards, or `None` when it
/// is spent.
pub open spec fn spend_poll(remaining: Option<u64>) -> Option<Option<u64>> {
    match remaining {
        None => Some(None),
        Some(n) => if n == 0 {
            None
        } else {
            Some(Some((n - 1) as u64))
        },
    }
}

/// The classification of a message the firmware handed back.
pub open spec fn classify(buffer: Seq<u32>) -> Result<Seq<u32>, ExchangeError> {
    match BufferRequestResultCode::spec_from_code(buffer[1]) {
        Some(BufferRequestResultCode::ResponseSuccess) => Ok(buffer),
        Some(BufferRequestResultCode::ResponseError) => Err(ExchangeError::Firmware),
        Some(BufferRequestResultCode::Request) => Err(ExchangeError::Unprocessed),
        None => Err(ExchangeError::Decoding(buffer[1])),
    }
}

/// Turns a message read back from the firmware into its outcome:
/// the whole message on success, a protocol fault otherwise.
pub fn classify_response(buffer: &[u32]) -> (r: Result<Vec<u32>, ExchangeError>)
    requires
        buffer@.len() >= 2,
    ensures
        match r {
            Ok(v) => classify(buffer@) == Ok::<Seq<u32>, ExchangeError>(v@),
            Err(e) => classify(buffer@) == Err::<Seq<u32>, ExchangeError>(e),
        },
{
    match BufferRequestResultCode::from_buffer_data(buffer) {
        Some(BufferRequestResultCode::ResponseSuccess) => {
            let mut v: Vec<u32> = Vec::new();
            let mut i: usize = 0;
            while i < buffer.len()
                invariant
                    0 <= i <= buffer@.len(),
                    v@ == buffer@.take(i as int),
                decreases buffer@.len() - i,
            {
                v.push(buffer[i]);
                proof {
                    assert(buffer@.take(i + 1) =~= buffer@.take(i as int).push(buffer@[i as int]));
                }
                i = i + 1;
            }
            assert(buffer@.take(buffer@.len() as int) =~= buffer@);
            Ok(v)
        },
        Some(BufferRequestResultCode::ResponseError) => Err(ExchangeError::Firmware),
        Some(BufferRequestResultCode::Request) => Err(ExchangeError::Unprocessed),
        None => Err(ExchangeError::Decoding(buffer[1])),
    }
}

/// One property exchange in progress.
pub struct PropertyExchange {
    /// The request message, replaced by the response once it has been read
    /// back.
    pub message: Vec<u32>,
    /// The word that hands the message to the firmware.
    pub word: u32,
    /// Polls left before giving up; `None` for no limit.
    pub remaining: Option<u64>,
    pub phase: ExchangePhase,
}

impl PropertyExchange {
    pub open spec fn wf(self) -> bool {
        self.message@.len() >= 2
    }

    /// The phase and poll budget after a poll that found the register busy.
    pub open spec fn after_busy_poll(
        self,
        waiting: ExchangePhase,
    ) -> (ExchangePhase, Option<u64>, MailboxAction) {
        match spend_poll(self.remaining) {
            Some(left) => (waiting, left, MailboxAction::ReadStatus),
            None => (
                ExchangePhase::Failed(ExchangeError::TimedOut),
                self.remaining,
                MailboxAction::Stop,
            ),
        }
    }

    /// The next phase, poll budget and action after `event`.
    pub open spec fn spec_step(self, event: MailboxEvent) -> (
        ExchangePhase,
        Option<u64>,
        MailboxAction,
    ) {
        let out_of_order = (
            ExchangePhase::Failed(ExchangeError::OutOfOrder),
            self.remaining,
            MailboxAction::Stop,
        );
        match (self.phase, event) {
            (ExchangePhase::AwaitSendSlot, MailboxEvent::Status(s)) => {
                if !MailStatus::spec_from_word(s).full {
                    (ExchangePhase::AwaitSent, self.remaining, MailboxAction::Send(self.word))
                } else {
                    self.after_busy_poll(ExchangePhase::AwaitSendSlot)
                }
            },
            (ExchangePhase::AwaitSent, MailboxEvent::Sent) => {
                (ExchangePhase::AwaitReply, self.remaining, MailboxAction::ReadStatus)
            },
            (ExchangePhase::AwaitReply, MailboxEvent::Status(s)) => {
                if !MailStatus::spec_from_word(s).empty {
                    (ExchangePhase::AwaitReplyWord, self.remaining, MailboxAction::ReadData)
                } else {
                    self.after_busy_poll(ExchangePhase::AwaitReply)
                }
            },
            (ExchangePhase::AwaitReplyWord, MailboxEvent::Data(w)) => {
                if MailMessage::spec_from_word(w).channel
                    == MailboxChannel::Property.spec_number() {
                    (
                        ExchangePhase::AwaitResponse,
                        self.remaining,
                        MailboxAction::ReadResponse(self.message@.len() as usize),
                    )
                } else {
                    (ExchangePhase::AwaitReply, self.remaining, MailboxAction::ReadStatus)
                }
            },
            (ExchangePhase::AwaitResponse, MailboxEvent::Response(v)) => {
                if v@.len() == self.message@.len() {
                    (ExchangePhase::Complete, self.remaining, MailboxAction::Stop)
                } else {
                    out_of_order
                }
            },
            _ => out_of_order,
        }
    }

    /// Starts the exchange of a batch of tags through the message area at
    /// `scratch_address`. The first action is to poll the status register.
    pub fn new(properties: &[PropertyMessage], scratch_address: u32, policy: WaitPolicy) -> (r:
        PropertyExchange)
        requires
            message_fits(properties@),
            scratch_address % 16 == 0,
        ensures
            r.wf(),
            r.message@ == message_words(properties@),
            r.word == scratch_address + MailboxChannel::Property.spec_number(),
            r.phase == ExchangePhase::AwaitSendSlot,
            r.remaining == (match policy {
                WaitPolicy::Unbounded => None,
                WaitPolicy::Bounded(n) => Some(n),
            }),
    {
        let message = build_property_message_buffer(properties);
        let word = mail_word(scratch_address, MailboxChannel::Property);
        let remaining = match policy {
            WaitPolicy::Unbounded => None,
            WaitPolicy::Bounded(n) => Some(n),
        };
        PropertyExchange { message, word, remaining, phase: ExchangePhase::AwaitSendSlot }
    }

    fn busy_poll(&mut self, waiting: ExchangePhase) -> (r: MailboxAction)
        ensures
            (final(self).phase, final(self).remaining, r) == old(self).after_busy_poll(waiting),
            final(self).message == old(self).message,
            final(self).word == old(self).word,
    {
        match self.remaining {
            None => {
                self.phase = waiting;
                MailboxAction::ReadStatus
            },
            Some(n) => {
                if n == 0 {
                    self.phase = ExchangePhase::Failed(ExchangeError::TimedOut);
                    MailboxAction::Stop
                } else {
                    self.remaining = Some(n - 1);
                    self.phase = waiting;
                    MailboxAction::ReadStatus
                }
            },
        }
    }

    /// Advances the exchange by what the caller observed, and says what to do
    /// next. A response read back replaces the request message.
    pub fn step(&mut self, event: MailboxEvent) -> (r: MailboxAction)
        requires
            old(self).wf(),
        ensures
            final(self).wf(),
            (final(self).phase, final(self).remaining, r) == old(self).spec_step(event),
            final(self).word == old(self).word,
            final(self).message@ == (match (old(self).phase, event) {
                (ExchangePhase::AwaitResponse, MailboxEvent::Response(v)) => if v@.len()
                    == old(self).message@.len() {
                    v@
                } else {
                    old(self).message@
                },
                _ => old(self).message@,
            }),
    {
        let phase = self.phase;
        match (phase, event) {
            (ExchangePhase::AwaitSendSlot, MailboxEvent::Status(s)) => {
                if !MailStatus::from(s).full {
                    self.phase = ExchangePhase::AwaitSent;
                    MailboxAction::Send(self.word)
                } else {
                    self.busy_poll(ExchangePhase::AwaitSendSlot)
                }
            },
            (ExchangePhase::AwaitSent, MailboxEvent::Sent) => {
                self.phase = ExchangePhase::AwaitReply;
                MailboxAction::ReadStatus
            },
            (ExchangePhase::AwaitReply, MailboxEvent::Status(s)) => {
                if !MailStatus::from(s).empty {
                    self.phase = ExchangePhase::AwaitReplyWord;
                    MailboxAction::ReadData
                } else {
                    self.busy_poll(ExchangePhase::AwaitReply)
                }
            },
            (ExchangePhase::AwaitReplyWord, MailboxEvent::Data(w)) => {
                let reply = MailMessage::from(w);
                if reply.channel as u32 == MailboxChannel::Property.number() {
                    self.phase = ExchangePhase::AwaitResponse;
                    MailboxAction::ReadResponse(self.message.len())
                } else {
                    self.phase = ExchangePhase::AwaitReply;
                    MailboxAction::ReadStatus
                }
            },
            (ExchangePhase::AwaitResponse, MailboxEvent::Response(v)) => {
                if v.len() == self.message.len() {
                    self.message = v;
                    self.phase = ExchangePhase::Complete;
                } else {
                    self.phase = ExchangePhase::Failed(ExchangeError::OutOfOrder);
                }
                MailboxAction::Stop
            },
            _ => {
                self.phase = ExchangePhase::Failed(ExchangeError::OutOfOrder);
                MailboxAction::Stop
            },
        }
    }

    /// The outcome of a finished exchange: the response message when the
    /// firmware reports success, the protocol fault otherwise.
    pub fn outcome(&self) -> (r: Result<Vec<u32>, ExchangeError>)
        requires
            self.wf(),
            self.phase is Complete || self.phase is Failed,
        ensures
            match self.phase {
                ExchangePhase::Failed(e) => r == Err::<Vec<u32>, ExchangeError>(e),
                _ => match r {
                    Ok(v) => classify(self.message@) == Ok::<Seq<u32>, ExchangeError>(v@),
                    Err(e) => classify(self.message@) == Err::<Seq<u32>, ExchangeError>(e),
                },
            },
    {
        match self.phase {
            ExchangePhase::Failed(e) => Err(e),
            _ => classify_response(self.message.as_slice()),
        }
    }
}

} // verus!
