use vstd::prelude::*;

use crate::segment::EngineError;

use autd3::driver::error::AUTDDriverError as DriverError;
use autd3::driver::firmware::cpu::check_firmware_err;

verus! {

/// The highest message id; ids count up to it and wrap to zero.
pub const MSG_ID_MAX: u8 = 0x0F;

/// Firmware code of a message that was refused for its id.
pub const ERR_INVALID_MESSAGE_ID: u8 = 0x02;

/// What a device acknowledges: the id of the message it processed last and
/// an error code, four bits each.
#[derive(Clone, Copy, Debug, PartialEq, Eq, Structural)]
pub struct AckReport {
    pub msg_id: u8,
    pub err: u8,
}

/// Why a device refused a message.
#[derive(Clone, Copy, Debug, PartialEq, Eq, Structural)]
pub enum FirmwareFault {
    /// The request itself is refused by the segment engine; never retried.
    Engine(EngineError),
    /// A fault of the exchange (an id mismatch, an unknown tag, a fault flag,
    /// no answer in time); the message may be sent again.
    Transport,
}

/// Whether an acknowledgement tells that the message was processed: it names
/// the message, or it refuses the message's id.
pub open spec fn acknowledges(msg_id: u8, ack: AckReport) -> bool {
    msg_id == ack.msg_id % 16 || ack.err % 16 == ERR_INVALID_MESSAGE_ID
}

/// The fault that an error code stands for.
pub open spec fn fault_of_code(code: u8) -> Option<FirmwareFault> {
    if code == 0 {
        None
    } else if code == 5 {
        Some(FirmwareFault::Engine(EngineError::InvalidSegmentTransition))
    } else if code == 6 {
        Some(FirmwareFault::Engine(EngineError::MissTransitionTime))
    } else if code == 7 {
        Some(FirmwareFault::Engine(EngineError::InvalidSilencerSettings))
    } else if code == 8 {
        Some(FirmwareFault::Engine(EngineError::InvalidTransitionMode))
    } else {
        Some(FirmwareFault::Transport)
    }
}

/// The fault of the first acknowledgement that carries one.
pub open spec fn first_fault(acks: Seq<AckReport>) -> Option<FirmwareFault>
    decreases acks.len(),
{
    if acks.len() == 0 {
        None
    } else if fault_of_code(acks[0].err % 16) is Some {
        fault_of_code(acks[0].err % 16)
    } else {
        first_fault(acks.drop_first())
    }
}

/// The id that follows `id`.
pub open spec fn next_id(id: u8) -> u8 {
    if id >= MSG_ID_MAX {
        0
    } else {
        (id + 1) as u8
    }
}

/// Relies on autd3's `check_if_msg_is_processed`: one flag per device, set
/// where the acknowledgement names the message or refuses its id.
#[verifier::external_body]
fn processed_flags(msg_id: u8, acks: &Vec<AckReport>) -> (r: Vec<bool>)
    ensures
        r@.len() == acks@.len(),
        forall|i: int| 0 <= i < acks@.len() ==> r@[i] == acknowledges(msg_id, #[trigger] acks@[i]),
{
    let rx: Vec<autd3::core::link::RxMessage> = acks
        .iter()
        .map(|a| autd3::core::link::RxMessage::new(0, autd3::core::link::Ack::new(a.msg_id, a.err)))
        .collect();
    autd3::driver::firmware::cpu::check_if_msg_is_processed(autd3::core::link::MsgId::new(msg_id), &rx)
        .collect()
}

/// Relies on autd3's `check_firmware_err`: the error that an acknowledgement's
/// code stands for.
#[verifier::external_body]
fn firmware_fault(ack: AckReport) -> (r: Option<FirmwareFault>)
    ensures
        r == fault_of_code(ack.err % 16),
{
    match check_firmware_err(autd3::core::link::Ack::new(ack.msg_id, ack.err)) {
        Ok(()) => None,
        Err(DriverError::InvalidSegmentTransition) => Some(FirmwareFault::Engine(EngineError::InvalidSegmentTransition)),
        Err(DriverError::MissTransitionTime) => Some(FirmwareFault::Engine(EngineError::MissTransitionTime)),
        Err(DriverError::InvalidSilencerSettings) => Some(FirmwareFault::Engine(EngineError::InvalidSilencerSettings)),
        Err(DriverError::InvalidTransitionMode) => Some(FirmwareFault::Engine(EngineError::InvalidTransitionMode)),
        Err(DriverError::NotSupportedTag) => Some(FirmwareFault::Transport),
        Err(DriverError::InvalidMessageID) => Some(FirmwareFault::Transport),
        Err(DriverError::InvalidInfoType) => Some(FirmwareFault::Transport),
        Err(DriverError::InvalidGainSTMMode) => Some(FirmwareFault::Transport),
        Err(DriverError::UnknownFirmwareError(_)) => Some(FirmwareFault::Transport),
        Err(_) => Some(FirmwareFault::Transport),
    }
}

/// The id that follows `id`, wrapping after the highest one.
pub fn increment_msg_id(id: u8) -> (r: u8)
    ensures
        r == next_id(id),
{
    if id >= MSG_ID_MAX {
        0
    } else {
        id + 1
    }
}

/// Where an exchange stands after a round of acknowledgements.
#[derive(Clone, Copy, Debug, PartialEq, Eq, Structural)]
pub enum AckOutcome {
    /// Some device has not processed the message yet.
    Waiting,
    /// Every device processed it; the first fault, if any.
    Done(Option<FirmwareFault>),
}

/// Reads one round of acknowledgements, one per device, for a message.
pub fn settle(msg_id: u8, acks: &Vec<AckReport>) -> (r: AckOutcome)
    ensures
        (forall|i: int| 0 <= i < acks@.len() ==> acknowledges(msg_id, #[trigger] acks@[i])) ==> r
            == AckOutcome::Done(first_fault(acks@)),
        !(forall|i: int| 0 <= i < acks@.len() ==> acknowledges(msg_id, #[trigger] acks@[i])) ==> r
            == AckOutcome::Waiting,
{
    let flags = processed_flags(msg_id, acks);
    let mut i: usize = 0;
    while i < flags.len()
        invariant
            flags@.len() == acks@.len(),
            forall|j: int| 0 <= j < acks@.len() ==> flags@[j] == acknowledges(msg_id, #[trigger] acks@[j]),
            i <= flags@.len(),
            forall|j: int| 0 <= j < i ==> acknowledges(msg_id, #[trigger] acks@[j]),
        decreases flags@.len() - i,
    {
        if !flags[i] {
            assert(!acknowledges(msg_id, acks@[i as int]));
            return AckOutcome::Waiting;
        }
        i = i + 1;
    }
    let mut k: usize = 0;
    assert(acks@.subrange(0, acks@.len() as int) =~= acks@);
    while k < acks.len()
        invariant
            k <= acks@.len(),
            forall|j: int| 0 <= j < acks@.len() ==> acknowledges(msg_id, #[trigger] acks@[j]),
            first_fault(acks@) == first_fault(acks@.subrange(k as int, acks@.len() as int)),
        decreases acks@.len() - k,
    {
        let ghost rest = acks@.subrange(k as int, acks@.len() as int);
        assert(rest[0] == acks@[k as int]);
        assert(rest.drop_first() =~= acks@.subrange(k + 1, acks@.len() as int));
        if let Some(f) = firmware_fault(acks[k]) {
            return AckOutcome::Done(Some(f));
        }
        k = k + 1;
    }
    assert(acks@.subrange(k as int, acks@.len() as int).len() == 0);
    AckOutcome::Done(None)
}

/// A message in flight: its id and how many more times it may be sent again.
#[derive(Clone, Copy, Debug, PartialEq, Eq, Structural)]
pub struct Exchange {
    pub msg_id: u8,
    pub retries_left: u32,
}

/// What the caller does next.
#[derive(Clone, Copy, Debug, PartialEq, Eq, Structural)]
pub enum Step {
    /// Receive again.
    Poll,
    /// Send the message again under the new id.
    Resend { msg_id: u8 },
    /// Report the outcome: the fault, if any.
    Finish(Option<FirmwareFault>),
}

impl Exchange {
    /// The next state and step after a transport fault: sent again under the
    /// next id while retries are left, else reported.
    pub open spec fn spec_after_fault(self) -> (Exchange, Step) {
        if self.retries_left > 0 {
            (
                Exchange { msg_id: next_id(self.msg_id), retries_left: (self.retries_left - 1) as u32 },
                Step::Resend { msg_id: next_id(self.msg_id) },
            )
        } else {
            (self, Step::Finish(Some(FirmwareFault::Transport)))
        }
    }

    fn after_fault(self) -> (r: (Exchange, Step))
        requires
            self.msg_id <= MSG_ID_MAX,
        ensures
            r == self.spec_after_fault(),
    {
        if self.retries_left > 0 {
            let id = increment_msg_id(self.msg_id);
            (Exchange { msg_id: id, retries_left: self.retries_left - 1 }, Step::Resend { msg_id: id })
        } else {
            (self, Step::Finish(Some(FirmwareFault::Transport)))
        }
    }

    /// Decides on a round of acknowledgements: poll again while some device
    /// has not processed the message, send it again after a transport fault
    /// while retries are left, and otherwise report what the devices said.
    /// A refusal by the segment engine is reported at once.
    pub fn on_acks(self, acks: &Vec<AckReport>) -> (r: (Exchange, Step))
        requires
            self.msg_id <= MSG_ID_MAX,
        ensures
            r.0.msg_id <= MSG_ID_MAX,
            r.0.retries_left <= self.retries_left,
            ({
                let all = forall|i: int|
                    0 <= i < acks@.len() ==> acknowledges(self.msg_id, #[trigger] acks@[i]);
                &&& !all ==> r == (self, Step::Poll)
                &&& all && first_fault(acks@) is None ==> r == (self, Step::Finish(None))
                &&& all && first_fault(acks@) is Some && first_fault(acks@)->Some_0 is Engine ==> r
                    == (self, Step::Finish(first_fault(acks@)))
                &&& all && first_fault(acks@) == Some(FirmwareFault::Transport) ==> r
                    == self.spec_after_fault()
            }),
    {
        match settle(self.msg_id, acks) {
            AckOutcome::Waiting => (self, Step::Poll),
            AckOutcome::Done(None) => (self, Step::Finish(None)),
            AckOutcome::Done(Some(FirmwareFault::Engine(e))) => (
                self,
                Step::Finish(Some(FirmwareFault::Engine(e))),
            ),
            AckOutcome::Done(Some(FirmwareFault::Transport)) => self.after_fault(),
        }
    }

    /// Decides when no answer came in time: a transport fault.
    pub fn on_timeout(self) -> (r: (Exchange, Step))
        requires
            self.msg_id <= MSG_ID_MAX,
        ensures
            r == self.spec_after_fault(),
            r.0.msg_id <= MSG_ID_MAX,
    {
        self.after_fault()
    }
}

} // verus!
