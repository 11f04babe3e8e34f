//! The acquisition cycle: who owns the frame buffer, and what one completed
//! transfer makes the application do.

use crate::frame::{decode, frame_text, DecodeOutcome, FRAME_LEN};
use vstd::prelude::*;

verus! {

/// The owner of the frame buffer. There is one buffer and it has one owner.
#[derive(Clone, Copy, Debug, PartialEq, Eq, Structural)]
pub enum Owner {
    /// Idle: the application may read the buffer and arm a transfer.
    Application,
    /// In flight: the DMA engine is filling the buffer.
    Hardware,
}

/// A transition that the current owner of the buffer does not allow.
#[derive(Clone, Copy, Debug, PartialEq, Eq, Structural)]
pub enum ProtocolError {
    /// A transfer is already in flight, so no other can be armed.
    TransferPending,
    /// No transfer is in flight, so none can complete.
    NoTransferPending,
}

/// One thing the application does after a transfer has completed.
#[derive(Debug)]
pub enum Step {
    /// Log the bytes as they were received.
    RawBytes([u8; 14]),
    /// Toggle the indicator.
    ToggleIndicator,
    /// Log that decoding starts.
    Decoding,
    /// Log the rendering of the decoded frame.
    Rendered(String),
    /// Log that the cycle is over.
    After,
}

/// A step as a mathematical value.
pub enum StepModel {
    RawBytes(Seq<u8>),
    ToggleIndicator,
    Decoding,
    Rendered(Seq<char>),
    After,
}

impl Step {
    pub open spec fn view(&self) -> StepModel {
        match self {
            Step::RawBytes(bytes) => StepModel::RawBytes(bytes@),
            Step::ToggleIndicator => StepModel::ToggleIndicator,
            Step::Decoding => StepModel::Decoding,
            Step::Rendered(text) => StepModel::Rendered(text@),
            Step::After => StepModel::After,
        }
    }
}

/// The steps of a list, each as a mathematical value.
pub open spec fn steps_model(steps: Seq<Step>) -> Seq<StepModel> {
    steps.map_values(|step: Step| step@)
}

/// The steps of one cycle, in order: the raw bytes, the toggle, the decoding
/// marker, the rendered frame if there is one, the closing marker.
pub open spec fn cycle_steps(received: Seq<u8>, outcome: Option<Seq<char>>) -> Seq<StepModel> {
    let head = seq![
        StepModel::RawBytes(received),
        StepModel::ToggleIndicator,
        StepModel::Decoding,
    ];
    match outcome {
        Some(text) => head.push(StepModel::Rendered(text)).push(StepModel::After),
        None => head.push(StepModel::After),
    }
}

/// Builds the steps that report one cycle from the received bytes and the
/// outcome of decoding them.
pub fn report_cycle(received: &[u8; 14], outcome: DecodeOutcome) -> (steps: Vec<Step>)
    ensures
        steps_model(steps@) =~= cycle_steps(received@, outcome@),
{
    let mut steps: Vec<Step> = Vec::new();
    steps.push(Step::RawBytes(*received));
    steps.push(Step::ToggleIndicator);
    steps.push(Step::Decoding);
    match outcome {
        DecodeOutcome::DecodedFrame(frame) => {
            steps.push(Step::Rendered(frame.into_rendered()));
        },
        DecodeOutcome::NotAFrame => {},
    }
    steps.push(Step::After);
    steps
}

/// The acquisition state as a mathematical value.
pub struct AcquisitionModel {
    /// The bytes of the buffer as the application last saw them.
    pub buffer: Seq<u8>,
    pub owner: Owner,
    pub indicator_high: bool,
}

/// The state after a transfer has been armed: the hardware owns the buffer.
pub open spec fn armed(state: AcquisitionModel) -> AcquisitionModel {
    AcquisitionModel { owner: Owner::Hardware, ..state }
}

/// The state after a transfer has completed with the given bytes: the
/// application owns the filled buffer and the indicator has changed.
pub open spec fn completed(state: AcquisitionModel, received: Seq<u8>) -> AcquisitionModel {
    AcquisitionModel {
        buffer: received,
        owner: Owner::Application,
        indicator_high: !state.indicator_high,
    }
}

/// The state after one cycle per received frame, each armed and completed.
pub open spec fn after_cycles(state: AcquisitionModel, frames: Seq<Seq<u8>>) -> AcquisitionModel
    decreases frames.len(),
{
    if frames.len() == 0 {
        state
    } else {
        completed(armed(after_cycles(state, frames.drop_last())), frames.last())
    }
}

/// The single frame buffer with its owner, and the indicator.
#[derive(Debug)]
pub struct Acquisition {
    buffer: [u8; 14],
    owner: Owner,
    indicator_high: bool,
}

impl Acquisition {
    pub closed spec fn view(&self) -> AcquisitionModel {
        AcquisitionModel {
            buffer: self.buffer@,
            owner: self.owner,
            indicator_high: self.indicator_high,
        }
    }

    /// The number of transfers in flight.
    pub open spec fn pending_transfers(&self) -> nat {
        match self@.owner {
            Owner::Application => 0,
            Owner::Hardware => 1,
        }
    }

    /// The state at startup: a zeroed buffer owned by the application, the
    /// indicator low.
    pub fn new() -> (acquisition: Self)
        ensures
            acquisition@.buffer =~= Seq::new(FRAME_LEN as nat, |i: int| 0u8),
            acquisition@.owner == Owner::Application,
            !acquisition@.indicator_high,
    {
        Acquisition { buffer: [0u8; 14], owner: Owner::Application, indicator_high: false }
    }

    /// Who owns the buffer now.
    pub fn owner(&self) -> (owner: Owner)
        ensures
            owner == self@.owner,
    {
        self.owner
    }

    /// Whether the indicator is high.
    pub fn indicator_is_high(&self) -> (high: bool)
        ensures
            high == self@.indicator_high,
    {
        self.indicator_high
    }

    /// The buffer, which only its owner may read: `None` while a transfer is
    /// in flight.
    pub fn buffer(&self) -> (bytes: Option<&[u8; 14]>)
        ensures
            self@.owner == Owner::Hardware ==> bytes.is_none(),
            self@.owner == Owner::Application ==> bytes.is_some() && bytes.unwrap()@ == self@.buffer,
    {
        match self.owner {
            Owner::Application => Some(&self.buffer),
            Owner::Hardware => None,
        }
    }

    /// Hands the buffer to the hardware and returns the number of bytes the
    /// transfer must fill. Refused, with nothing changed, while a transfer is
    /// in flight.
    pub fn arm(&mut self) -> (armed_len: Result<usize, ProtocolError>)
        ensures
            old(self)@.owner == Owner::Application ==> (
                armed_len == Ok::<usize, ProtocolError>(FRAME_LEN)
                && final(self)@ == armed(old(self)@)
            ),
            old(self)@.owner == Owner::Hardware ==> (
                armed_len == Err::<usize, ProtocolError>(ProtocolError::TransferPending)
                && final(self)@ == old(self)@
            ),
    {
        match self.owner {
            Owner::Application => {
                self.owner = Owner::Hardware;
                Ok(FRAME_LEN)
            },
            Owner::Hardware => Err(ProtocolError::TransferPending),
        }
    }

    /// Takes the filled buffer back from the hardware, given the outcome of
    /// decoding it: the indicator changes whatever the outcome, and the steps
    /// report the cycle. Refused, with nothing changed, where no transfer is
    /// in flight.
    pub fn complete_with(&mut self, received: [u8; 14], outcome: DecodeOutcome) -> (steps:
        Result<Vec<Step>, ProtocolError>)
        ensures
            old(self)@.owner == Owner::Hardware ==> (
                steps.is_ok()
                && steps_model(steps.unwrap()@) =~= cycle_steps(received@, outcome@)
                && final(self)@ == completed(old(self)@, received@)
            ),
            old(self)@.owner == Owner::Application ==> (
                steps.is_err()
                && steps.unwrap_err() == ProtocolError::NoTransferPending
                && final(self)@ == old(self)@
            ),
    {
        match self.owner {
            Owner::Application => Err(ProtocolError::NoTransferPending),
            Owner::Hardware => {
                let steps = report_cycle(&received, outcome);
                self.buffer = received;
                self.owner = Owner::Application;
                self.indicator_high = !self.indicator_high;
                Ok(steps)
            },
        }
    }

    /// Takes the filled buffer back from the hardware and decodes it. A
    /// buffer that is no frame completes the cycle like any other.
    pub fn complete(&mut self, received: [u8; 14]) -> (steps: Result<Vec<Step>, ProtocolError>)
        ensures
            old(self)@.owner == Owner::Hardware ==> (
                steps.is_ok()
                && steps_model(steps.unwrap()@) =~= cycle_steps(received@, frame_text(received@))
                && final(self)@ == completed(old(self)@, received@)
            ),
            old(self)@.owner == Owner::Application ==> (
                steps.is_err()
                && steps.unwrap_err() == ProtocolError::NoTransferPending
                && final(self)@ == old(self)@
            ),
    {
        match self.owner {
            Owner::Application => Err(ProtocolError::NoTransferPending),
            Owner::Hardware => {
                let outcome = decode(&received);
                self.complete_with(received, outcome)
            },
        }
    }
}

} // verus!
