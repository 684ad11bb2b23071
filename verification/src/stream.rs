//! PCM streams: their state, their parameters and the requests they hold.

use std::collections::VecDeque;
use vstd::prelude::*;

verus! {

/// Which way the samples of a stream flow, as the guest sees it.
#[derive(Debug, Clone, Copy, PartialEq, Eq, Structural)]
pub enum Direction {
    /// Playback: from the guest to the host.
    Output,
    /// Capture: from the host to the guest.
    Input,
}

/// The last command that a PCM stream went through.
#[derive(Debug, Clone, Copy, PartialEq, Eq, Structural)]
pub enum PCMState {
    SetParameters,
    Prepare,
    Release,
    Start,
    Stop,
}

/// What goes wrong with a single stream.
#[derive(Debug, PartialEq, Eq)]
pub enum Error {
    /// The stream cannot go from the first state to the second.
    InvalidStateTransition(PCMState, PCMState),
    /// The named operation is not possible in this state.
    InvalidState(&'static str, PCMState),
}

/// Whether the PCM command lifecycle lets a stream go from one state to another.
pub open spec fn valid_transition(from: PCMState, to: PCMState) -> bool {
    match to {
        PCMState::SetParameters => from is SetParameters || from is Prepare || from is Release,
        PCMState::Prepare => from is SetParameters || from is Prepare || from is Release,
        PCMState::Start => from is Prepare || from is Stop,
        PCMState::Stop => from is Start,
        PCMState::Release => from is Prepare || from is Stop,
    }
}

/// The state after an attempt to go from one state to another.
pub open spec fn state_after(from: PCMState, to: PCMState) -> PCMState {
    if valid_transition(from, to) {
        to
    } else {
        from
    }
}

/// What an attempt to go from one state to another returns.
pub open spec fn transition_result(from: PCMState, to: PCMState) -> Result<(), Error> {
    if valid_transition(from, to) {
        Ok(())
    } else {
        Err(Error::InvalidStateTransition(from, to))
    }
}

impl PCMState {
    /// Enters `SetParameters`.
    pub fn set_parameters(&mut self) -> (r: Result<(), Error>)
        ensures
            *final(self) == state_after(*old(self), PCMState::SetParameters),
            r == transition_result(*old(self), PCMState::SetParameters),
    {
        match *self {
            PCMState::SetParameters | PCMState::Prepare | PCMState::Release => {
                *self = PCMState::SetParameters;
                Ok(())
            },
            _ => Err(Error::InvalidStateTransition(*self, PCMState::SetParameters)),
        }
    }

    /// Enters `Prepare`.
    pub fn prepare(&mut self) -> (r: Result<(), Error>)
        ensures
            *final(self) == state_after(*old(self), PCMState::Prepare),
            r == transition_result(*old(self), PCMState::Prepare),
    {
        match *self {
            PCMState::SetParameters | PCMState::Prepare | PCMState::Release => {
                *self = PCMState::Prepare;
                Ok(())
            },
            _ => Err(Error::InvalidStateTransition(*self, PCMState::Prepare)),
        }
    }

    /// Enters `Start`.
    pub fn start(&mut self) -> (r: Result<(), Error>)
        ensures
            *final(self) == state_after(*old(self), PCMState::Start),
            r == transition_result(*old(self), PCMState::Start),
    {
        match *self {
            PCMState::Prepare | PCMState::Stop => {
                *self = PCMState::Start;
                Ok(())
            },
            _ => Err(Error::InvalidStateTransition(*self, PCMState::Start)),
        }
    }
}

/// The parameters a stream runs with.
#[derive(Debug, Clone, Copy, PartialEq, Eq, Structural)]
pub struct PcmParams {
    /// Size of the hardware buffer in bytes.
    pub buffer_bytes: u32,
    /// Size of the hardware period in bytes.
    pub period_bytes: u32,
    /// Selected feature bits.
    pub features: u32,
    /// Number of channels.
    pub channels: u8,
    /// Sample format code.
    pub format: u8,
    /// Frame rate code.
    pub rate: u8,
}

/// A block of samples that the guest handed over.
///
/// `message` is whatever gives access to the guest's memory; dropping it
/// completes the request towards the guest.
#[derive(Debug)]
pub struct Request<M> {
    pub message: M,
    /// Number of bytes already consumed.
    pub pos: usize,
    /// Number of bytes in the block.
    pub len: usize,
}

impl<M> Request<M> {
    /// Number of bytes not yet consumed.
    pub open spec fn remaining(self) -> nat {
        if self.pos < self.len {
            (self.len - self.pos) as nat
        } else {
            0
        }
    }
}

/// A PCM stream of the device.
#[derive(Debug)]
pub struct Stream<M> {
    pub params: PcmParams,
    /// Bit `n` is set if format code `n` is supported.
    pub formats: u64,
    /// Bit `n` is set if rate code `n` is supported.
    pub rates: u64,
    pub direction: Direction,
    pub state: PCMState,
    /// Requests in the order in which the guest made them.
    pub requests: VecDeque<Request<M>>,
}

/// Whether bit `code` of `mask` is set.
pub open spec fn has_bit(mask: u64, code: u8) -> bool {
    code < 64 && mask & (1u64 << (code as u64)) != 0
}

impl<M> Stream<M> {
    /// Whether the stream can use the format with this code.
    pub fn supports_format(&self, format: u8) -> (r: bool)
        ensures
            r == has_bit(self.formats, format),
            r <==> format < 64 && self.formats & (1u64 << (format as u64)) != 0,
    {
        format < 64 && self.formats & (1u64 << (format as u64)) != 0
    }

    /// Whether the stream can use the rate with this code.
    pub fn supports_rate(&self, rate: u8) -> (r: bool)
        ensures
            r == has_bit(self.rates, rate),
            r <==> rate < 64 && self.rates & (1u64 << (rate as u64)) != 0,
    {
        rate < 64 && self.rates & (1u64 << (rate as u64)) != 0
    }
}

/// The mask that stands for a single code supports that code, for every code
/// that a mask has a bit for.
pub proof fn lemma_single_code_mask(code: u8)
    requires
        code < 64,
    ensures
        has_bit(1u64 << (code as u64), code),
        has_bit(u64::MAX, code),
        !has_bit(0, code),
{
    assert((1u64 << (code as u64)) & (1u64 << (code as u64)) != 0) by (bit_vector)
        requires
            code < 64,
    ;
    assert(u64::MAX & (1u64 << (code as u64)) != 0) by (bit_vector)
        requires
            code < 64,
    ;
    assert(0u64 & (1u64 << (code as u64)) == 0) by (bit_vector);
}

/// The mask that stands for a single code supports no other code.
pub proof fn lemma_single_code_mask_excludes_others(code: u8, other: u8)
    requires
        other < 64,
        code != other,
    ensures
        !has_bit(1u64 << (other as u64), code),
{
    if code < 64 {
        assert((1u64 << (other as u64)) & (1u64 << (code as u64)) == 0) by (bit_vector)
            requires
                code < 64,
                other < 64,
                code != other,
        ;
    }
}

/// Putting masks together supports what either of them supports, and no mask
/// supports a code that it has no bit for.
pub proof fn lemma_masks_combine(a: u64, b: u64, code: u8)
    ensures
        has_bit(a | b, code) <==> has_bit(a, code) || has_bit(b, code),
        has_bit(a, code) ==> has_bit(a | b, code),
        code >= 64 ==> !has_bit(a, code),
{
    if code < 64 {
        let bit = 1u64 << (code as u64);
        assert((a | b) & bit != 0 <==> a & bit != 0 || b & bit != 0) by (bit_vector);
    }
}

/// Adding a code to a mask and taking it out again changes what is supported
/// for that code alone.
pub proof fn lemma_masks_are_independent_per_code(mask: u64, code: u8, other: u8)
    requires
        code < 64,
        other != code,
    ensures
        has_bit(mask | (1u64 << (code as u64)), code),
        has_bit(mask | (1u64 << (code as u64)), other) == has_bit(mask, other),
        !has_bit(mask & !(1u64 << (code as u64)), code),
        has_bit(mask & !(1u64 << (code as u64)), other) == has_bit(mask, other),
{
    assert((mask | (1u64 << (code as u64))) & (1u64 << (code as u64)) != 0) by (bit_vector)
        requires
            code < 64,
    ;
    assert((mask & !(1u64 << (code as u64))) & (1u64 << (code as u64)) == 0) by (bit_vector);
    if other < 64 {
        assert((mask | (1u64 << (code as u64))) & (1u64 << (other as u64)) == mask & (1u64 << (
        other as u64))) by (bit_vector)
            requires
                code < 64,
                other < 64,
                other != code,
        ;
        assert((mask & !(1u64 << (code as u64))) & (1u64 << (other as u64)) == mask & (1u64 << (
        other as u64))) by (bit_vector)
            requires
                code < 64,
                other < 64,
                other != code,
        ;
    }
}

/// An attempt to change the state of a stream either enters the state asked for
/// or leaves the state alone and names both states.
pub proof fn lemma_transitions_enter_or_report(from: PCMState, to: PCMState)
    ensures
        transition_result(from, to) is Ok ==> state_after(from, to) == to,
        transition_result(from, to) is Err ==> state_after(from, to) == from
            && transition_result(from, to)->Err_0 == Error::InvalidStateTransition(from, to),
{
}

/// A stream can be given parameters and be prepared unless it is running or
/// stopped, and be started once it is prepared or stopped.
pub proof fn lemma_lifecycle(from: PCMState)
    ensures
        transition_result(from, PCMState::SetParameters) is Ok <==> !(from is Start
            || from is Stop),
        transition_result(from, PCMState::Prepare) is Ok <==> !(from is Start || from is Stop),
        transition_result(from, PCMState::Start) is Ok <==> from is Prepare || from is Stop,
        transition_result(from, PCMState::Stop) is Ok <==> from is Start,
        transition_result(from, PCMState::Release) is Ok <==> from is Prepare || from is Stop,
{
}

} // verus!
