//! Which lock each step of a command needs, and what comes of a poisoned one.
//!
//! The streams and what has been prepared for them are behind a lock each. A
//! lock is poisoned once a thread has panicked while it held the lock. A step
//! of a command fails if the lock that it needs is poisoned; whether the other
//! one is does not matter to it.

use crate::backend::{PlayEvent, PrepareEvent, StopEvent, WriteEvent};
use crate::error::{BackendError, Error};
use vstd::prelude::*;

verus! {

/// The commands that need a lock.
#[derive(Debug, Clone, Copy, PartialEq, Eq, Structural)]
pub enum Command {
    Read,
    Stop,
    Write,
    Start,
    Prepare,
    SetParameters,
}

/// The two locks.
#[derive(Debug, Clone, Copy, PartialEq, Eq, Structural)]
pub enum Lock {
    /// On the streams.
    Streams,
    /// On what has been prepared for them.
    Handles,
}

/// Which of the locks are poisoned.
#[derive(Debug, Clone, Copy, PartialEq, Eq, Structural)]
pub struct Poison {
    pub streams: bool,
    pub handles: bool,
}

impl Poison {
    /// Whether this lock is poisoned.
    pub open spec fn affects(self, lock: Lock) -> bool {
        match lock {
            Lock::Streams => self.streams,
            Lock::Handles => self.handles,
        }
    }
}

/// What a command reports when a lock it needs is poisoned.
pub open spec fn poison_error(command: Command, lock: Lock) -> Error {
    Error::UnexpectedAudioBackendError(
        if lock is Streams && (command is Read || command is Write) {
            BackendError::PoisonedStreamsLock
        } else {
            BackendError::PoisonedLock
        },
    )
}

/// What a command reports when a lock it needs is poisoned.
pub fn poisoned(command: Command, lock: Lock) -> (r: Error)
    ensures
        r == poison_error(command, lock),
{
    match (command, lock) {
        (Command::Read, Lock::Streams) | (Command::Write, Lock::Streams) => {
            Error::UnexpectedAudioBackendError(BackendError::PoisonedStreamsLock)
        },
        _ => Error::UnexpectedAudioBackendError(BackendError::PoisonedLock),
    }
}

/// The error of a step that needs the lock `need`, if any: there is one exactly
/// if that lock is poisoned.
pub open spec fn refused(command: Command, need: Option<Lock>, poison: Poison) -> Option<Error> {
    match need {
        Some(lock) if poison.affects(lock) => Some(poison_error(command, lock)),
        _ => None,
    }
}

/// The error of a step that needs the lock `need`, if any. A step for which
/// there is one is not taken.
pub fn refusal(command: Command, need: Option<Lock>, poison: Poison) -> (r: Option<Error>)
    ensures
        r == refused(command, need, poison),
{
    match need {
        None => None,
        Some(lock) => {
            let hit = match lock {
                Lock::Streams => poison.streams,
                Lock::Handles => poison.handles,
            };
            if hit {
                Some(poisoned(command, lock))
            } else {
                None
            }
        },
    }
}

/// The lock that a step of `read` or `start` needs.
pub open spec fn play_need(event: PlayEvent) -> Option<Lock> {
    match event {
        PlayEvent::Called => Some(Lock::Handles),
        PlayEvent::StateSet(Ok(())) => Some(Lock::Streams),
        PlayEvent::StateSet(Err(_)) | PlayEvent::Signalled(_) => None,
    }
}

/// The lock that a step of `read` or `start` needs: that on the handles to find
/// the pipeline, that on the streams once the pipeline plays.
pub fn play_lock(event: &PlayEvent) -> (r: Option<Lock>)
    ensures
        r == play_need(*event),
{
    match event {
        PlayEvent::Called => Some(Lock::Handles),
        PlayEvent::StateSet(Ok(())) => Some(Lock::Streams),
        PlayEvent::StateSet(Err(_)) | PlayEvent::Signalled(_) => None,
    }
}

/// The lock that a step of `write` needs.
pub open spec fn write_need(event: WriteEvent) -> Option<Lock> {
    match event {
        WriteEvent::Called => Some(Lock::Streams),
        WriteEvent::Signalled(_) => None,
    }
}

/// The lock that a step of `write` needs.
pub fn write_lock(event: &WriteEvent) -> (r: Option<Lock>)
    ensures
        r == write_need(*event),
{
    match event {
        WriteEvent::Called => Some(Lock::Streams),
        WriteEvent::Signalled(_) => None,
    }
}

/// The lock that a step of `stop` needs.
pub open spec fn stop_need(event: StopEvent) -> Option<Lock> {
    match event {
        StopEvent::Called => Some(Lock::Handles),
        StopEvent::StateSet(_) => None,
    }
}

/// The lock that a step of `stop` needs.
pub fn stop_lock(event: &StopEvent) -> (r: Option<Lock>)
    ensures
        r == stop_need(*event),
{
    match event {
        StopEvent::Called => Some(Lock::Handles),
        StopEvent::StateSet(_) => None,
    }
}

/// The lock that a step of `prepare` needs.
pub open spec fn prepare_need<P, S, K>(event: PrepareEvent<P, S, K>) -> Option<Lock> {
    match event {
        PrepareEvent::Called => Some(Lock::Streams),
        PrepareEvent::SourceConfigured(_, _) | PrepareEvent::SinkConfigured(_, _) => Some(
            Lock::Handles,
        ),
        _ => None,
    }
}

/// The lock that a step of `prepare` needs: that on the streams, which is then
/// held to the end, when it is called, that on the handles to store one.
pub fn prepare_lock<P, S, K>(event: &PrepareEvent<P, S, K>) -> (r: Option<Lock>)
    ensures
        r == prepare_need(*event),
{
    match event {
        PrepareEvent::Called => Some(Lock::Streams),
        PrepareEvent::SourceConfigured(_, _) | PrepareEvent::SinkConfigured(_, _) => Some(
            Lock::Handles,
        ),
        _ => None,
    }
}

/// The lock that `set_parameters` needs.
pub fn set_parameters_lock() -> (r: Option<Lock>)
    ensures
        r == Some(Lock::Streams),
{
    Some(Lock::Streams)
}

/// What `prepare` is told without a look at the pipeline, when it asks for the
/// state that the pipeline is changing to: with the lock on the handles
/// poisoned, nothing can be learned of it.
pub open spec fn unlearned<P, S, K>(poison: Poison) -> Option<PrepareEvent<P, S, K>> {
    if poison.handles {
        Some(PrepareEvent::StateRead(None))
    } else {
        None
    }
}

/// What `prepare` is told without a look at the pipeline, when it asks for the
/// state that the pipeline is changing to. Where this is `None`, the pipeline
/// is asked.
pub fn answer_unseen<P, S, K>(poison: Poison) -> (r: Option<PrepareEvent<P, S, K>>)
    ensures
        r == unlearned::<P, S, K>(poison),
{
    if poison.handles {
        Some(PrepareEvent::StateRead(None))
    } else {
        None
    }
}

/// A step fails because of a lock exactly if it needs one and that one is
/// poisoned.
pub proof fn lemma_when_a_step_is_refused(command: Command, need: Option<Lock>, poison: Poison)
    ensures
        refused(command, need, poison) is Some <==> need == Some(Lock::Streams) && poison.streams
            || need == Some(Lock::Handles) && poison.handles,
{
}

/// What is reported then: that the lock on the streams is poisoned, by `read`
/// and `write`, and that a lock is poisoned otherwise.
pub proof fn lemma_what_a_refused_step_reports(command: Command, need: Option<Lock>, poison: Poison)
    requires
        refused(command, need, poison) is Some,
    ensures
        refused(command, need, poison)->0 == Error::UnexpectedAudioBackendError(
            BackendError::PoisonedStreamsLock,
        ) <==> need == Some(Lock::Streams) && (command is Read || command is Write),
        refused(command, need, poison)->0 == Error::UnexpectedAudioBackendError(
            BackendError::PoisonedLock,
        ) <==> !(need == Some(Lock::Streams) && (command is Read || command is Write)),
        need is Some ==> poison_error(command, need->0) == refused(command, need, poison)->0,
{
}

/// What a poisoned lock gives does not depend on anything but the command and
/// the lock.
pub proof fn lemma_poison_errors(command: Command, lock: Lock)
    ensures
        poison_error(command, lock) == Error::UnexpectedAudioBackendError(
            BackendError::PoisonedStreamsLock,
        ) <==> lock is Streams && (command is Read || command is Write),
        poison_error(command, lock) == Error::UnexpectedAudioBackendError(
            BackendError::PoisonedLock,
        ) <==> lock is Handles || !(command is Read || command is Write),
{
}

/// Which steps need the lock on the streams, and which the one on the handles.
pub proof fn lemma_who_needs_which_lock<P, S, K>(
    play: PlayEvent,
    write: WriteEvent,
    stop: StopEvent,
    prepare: PrepareEvent<P, S, K>,
)
    ensures
        play_need(play) == Some(Lock::Handles) <==> play is Called,
        play_need(play) == Some(Lock::Streams) <==> (play matches PlayEvent::StateSet(Ok(_))),
        write_need(write) == Some(Lock::Streams) <==> write is Called,
        write_need(write) != Some(Lock::Handles),
        stop_need(stop) == Some(Lock::Handles) <==> stop is Called,
        stop_need(stop) != Some(Lock::Streams),
        prepare_need(prepare) == Some(Lock::Streams) <==> prepare is Called,
        prepare_need(prepare) == Some(Lock::Handles) <==> prepare is SourceConfigured
            || prepare is SinkConfigured,
{
}

/// `prepare` goes without the state of the pipeline exactly if the lock on the
/// handles is poisoned, and is then told that nothing was learned.
pub proof fn lemma_when_nothing_is_learned<P, S, K>(poison: Poison)
    ensures
        unlearned::<P, S, K>(poison) is Some <==> poison.handles,
        unlearned::<P, S, K>(poison) is Some ==> unlearned::<P, S, K>(poison)->0 is StateRead
            && unlearned::<P, S, K>(poison)->0->StateRead_0 is None,
{
}

} // verus!
