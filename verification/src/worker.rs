//! The worker of a stream: it waits for signals and has the stream's requests
//! written while that gets somewhere. It ends when it receives `false`, or when
//! no more signals can come.

use crate::backend::{GStreamerBackend, Model};
use crate::error::Error;
use crate::stream::{Direction, PCMState, Stream};
use vstd::prelude::*;

verus! {

broadcast use vstd::std_specs::hash::group_hash_axioms;

/// How long a worker that failed rests before it starts over, in milliseconds.
pub const RESTART_DELAY_MS: u64 = 500;

/// What has happened.
#[derive(Debug, PartialEq, Eq)]
pub enum WorkerEvent {
    /// A signal came in, or none will come any more. `true` means that there
    /// may be work, `false` that the worker is to end.
    Received(Option<bool>),
    /// A round of writing is over and reported this.
    Written(bool),
}

/// What to do next.
#[derive(Debug, PartialEq, Eq)]
pub enum WorkerAction {
    /// Wait for a signal.
    Receive,
    /// Report that a playback stream has requests but no application source,
    /// then wait for a signal.
    ReceiveWithoutSource,
    /// Write the samples of the stream to its application source.
    WriteSamples,
    /// The worker is done.
    Return(Result<(), Error>),
}

/// Whether a stream runs and has requests.
pub open spec fn has_buffers<M>(stream: Stream<M>) -> bool {
    stream.requests@.len() > 0 && stream.state is Start
}

/// What a worker does once it knows that there is work.
pub open spec fn work<M, P, S, K>(
    backend: Model<M, P, S, K>,
    stream_id: usize,
    direction: Direction,
) -> WorkerAction {
    if !has_buffers(backend.streams[stream_id as int]) {
        WorkerAction::Receive
    } else if !backend.handles.contains_key(stream_id as u32) {
        WorkerAction::Return(Err(Error::StreamWithIdNotFound(stream_id as u32)))
    } else {
        match direction {
            Direction::Output => if backend.handles[stream_id as u32].appsrc is Some {
                WorkerAction::WriteSamples
            } else {
                WorkerAction::ReceiveWithoutSource
            },
            Direction::Input => WorkerAction::Receive,
        }
    }
}

/// What the worker of stream `stream_id` does after `event`.
pub open spec fn next_action<M, P, S, K>(
    backend: Model<M, P, S, K>,
    stream_id: usize,
    direction: Direction,
    event: WorkerEvent,
) -> WorkerAction {
    match event {
        WorkerEvent::Received(None) | WorkerEvent::Received(Some(false)) => WorkerAction::Return(
            Ok(()),
        ),
        WorkerEvent::Received(Some(true)) | WorkerEvent::Written(true) => work(
            backend,
            stream_id,
            direction,
        ),
        WorkerEvent::Written(false) => WorkerAction::Receive,
    }
}

/// Says what the worker of stream `stream_id` does after `event`. `direction`
/// is that of the stream when the worker began, which it does by waiting for a
/// signal. Capture has no work to do.
pub fn gstreamer_worker<M, P, S, K>(
    backend: &GStreamerBackend<M, P, S, K>,
    stream_id: usize,
    direction: Direction,
    event: WorkerEvent,
) -> (r: WorkerAction)
    requires
        stream_id < backend.streams@.len(),
    ensures
        r == next_action(backend@, stream_id, direction, event),
        r is WriteSamples ==> backend.streams@[stream_id as int].state is Start
            && backend.streams@[stream_id as int].requests@.len() > 0 && direction is Output
            && backend.handles@.contains_key(stream_id as u32)
            && backend.handles@[stream_id as u32].appsrc is Some,
        !(backend.streams@[stream_id as int].state is Start) && (event == WorkerEvent::Received(
            Some(true),
        ) || event is Written) ==> r is Receive,
{
    match event {
        WorkerEvent::Received(None) | WorkerEvent::Received(Some(false)) => {
            return WorkerAction::Return(Ok(()));
        },
        WorkerEvent::Written(false) => {
            return WorkerAction::Receive;
        },
        WorkerEvent::Received(Some(true)) | WorkerEvent::Written(true) => {},
    }
    let stream = &backend.streams[stream_id];
    let running = match stream.state {
        PCMState::Start => true,
        _ => false,
    };
    if stream.requests.len() == 0 || !running {
        return WorkerAction::Receive;
    }
    match backend.handles.get(&(stream_id as u32)) {
        None => WorkerAction::Return(Err(Error::StreamWithIdNotFound(stream_id as u32))),
        Some(handle) => match (direction, &handle.appsrc) {
            (Direction::Output, Some(_)) => WorkerAction::WriteSamples,
            (Direction::Output, None) => WorkerAction::ReceiveWithoutSource,
            (Direction::Input, _) => WorkerAction::Receive,
        },
    }
}

/// How long to wait, in milliseconds, before a worker that returned `result`
/// is started again; `None` if it is not.
pub fn restart_delay(result: &Result<(), Error>) -> (r: Option<u64>)
    ensures
        r == match *result {
            Ok(()) => None,
            Err(_) => Some(RESTART_DELAY_MS),
        },
        r is Some <==> result is Err,
        r is Some ==> r->0 == 500,
{
    match result {
        Ok(()) => None,
        Err(_) => Some(RESTART_DELAY_MS),
    }
}

/// Samples are written exactly if the worker was told that there may be work,
/// the stream is started, a request waits, the stream plays back, and there is
/// an application source.
pub proof fn lemma_when_samples_are_written<M, P, S, K>(
    m: Model<M, P, S, K>,
    stream_id: usize,
    direction: Direction,
    event: WorkerEvent,
)
    ensures
        next_action(m, stream_id, direction, event) is WriteSamples <==> {
            &&& event == WorkerEvent::Received(Some(true)) || event == WorkerEvent::Written(true)
            &&& m.streams[stream_id as int].state is Start
            &&& m.streams[stream_id as int].requests@.len() > 0
            &&& direction is Output
            &&& m.handles.contains_key(stream_id as u32)
            &&& m.handles[stream_id as u32].appsrc is Some
        },
{
}

/// A stream that is not started, and one without requests, gives its worker
/// nothing to do but wait: nothing is written before the start.
pub proof fn lemma_nothing_to_do_unless_started<M, P, S, K>(
    m: Model<M, P, S, K>,
    stream_id: usize,
    direction: Direction,
    event: WorkerEvent,
)
    requires
        event == WorkerEvent::Received(Some(true)) || event == WorkerEvent::Written(true),
        !(m.streams[stream_id as int].state is Start)
            || m.streams[stream_id as int].requests@.len() == 0,
    ensures
        next_action(m, stream_id, direction, event) is Receive,
{
}

/// A worker ends exactly if it is told to, if no more signals can come, or if a
/// started stream has requests and nothing was prepared for it. Only the last
/// is a failure, and it names the stream.
pub proof fn lemma_when_the_worker_ends<M, P, S, K>(
    m: Model<M, P, S, K>,
    stream_id: usize,
    direction: Direction,
    event: WorkerEvent,
)
    ensures
        (next_action(m, stream_id, direction, event) matches WorkerAction::Return(Ok(_))) <==> event
            == WorkerEvent::Received(None) || event == WorkerEvent::Received(Some(false)),
        (next_action(m, stream_id, direction, event) matches WorkerAction::Return(Err(_))) <==> {
            &&& event == WorkerEvent::Received(Some(true)) || event == WorkerEvent::Written(true)
            &&& m.streams[stream_id as int].state is Start
            &&& m.streams[stream_id as int].requests@.len() > 0
            &&& !m.handles.contains_key(stream_id as u32)
        },
        next_action(m, stream_id, direction, event) matches WorkerAction::Return(Err(e)) ==> e
            == Error::StreamWithIdNotFound(stream_id as u32),
{
}

/// A missing application source is reported exactly if samples would be written
/// but for it.
pub proof fn lemma_when_a_missing_source_is_reported<M, P, S, K>(
    m: Model<M, P, S, K>,
    stream_id: usize,
    direction: Direction,
    event: WorkerEvent,
)
    ensures
        next_action(m, stream_id, direction, event) is ReceiveWithoutSource <==> {
            &&& event == WorkerEvent::Received(Some(true)) || event == WorkerEvent::Written(true)
            &&& m.streams[stream_id as int].state is Start
            &&& m.streams[stream_id as int].requests@.len() > 0
            &&& direction is Output
            &&& m.handles.contains_key(stream_id as u32)
            &&& m.handles[stream_id as u32].appsrc is None
        },
        event == WorkerEvent::Written(false) ==> next_action(
            m,
            stream_id,
            direction,
            event,
        ) is Receive,
{
}

/// A worker looks at its own stream only: what else the backend holds does not
/// matter to it.
pub proof fn lemma_workers_mind_their_own_stream<M, P, S, K>(
    a: Model<M, P, S, K>,
    b: Model<M, P, S, K>,
    stream_id: usize,
    direction: Direction,
    event: WorkerEvent,
)
    requires
        a.streams[stream_id as int] == b.streams[stream_id as int],
        a.handles.contains_key(stream_id as u32) == b.handles.contains_key(stream_id as u32),
        a.handles[stream_id as u32] == b.handles[stream_id as u32],
    ensures
        next_action(a, stream_id, direction, event) == next_action(b, stream_id, direction, event),
{
}

} // verus!
