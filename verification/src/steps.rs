//! What each step of a command answers, exactly when, and what it changes.

use crate::backend::{
    Action, GStreamerBackend, Model, PipelineState, PlayEvent, PrepareAction, PrepareEvent,
    StopEvent, WriteEvent,
};
use crate::caps::{
    frame_size, lemma_window_of_a_stream, sample_format, sample_rate, source_config,
};
use crate::error::{BackendError, Error};
use crate::pipeline::{ElementName, End};
use crate::stream::{Error as StreamError, PCMState, Stream};
use crate::virtio_sound::VirtioSndPcmSetParams;
use vstd::prelude::*;

verus! {

/// What a backend stands for is what it holds.
pub proof fn lemma_what_a_backend_stands_for<M, P, S, K>(b: GStreamerBackend<M, P, S, K>)
    ensures
        b@.streams == b.streams@,
        b@.handles == b.handles@,
        b@.senders == b.senders,
{
}

/// When `read` wakes a worker, and whose: that of the stream it was called for,
/// which exists, is prepared or started, and has a worker. Before that it sets
/// the pipeline playing, if there is one.
pub proof fn lemma_read_steps<M, P, S, K>(m: Model<M, P, S, K>, id: u32, event: PlayEvent)
    ensures
        m.read(id, event) is SetState <==> event is Called && m.handles.contains_key(id),
        m.read(id, event) is SetState ==> m.read(id, event)->SetState_0 is Playing,
        m.read(id, event) is Signal <==> {
            &&& event matches PlayEvent::StateSet(Ok(_))
            &&& id < m.streams.len()
            &&& m.streams[id as int].state is Prepare || m.streams[id as int].state is Start
            &&& id < m.senders
        },
        m.read(id, event) is Signal ==> m.read(id, event)->Signal_0 == id,
        (m.read(id, event) matches Action::Return(Ok(_))) <==> (event matches PlayEvent::Signalled(
            Ok(_),
        )),
{
}

/// Why `read` fails.
pub proof fn lemma_read_failures<M, P, S, K>(m: Model<M, P, S, K>, id: u32, event: PlayEvent)
    requires
        m.read(id, event) matches Action::Return(Err(_)),
    ensures
        ({
            let e = m.read(id, event)->Return_0->Err_0;
            let state = m.streams[id as int].state;
            match event {
                PlayEvent::Called => e == Error::StreamWithIdNotFound(id)
                    && !m.handles.contains_key(id),
                PlayEvent::StateSet(Err(failure)) => e == Error::UnexpectedAudioBackendError(
                    BackendError::ReadPipelineFailed(failure.display),
                ),
                PlayEvent::StateSet(Ok(_)) => if id >= m.streams.len() {
                    e == Error::StreamWithIdNotFound(id)
                } else if state is Prepare || state is Start {
                    id >= m.senders && e == Error::UnexpectedAudioBackendError(
                        BackendError::SenderOutOfBounds,
                    )
                } else {
                    e == Error::Stream(StreamError::InvalidState("read", state))
                },
                PlayEvent::Signalled(Err(failure)) => e == Error::UnexpectedAudioBackendError(
                    BackendError::SignalFailed(failure.display),
                ),
                PlayEvent::Signalled(Ok(_)) => false,
            }
        }),
{
}

/// When `write` wakes a worker, and whose. It never touches a pipeline.
pub proof fn lemma_write_steps<M, P, S, K>(m: Model<M, P, S, K>, id: u32, event: WriteEvent)
    ensures
        !(m.write(id, event) is SetState),
        m.write(id, event) is Signal <==> {
            &&& event is Called
            &&& id < m.streams.len()
            &&& m.streams[id as int].state is Prepare || m.streams[id as int].state is Start
            &&& id < m.senders
        },
        m.write(id, event) is Signal ==> m.write(id, event)->Signal_0 == id,
        (m.write(id, event) matches Action::Return(Ok(_))) <==> (
        event matches WriteEvent::Signalled(Ok(_))),
{
}

/// Why `write` fails.
pub proof fn lemma_write_failures<M, P, S, K>(m: Model<M, P, S, K>, id: u32, event: WriteEvent)
    requires
        m.write(id, event) matches Action::Return(Err(_)),
    ensures
        ({
            let e = m.write(id, event)->Return_0->Err_0;
            let state = m.streams[id as int].state;
            match event {
                WriteEvent::Called => if id >= m.streams.len() {
                    e == Error::StreamWithIdNotFound(id)
                } else if state is Prepare || state is Start {
                    id >= m.senders && e == Error::UnexpectedAudioBackendError(
                        BackendError::SenderOutOfBounds,
                    )
                } else {
                    e == Error::Stream(StreamError::InvalidState("write", state))
                },
                WriteEvent::Signalled(Err(failure)) => e == Error::UnexpectedAudioBackendError(
                    BackendError::WriteSignalFailed(failure.display),
                ),
                WriteEvent::Signalled(Ok(_)) => false,
            }
        }),
{
}

/// `read`, once the pipeline plays, and `write` treat a stream alike: the same
/// streams are accepted, and the same worker is woken.
pub proof fn lemma_read_and_write_accept_the_same_streams<M, P, S, K>(
    m: Model<M, P, S, K>,
    id: u32,
)
    ensures
        m.read(id, PlayEvent::StateSet(Ok(()))) is Signal <==> m.write(
            id,
            WriteEvent::Called,
        ) is Signal,
        m.write(id, WriteEvent::Called) is Signal ==> m.read(id, PlayEvent::StateSet(Ok(())))
            == m.write(id, WriteEvent::Called),
{
}

/// `stop` resets the pipeline of a stream that has one, wakes nobody, and
/// succeeds exactly if the pipeline can be reset.
pub proof fn lemma_stop_steps<M, P, S, K>(m: Model<M, P, S, K>, id: u32, event: StopEvent)
    ensures
        !(m.stop(id, event) is Signal),
        m.stop(id, event) is SetState <==> event is Called && m.handles.contains_key(id),
        m.stop(id, event) is SetState ==> m.stop(id, event)->SetState_0 is Null,
        (m.stop(id, event) matches Action::Return(Ok(_))) <==> (event matches StopEvent::StateSet(
            Ok(_),
        )),
        event is Called && !m.handles.contains_key(id) ==> m.stop(id, event) == Action::Return(
            Err(Error::StreamWithIdNotFound(id)),
        ),
        event matches StopEvent::StateSet(Err(failure)) ==> m.stop(id, event) == Action::Return(
            Err(
                Error::UnexpectedAudioBackendError(
                    BackendError::StopPipelineFailed(failure.display),
                ),
            ),
        ),
{
}

/// `start` sets the pipeline playing, if there is one, and wakes the worker of
/// the stream that it was called for, in whatever state that stream is.
pub proof fn lemma_start_steps<M, P, S, K>(m: Model<M, P, S, K>, id: u32, event: PlayEvent)
    ensures
        m.start(id, event) is SetState <==> event is Called && m.handles.contains_key(id),
        m.start(id, event) is SetState ==> m.start(id, event)->SetState_0 is Playing,
        m.start(id, event) is Signal <==> (event matches PlayEvent::StateSet(Ok(_))) && id
            < m.streams.len(),
        m.start(id, event) is Signal ==> m.start(id, event)->Signal_0 == id,
        (m.start(id, event) matches Action::Return(Ok(_))) <==> (
        event matches PlayEvent::Signalled(Ok(_))),
{
}

/// Why `start` fails.
pub proof fn lemma_start_failures<M, P, S, K>(m: Model<M, P, S, K>, id: u32, event: PlayEvent)
    requires
        m.start(id, event) matches Action::Return(Err(_)),
    ensures
        ({
            let e = m.start(id, event)->Return_0->Err_0;
            match event {
                PlayEvent::Called => e == Error::StreamWithIdNotFound(id)
                    && !m.handles.contains_key(id),
                PlayEvent::StateSet(Err(failure)) => e == Error::UnexpectedAudioBackendError(
                    BackendError::StartPipelineFailed(failure.debug),
                ),
                PlayEvent::StateSet(Ok(_)) => e == Error::StreamWithIdNotFound(id) && id
                    >= m.streams.len(),
                PlayEvent::Signalled(Err(failure)) => e == Error::UnexpectedAudioBackendError(
                    BackendError::WriteSignalFailed(failure.display),
                ),
                PlayEvent::Signalled(Ok(_)) => false,
            }
        }),
{
}

/// `start` changes nothing but the state of its stream, from prepared to
/// started, and that exactly when the pipeline has been set playing.
pub proof fn lemma_start_changes<M, P, S, K>(
    m: Model<M, P, S, K>,
    id: u32,
    event: PlayEvent,
    i: int,
)
    ensures
        ({
            let later = m.after_start(id, event);
            &&& later.senders == m.senders
            &&& later.handles == m.handles
            &&& later.streams.len() == m.streams.len()
            &&& 0 <= i < m.streams.len() ==> {
                let before = m.streams[i];
                let after = later.streams[i];
                &&& after == (Stream { state: after.state, ..before })
                &&& after.state != before.state <==> i == id && (
                event matches PlayEvent::StateSet(Ok(_))) && before.state is Prepare
                &&& after.state != before.state ==> after.state is Start
            }
        }),
{
}

/// Which outside step `prepare` asks for, exactly when, and about what.
pub proof fn lemma_prepare_steps<M, P, S, K>(
    m: Model<M, P, S, K>,
    id: u32,
    event: PrepareEvent<P, S, K>,
)
    requires
        id < m.streams.len(),
    ensures
        ({
            let r = m.prepare(id, event);
            let stream = m.streams[id as int];
            &&& r is QueryState <==> event is Called && m.handles.contains_key(id)
            &&& r is Build <==> !(stream.state is Start) && (event is Called
                && !m.handles.contains_key(id) || event is StateRead && event->StateRead_0 != Some(
                PipelineState::Playing,
            ) && event->StateRead_0 != Some(PipelineState::Paused))
            &&& r is Build ==> r->Build_0 == id && r->Build_1 == stream.direction
            &&& r is Find <==> (event matches PrepareEvent::Built(Ok(_))) || event is Found
                && event->end is Source && event->found
            &&& r is Find ==> r->Find_0.id == id && (r->Find_0.end is Source <==> event is Built)
            &&& r is Cast <==> event is Found && event->end is Sink && event->found
            &&& r is Cast ==> r->Cast_0.id == id && (r->Cast_0.end is Source
                <==> stream.direction is Output)
            &&& r is ConfigureSource <==> event is Cast && event->Cast_0
                && stream.direction is Output
            &&& r is ConfigureSink <==> event is Cast && event->Cast_0 && stream.direction is Input
            &&& r is SetState <==> event is SourceConfigured || event is SinkConfigured
            &&& r is SetState ==> r->SetState_0 is Ready
        }),
{
}

/// What the application end is configured with: the samples of the stream.
pub proof fn lemma_prepare_configures_for_the_stream<M, P, S, K>(
    m: Model<M, P, S, K>,
    id: u32,
    event: PrepareEvent<P, S, K>,
)
    requires
        id < m.streams.len(),
        sample_format(m.streams[id as int].params.format) is Some,
        sample_rate(m.streams[id as int].params.rate) is Some,
    ensures
        m.prepare(id, event) matches PrepareAction::ConfigureSource(config) ==> {
            let params = m.streams[id as int].params;
            let per_second = sample_rate(params.rate)->0 * params.channels * frame_size(
                params.format,
            );
            &&& config.caps.channels == params.channels
            &&& sample_format(params.format) == Some(config.caps.format)
            &&& sample_rate(params.rate) == Some(config.caps.rate)
            &&& config.max_bytes % 8 == 0
            &&& per_second * 400 - 8000 < config.max_bytes * 1000 <= per_second * 400
        },
        m.prepare(id, event) matches PrepareAction::ConfigureSink(config) ==> {
            let params = m.streams[id as int].params;
            &&& config.caps.channels == params.channels
            &&& sample_format(params.format) == Some(config.caps.format)
            &&& sample_rate(params.rate) == Some(config.caps.rate)
        },
{
    assert(source_config(m.streams[id as int].params) is Ok);
    lemma_window_of_a_stream(m.streams[id as int].params);
}

/// A stream can be configured for exactly if its format and rate are known.
pub proof fn lemma_who_can_be_configured<M, P, S, K>(m: Model<M, P, S, K>, id: u32)
    ensures
        m.configurable(id) <==> sample_format(m.streams[id as int].params.format) is Some
            && sample_rate(m.streams[id as int].params.rate) is Some,
{
}

/// When a step of `prepare` brings it to a good end: there is nothing to do, or
/// the pipeline is ready and the state of the stream admits preparing it.
pub proof fn lemma_prepare_good_ends<M, P, S, K>(
    m: Model<M, P, S, K>,
    id: u32,
    event: PrepareEvent<P, S, K>,
)
    ensures
        (m.prepare(id, event) matches PrepareAction::Return(Ok(_))) <==> {
            let state = m.streams[id as int].state;
            &&& id < m.streams.len()
            &&& match event {
                PrepareEvent::Called => !m.handles.contains_key(id) && state is Start,
                PrepareEvent::StateRead(found) => state is Start || found == Some(
                    PipelineState::Playing,
                ) || found == Some(PipelineState::Paused),
                PrepareEvent::StateSet(Ok(_)) => !(state is Start || state is Stop),
                _ => false,
            }
        },
{
}

/// Why `prepare` fails.
pub proof fn lemma_prepare_failures<M, P, S, K>(
    m: Model<M, P, S, K>,
    id: u32,
    event: PrepareEvent<P, S, K>,
)
    ensures
        id >= m.streams.len() ==> m.prepare(id, event) == PrepareAction::Return(
            Err(Error::StreamWithIdNotFound(id)),
        ),
        id < m.streams.len() ==> ((m.prepare(id, event) matches PrepareAction::Return(Err(_))) <==> {
            match event {
                PrepareEvent::Built(Err(_)) => true,
                PrepareEvent::Found { end, found } => !found,
                PrepareEvent::Cast(matches) => !matches,
                PrepareEvent::StateSet(Err(_)) => true,
                PrepareEvent::StateSet(Ok(_)) => m.streams[id as int].state is Start
                    || m.streams[id as int].state is Stop,
                _ => false,
            }
        }),
        id < m.streams.len() && (m.prepare(id, event) matches PrepareAction::Return(Err(_))) ==> {
            let e = m.prepare(id, event)->Return_0->Err_0;
            let stream = m.streams[id as int];
            match event {
                PrepareEvent::Built(Err(cause)) => e == Error::UnexpectedAudioBackendError(
                    BackendError::Pipeline(cause),
                ),
                PrepareEvent::Found { end, found } => e == Error::UnexpectedAudioBackendError(
                    BackendError::ElementNotFound(ElementName { end, id }),
                ),
                PrepareEvent::Cast(matches) => e == Error::UnexpectedAudioBackendError(
                    BackendError::DowncastFailed(
                        ElementName {
                            end: if stream.direction is Output {
                                End::Source
                            } else {
                                End::Sink
                            },
                            id,
                        },
                    ),
                ),
                PrepareEvent::StateSet(Err(failure)) => e == Error::UnexpectedAudioBackendError(
                    BackendError::ReadyPipelineFailed(failure.debug),
                ),
                _ => e == Error::Stream(
                    StreamError::InvalidStateTransition(stream.state, PCMState::Prepare),
                ),
            }
        },
{
}

/// `prepare` changes nothing but the state of its stream, to prepared, and that
/// exactly when the pipeline is ready and the stream is neither running nor
/// stopped.
pub proof fn lemma_prepare_changes_streams<M, P, S, K>(
    m: Model<M, P, S, K>,
    id: u32,
    event: PrepareEvent<P, S, K>,
    i: int,
)
    ensures
        ({
            let later = m.after_prepare(id, event);
            &&& later.senders == m.senders
            &&& later.streams.len() == m.streams.len()
            &&& 0 <= i < m.streams.len() ==> {
                let before = m.streams[i];
                let after = later.streams[i];
                &&& after == (Stream { state: after.state, ..before })
                &&& after.state == if i == id && (event matches PrepareEvent::StateSet(Ok(_)))
                    && !(before.state is Start || before.state is Stop) {
                    PCMState::Prepare
                } else {
                    before.state
                }
            }
        }),
{
}

/// `prepare` stores what was configured, for its stream and no other, with the
/// application end that was configured and without the other.
pub proof fn lemma_prepare_changes_handles<M, P, S, K>(
    m: Model<M, P, S, K>,
    id: u32,
    event: PrepareEvent<P, S, K>,
    other: u32,
)
    ensures
        ({
            let later = m.after_prepare(id, event).handles;
            let stores = other == id && id < m.streams.len() && (event is SourceConfigured
                || event is SinkConfigured);
            &&& later.contains_key(other) <==> m.handles.contains_key(other) || stores
            &&& !stores ==> later[other] == m.handles[other]
            &&& stores ==> match event {
                PrepareEvent::SourceConfigured(pipeline, appsrc) => {
                    &&& later[other].pipeline == pipeline
                    &&& later[other].appsrc == Some(appsrc)
                    &&& later[other].appsink is None
                },
                PrepareEvent::SinkConfigured(pipeline, appsink) => {
                    &&& later[other].pipeline == pipeline
                    &&& later[other].appsrc is None
                    &&& later[other].appsink == Some(appsink)
                },
                _ => false,
            }
        }),
{
}

/// When `set_parameters` succeeds: the stream exists, is neither running nor
/// stopped, and has the bits of the requested format and rate set. Otherwise it
/// fails for the first of these that does not hold.
pub proof fn lemma_set_parameters_answers<M, P, S, K>(
    m: Model<M, P, S, K>,
    id: u32,
    request: VirtioSndPcmSetParams,
)
    ensures
        ({
            let stream = m.streams[id as int];
            let format_bit = request.format < 64 && stream.formats & (1u64 << (
            request.format as u64)) != 0;
            let rate_bit = request.rate < 64 && stream.rates & (1u64 << (request.rate as u64)) != 0;
            let result = m.set_parameters(id, request);
            if id >= m.streams.len() {
                result == Err::<(), Error>(Error::StreamWithIdNotFound(id))
            } else if stream.state is Start || stream.state is Stop {
                result == Err::<(), Error>(
                    Error::Stream(
                        StreamError::InvalidStateTransition(stream.state, PCMState::SetParameters),
                    ),
                )
            } else if !(format_bit && rate_bit) {
                result == Err::<(), Error>(Error::UnexpectedAudioBackendConfiguration)
            } else {
                result is Ok
            }
        }),
{
}

/// What `set_parameters` changes: of its own stream the state, if that admits
/// it, and the parameters, if it succeeds, to those requested.
pub proof fn lemma_set_parameters_changes<M, P, S, K>(
    m: Model<M, P, S, K>,
    id: u32,
    request: VirtioSndPcmSetParams,
    i: int,
)
    ensures
        ({
            let later = m.after_set_parameters(id, request);
            &&& later.senders == m.senders
            &&& later.handles == m.handles
            &&& later.streams.len() == m.streams.len()
            &&& 0 <= i < m.streams.len() ==> {
                let before = m.streams[i];
                let after = later.streams[i];
                &&& i != id ==> after == before
                &&& after == (Stream { state: after.state, params: after.params, ..before })
                &&& i == id ==> after.state == if before.state is Start || before.state is Stop {
                    before.state
                } else {
                    PCMState::SetParameters
                }
                &&& i == id && m.set_parameters(id, request) is Err ==> after.params == before.params
                &&& i == id && m.set_parameters(id, request) is Ok ==> {
                    &&& after.params.buffer_bytes == request.buffer_bytes
                    &&& after.params.period_bytes == request.period_bytes
                    &&& after.params.features == request.features
                    &&& after.params.channels == request.channels
                    &&& after.params.format == request.format
                    &&& after.params.rate == request.rate
                }
            }
        }),
{
}

/// A stream that admits new parameters takes any format and rate whose bits are
/// in its masks, whatever else is in them, and keeps them.
pub proof fn lemma_supported_requests_are_accepted<M, P, S, K>(
    m: Model<M, P, S, K>,
    id: u32,
    request: VirtioSndPcmSetParams,
)
    requires
        id < m.streams.len(),
        !(m.streams[id as int].state is Start || m.streams[id as int].state is Stop),
        request.format < 64,
        request.rate < 64,
        m.streams[id as int].formats & (1u64 << (request.format as u64)) == 1u64 << (
        request.format as u64),
        m.streams[id as int].rates & (1u64 << (request.rate as u64)) == 1u64 << (
        request.rate as u64),
    ensures
        m.set_parameters(id, request) is Ok,
        m.after_set_parameters(id, request).streams[id as int].params.format == request.format,
        m.after_set_parameters(id, request).streams[id as int].params.rate == request.rate,
{
    let format = request.format;
    let rate = request.rate;
    assert(1u64 << (format as u64) != 0) by (bit_vector)
        requires
            format < 64,
    ;
    assert(1u64 << (rate as u64) != 0) by (bit_vector)
        requires
            rate < 64,
    ;
}

/// Asking for the same parameters a second time changes nothing more and is
/// answered in the same way.
pub proof fn lemma_set_parameters_twice<M, P, S, K>(
    m: Model<M, P, S, K>,
    id: u32,
    request: VirtioSndPcmSetParams,
)
    ensures
        m.after_set_parameters(id, request).after_set_parameters(id, request)
            == m.after_set_parameters(id, request),
        m.after_set_parameters(id, request).set_parameters(id, request) == m.set_parameters(
            id,
            request,
        ),
{
    assert(m.after_set_parameters(id, request).after_set_parameters(id, request).streams
        == m.after_set_parameters(id, request).streams);
}

} // verus!
