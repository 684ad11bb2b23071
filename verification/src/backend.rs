//! The commands of the backend.
//!
//! A command that works on pipelines or workers is a sequence of steps. Each
//! step is told what has happened and says what to do next, until it says to
//! return. The first step of a command is told that it was called.

use crate::caps::{
    caps_for, configure_appsink_for_stream, configure_appsrc_for_stream, sink_config, source_config,
    AppSinkConfig, AppSrcConfig,
};
use crate::error::{BackendError, Error, GsError};
use crate::pipeline::{ElementName, End};
use crate::stream::{
    has_bit, state_after, transition_result, Direction, Error as StreamError, PCMState, PcmParams,
    Stream,
};
use crate::virtio_sound::VirtioSndPcmSetParams;
use std::collections::HashMap;
use vstd::prelude::*;

verus! {

broadcast use vstd::std_specs::hash::group_hash_axioms;

/// The state of a pipeline.
#[derive(Debug, Clone, Copy, PartialEq, Eq, Structural)]
pub enum PipelineState {
    VoidPending,
    Null,
    Ready,
    Paused,
    Playing,
}

/// How GStreamer or a channel describes a failure: for users and for debugging.
#[derive(Debug, PartialEq, Eq)]
pub struct Failure {
    pub display: String,
    pub debug: String,
}

/// What has been prepared for a stream.
#[derive(Debug)]
pub struct GstStreamHandle<P, S, K> {
    pub pipeline: P,
    /// For playback.
    pub appsrc: Option<S>,
    /// For capture.
    pub appsink: Option<K>,
}

/// The streams, what has been prepared for them, and the number of workers:
/// the worker with number `n` serves the stream with number `n`.
#[derive(Debug)]
pub struct GStreamerBackend<M, P, S, K> {
    pub senders: usize,
    pub streams: Vec<Stream<M>>,
    pub handles: HashMap<u32, GstStreamHandle<P, S, K>>,
}

/// What has happened during `read` or `start`.
#[derive(Debug, PartialEq, Eq)]
pub enum PlayEvent {
    Called,
    /// The pipeline's state was set.
    StateSet(Result<(), Failure>),
    /// The worker was signalled.
    Signalled(Result<(), Failure>),
}

/// What has happened during `write`.
#[derive(Debug, PartialEq, Eq)]
pub enum WriteEvent {
    Called,
    /// The worker was signalled.
    Signalled(Result<(), Failure>),
}

/// What has happened during `stop`.
#[derive(Debug, PartialEq, Eq)]
pub enum StopEvent {
    Called,
    /// The pipeline's state was set.
    StateSet(Result<(), Failure>),
}

/// What to do next for `read`, `write`, `start` or `stop`.
#[derive(Debug, PartialEq, Eq)]
pub enum Action {
    /// Set the state of the stream's pipeline.
    SetState(PipelineState),
    /// Wake the worker with this number.
    Signal(usize),
    /// The command is over.
    Return(Result<(), Error>),
}

/// What has happened during `prepare`.
#[derive(Debug, PartialEq, Eq)]
pub enum PrepareEvent<P, S, K> {
    Called,
    /// The state that the pipeline is changing to was read, or nothing could be
    /// learned of it.
    StateRead(Option<PipelineState>),
    /// A pipeline was built.
    Built(Result<(), GsError>),
    /// An element was looked up in the pipeline.
    Found { end: End, found: bool },
    /// The element at the application end was taken for what it should be.
    Cast(bool),
    /// The application source of this pipeline was configured.
    SourceConfigured(P, S),
    /// The application sink of this pipeline was configured.
    SinkConfigured(P, K),
    /// The pipeline's state was set.
    StateSet(Result<(), Failure>),
}

/// What to do next for `prepare`.
#[derive(Debug, PartialEq, Eq)]
pub enum PrepareAction {
    /// Read which state the pipeline that the stream has is changing to.
    QueryState,
    /// Build a pipeline for this stream in this direction.
    Build(u32, Direction),
    /// Look up an element in the pipeline.
    Find(ElementName),
    /// Take an element for an application source or sink.
    Cast(ElementName),
    /// Configure the application source.
    ConfigureSource(AppSrcConfig),
    /// Configure the application sink.
    ConfigureSink(AppSinkConfig),
    /// Set the state of the pipeline.
    SetState(PipelineState),
    /// The command is over.
    Return(Result<(), Error>),
}

/// A backend, for specifications.
#[verifier::ext_equal]
pub struct Model<M, P, S, K> {
    pub senders: nat,
    pub streams: Seq<Stream<M>>,
    pub handles: Map<u32, GstStreamHandle<P, S, K>>,
}

impl<M, P, S, K> View for GStreamerBackend<M, P, S, K> {
    type V = Model<M, P, S, K>;

    open spec fn view(&self) -> Model<M, P, S, K> {
        Model { senders: self.senders as nat, streams: self.streams@, handles: self.handles@ }
    }
}

/// The end at which the application feeds or drains a pipeline.
pub open spec fn application_end(direction: Direction) -> End {
    match direction {
        Direction::Output => End::Source,
        Direction::Input => End::Sink,
    }
}

/// An unexpected error of the backend, as the result of a command.
pub open spec fn unexpected(e: BackendError) -> Result<(), Error> {
    Err(Error::UnexpectedAudioBackendError(e))
}

impl<M, P, S, K> Model<M, P, S, K> {
    /// Whether there is a stream with this number.
    pub open spec fn has_stream(self, id: u32) -> bool {
        id < self.streams.len()
    }

    /// The stream with this number.
    pub open spec fn stream(self, id: u32) -> Stream<M>
        recommends
            self.has_stream(id),
    {
        self.streams[id as int]
    }

    /// Whether the stream has a format and a rate that a pipeline can have.
    pub open spec fn configurable(self, id: u32) -> bool {
        caps_for(self.stream(id).params) is Ok
    }

    /// The backend with one stream replaced.
    pub open spec fn with_stream(self, id: u32, stream: Stream<M>) -> Self {
        Model { streams: self.streams.update(id as int, stream), ..self }
    }

    /// The backend with one stream in another state.
    pub open spec fn with_state(self, id: u32, state: PCMState) -> Self {
        self.with_stream(id, Stream { state, ..self.stream(id) })
    }

    /// Wakes the worker of a stream that is prepared or started. `operation`
    /// is what the guest asked for.
    pub open spec fn signal(self, id: u32, operation: &'static str) -> Action {
        if !self.has_stream(id) {
            Action::Return(Err(Error::StreamWithIdNotFound(id)))
        } else if !(self.stream(id).state is Start || self.stream(id).state is Prepare) {
            Action::Return(
                Err(Error::Stream(StreamError::InvalidState(operation, self.stream(id).state))),
            )
        } else if id >= self.senders {
            Action::Return(unexpected(BackendError::SenderOutOfBounds))
        } else {
            Action::Signal(id as usize)
        }
    }

    /// Sets the state of the pipeline that was prepared for a stream.
    pub open spec fn set_state(self, id: u32, state: PipelineState) -> Action {
        if self.handles.contains_key(id) {
            Action::SetState(state)
        } else {
            Action::Return(Err(Error::StreamWithIdNotFound(id)))
        }
    }

    /// What `read` does next.
    pub open spec fn read(self, id: u32, event: PlayEvent) -> Action {
        match event {
            PlayEvent::Called => self.set_state(id, PipelineState::Playing),
            PlayEvent::StateSet(Err(failure)) => Action::Return(
                unexpected(BackendError::ReadPipelineFailed(failure.display)),
            ),
            PlayEvent::StateSet(Ok(())) => self.signal(id, "read"),
            PlayEvent::Signalled(Err(failure)) => Action::Return(
                unexpected(BackendError::SignalFailed(failure.display)),
            ),
            PlayEvent::Signalled(Ok(())) => Action::Return(Ok(())),
        }
    }

    /// What `write` does next.
    pub open spec fn write(self, id: u32, event: WriteEvent) -> Action {
        match event {
            WriteEvent::Called => self.signal(id, "write"),
            WriteEvent::Signalled(Err(failure)) => Action::Return(
                unexpected(BackendError::WriteSignalFailed(failure.display)),
            ),
            WriteEvent::Signalled(Ok(())) => Action::Return(Ok(())),
        }
    }

    /// What `stop` does next.
    pub open spec fn stop(self, id: u32, event: StopEvent) -> Action {
        match event {
            StopEvent::Called => self.set_state(id, PipelineState::Null),
            StopEvent::StateSet(Err(failure)) => Action::Return(
                unexpected(BackendError::StopPipelineFailed(failure.display)),
            ),
            StopEvent::StateSet(Ok(())) => Action::Return(Ok(())),
        }
    }

    /// What `start` does next.
    pub open spec fn start(self, id: u32, event: PlayEvent) -> Action {
        match event {
            PlayEvent::Called => self.set_state(id, PipelineState::Playing),
            PlayEvent::StateSet(Err(failure)) => Action::Return(
                unexpected(BackendError::StartPipelineFailed(failure.debug)),
            ),
            PlayEvent::StateSet(Ok(())) => if self.has_stream(id) {
                Action::Signal(id as usize)
            } else {
                Action::Return(Err(Error::StreamWithIdNotFound(id)))
            },
            PlayEvent::Signalled(Err(failure)) => Action::Return(
                unexpected(BackendError::WriteSignalFailed(failure.display)),
            ),
            PlayEvent::Signalled(Ok(())) => Action::Return(Ok(())),
        }
    }

    /// What `start` makes of the backend: once the pipeline plays, a prepared
    /// stream is started.
    pub open spec fn after_start(self, id: u32, event: PlayEvent) -> Self {
        match event {
            PlayEvent::StateSet(Ok(())) if self.has_stream(id) && self.stream(
                id,
            ).state is Prepare => self.with_state(id, PCMState::Start),
            _ => self,
        }
    }

    /// Builds a pipeline unless the stream is running.
    pub open spec fn build_unless_running(self, id: u32) -> PrepareAction {
        if self.stream(id).state is Start {
            PrepareAction::Return(Ok(()))
        } else {
            PrepareAction::Build(id, self.stream(id).direction)
        }
    }

    /// What `prepare` does next.
    pub open spec fn prepare(self, id: u32, event: PrepareEvent<P, S, K>) -> PrepareAction {
        if !self.has_stream(id) {
            PrepareAction::Return(Err(Error::StreamWithIdNotFound(id)))
        } else {
            let source = ElementName { end: End::Source, id };
            let sink = ElementName { end: End::Sink, id };
            match event {
                PrepareEvent::Called => if self.handles.contains_key(id) {
                    PrepareAction::QueryState
                } else {
                    self.build_unless_running(id)
                },
                PrepareEvent::StateRead(Some(PipelineState::Playing | PipelineState::Paused)) =>
                    PrepareAction::Return(Ok(())),
                PrepareEvent::StateRead(_) => self.build_unless_running(id),
                PrepareEvent::Built(Err(e)) => PrepareAction::Return(
                    unexpected(BackendError::Pipeline(e)),
                ),
                PrepareEvent::Built(Ok(())) => PrepareAction::Find(source),
                PrepareEvent::Found { end, found: false } => PrepareAction::Return(
                    unexpected(BackendError::ElementNotFound(ElementName { end, id })),
                ),
                PrepareEvent::Found { end: End::Source, found: true } => PrepareAction::Find(sink),
                PrepareEvent::Found { end: End::Sink, found: true } => PrepareAction::Cast(
                    ElementName { end: application_end(self.stream(id).direction), id },
                ),
                PrepareEvent::Cast(false) => PrepareAction::Return(
                    unexpected(
                        BackendError::DowncastFailed(
                            ElementName { end: application_end(self.stream(id).direction), id },
                        ),
                    ),
                ),
                PrepareEvent::Cast(true) => match self.stream(id).direction {
                    Direction::Output => PrepareAction::ConfigureSource(
                        source_config(self.stream(id).params)->Ok_0,
                    ),
                    Direction::Input => PrepareAction::ConfigureSink(
                        sink_config(self.stream(id).params)->Ok_0,
                    ),
                },
                PrepareEvent::SourceConfigured(_, _) | PrepareEvent::SinkConfigured(_, _) =>
                    PrepareAction::SetState(PipelineState::Ready),
                PrepareEvent::StateSet(Err(failure)) => PrepareAction::Return(
                    unexpected(BackendError::ReadyPipelineFailed(failure.debug)),
                ),
                PrepareEvent::StateSet(Ok(())) => PrepareAction::Return(
                    match transition_result(self.stream(id).state, PCMState::Prepare) {
                        Ok(()) => Ok(()),
                        Err(e) => Err(Error::Stream(e)),
                    },
                ),
            }
        }
    }

    /// What `prepare` makes of the backend: a configured pipeline becomes the
    /// stream's, and once the pipeline is ready, the stream is prepared if its
    /// state admits it.
    pub open spec fn after_prepare(self, id: u32, event: PrepareEvent<P, S, K>) -> Self {
        if !self.has_stream(id) {
            self
        } else {
            match event {
                PrepareEvent::SourceConfigured(pipeline, appsrc) => Model {
                    handles: self.handles.insert(
                        id,
                        GstStreamHandle { pipeline, appsrc: Some(appsrc), appsink: None },
                    ),
                    ..self
                },
                PrepareEvent::SinkConfigured(pipeline, appsink) => Model {
                    handles: self.handles.insert(
                        id,
                        GstStreamHandle { pipeline, appsrc: None, appsink: Some(appsink) },
                    ),
                    ..self
                },
                PrepareEvent::StateSet(Ok(())) => self.with_state(
                    id,
                    state_after(self.stream(id).state, PCMState::Prepare),
                ),
                _ => self,
            }
        }
    }

    /// What `set_parameters` returns.
    pub open spec fn set_parameters(self, id: u32, request: VirtioSndPcmSetParams) -> Result<
        (),
        Error,
    > {
        if !self.has_stream(id) {
            Err(Error::StreamWithIdNotFound(id))
        } else {
            match transition_result(self.stream(id).state, PCMState::SetParameters) {
                Err(e) => Err(Error::Stream(e)),
                Ok(()) => if supports(self.stream(id), request) {
                    Ok(())
                } else {
                    Err(Error::UnexpectedAudioBackendConfiguration)
                },
            }
        }
    }

    /// What `set_parameters` makes of the backend.
    pub open spec fn after_set_parameters(self, id: u32, request: VirtioSndPcmSetParams) -> Self {
        if !self.has_stream(id) {
            self
        } else {
            let stream = self.stream(id);
            let params = if self.set_parameters(id, request) is Ok {
                requested_params(request)
            } else {
                stream.params
            };
            self.with_stream(
                id,
                Stream { state: state_after(stream.state, PCMState::SetParameters), params, ..stream },
            )
        }
    }
}

/// Whether a stream can run with the requested format and rate.
pub open spec fn supports<M>(stream: Stream<M>, request: VirtioSndPcmSetParams) -> bool {
    has_bit(stream.formats, request.format) && has_bit(stream.rates, request.rate)
}

/// The parameters that a request asks for.
pub open spec fn requested_params(request: VirtioSndPcmSetParams) -> PcmParams {
    PcmParams {
        buffer_bytes: request.buffer_bytes,
        period_bytes: request.period_bytes,
        features: request.features,
        channels: request.channels,
        format: request.format,
        rate: request.rate,
    }
}

impl<M, P, S, K> GStreamerBackend<M, P, S, K> {
    /// A backend for these streams, with one worker for each and nothing
    /// prepared.
    pub fn new(streams: Vec<Stream<M>>) -> (r: Self)
        ensures
            r@ == (Model {
                senders: streams@.len(),
                streams: streams@,
                handles: Map::<u32, GstStreamHandle<P, S, K>>::empty(),
            }),
    {
        GStreamerBackend { senders: streams.len(), streams, handles: HashMap::new() }
    }

    /// Wakes the worker of a stream that is prepared or started.
    fn signal(&self, stream_id: u32, operation: &'static str) -> (r: Action)
        ensures
            r == self@.signal(stream_id, operation),
    {
        let index = stream_id as usize;
        if index >= self.streams.len() {
            return Action::Return(Err(Error::StreamWithIdNotFound(stream_id)));
        }
        let state = self.streams[index].state;
        match state {
            PCMState::Start | PCMState::Prepare => {
                if index >= self.senders {
                    Action::Return(
                        Err(Error::UnexpectedAudioBackendError(BackendError::SenderOutOfBounds)),
                    )
                } else {
                    Action::Signal(index)
                }
            },
            _ => Action::Return(Err(Error::Stream(StreamError::InvalidState(operation, state)))),
        }
    }

    /// Sets the state of the pipeline that was prepared for a stream.
    fn set_state(&self, stream_id: u32, state: PipelineState) -> (r: Action)
        ensures
            r == self@.set_state(stream_id, state),
    {
        if self.handles.contains_key(&stream_id) {
            Action::SetState(state)
        } else {
            Action::Return(Err(Error::StreamWithIdNotFound(stream_id)))
        }
    }

    /// Sets the stream's pipeline playing and wakes its worker.
    pub fn read(&self, stream_id: u32, event: PlayEvent) -> (r: Action)
        ensures
            r == self@.read(stream_id, event),
            r matches Action::Signal(worker) ==> worker == stream_id && stream_id
                < self.streams@.len() && stream_id < self.senders,
    {
        match event {
            PlayEvent::Called => self.set_state(stream_id, PipelineState::Playing),
            PlayEvent::StateSet(Ok(())) => self.signal(stream_id, "read"),
            PlayEvent::StateSet(Err(failure)) => Action::Return(
                Err(
                    Error::UnexpectedAudioBackendError(
                        BackendError::ReadPipelineFailed(failure.display),
                    ),
                ),
            ),
            PlayEvent::Signalled(Ok(())) => Action::Return(Ok(())),
            PlayEvent::Signalled(Err(failure)) => Action::Return(
                Err(
                    Error::UnexpectedAudioBackendError(BackendError::SignalFailed(failure.display)),
                ),
            ),
        }
    }

    /// Resets the stream's pipeline.
    pub fn stop(&self, stream_id: u32, event: StopEvent) -> (r: Action)
        ensures
            r == self@.stop(stream_id, event),
    {
        match event {
            StopEvent::Called => self.set_state(stream_id, PipelineState::Null),
            StopEvent::StateSet(Ok(())) => Action::Return(Ok(())),
            StopEvent::StateSet(Err(failure)) => Action::Return(
                Err(
                    Error::UnexpectedAudioBackendError(
                        BackendError::StopPipelineFailed(failure.display),
                    ),
                ),
            ),
        }
    }

    /// Wakes the stream's worker.
    pub fn write(&self, stream_id: u32, event: WriteEvent) -> (r: Action)
        ensures
            r == self@.write(stream_id, event),
            r matches Action::Signal(worker) ==> worker == stream_id && stream_id
                < self.streams@.len() && stream_id < self.senders,
    {
        match event {
            WriteEvent::Called => self.signal(stream_id, "write"),
            WriteEvent::Signalled(Ok(())) => Action::Return(Ok(())),
            WriteEvent::Signalled(Err(failure)) => Action::Return(
                Err(
                    Error::UnexpectedAudioBackendError(
                        BackendError::WriteSignalFailed(failure.display),
                    ),
                ),
            ),
        }
    }

    /// Sets the stream's pipeline playing, starts the stream and wakes its
    /// worker. That there is such a worker is not checked.
    pub fn start(&mut self, stream_id: u32, event: PlayEvent) -> (r: Action)
        ensures
            r == old(self)@.start(stream_id, event),
            r matches Action::Signal(worker) ==> worker == stream_id,
            final(self)@ == old(self)@.after_start(stream_id, event),
    {
        match event {
            PlayEvent::Called => self.set_state(stream_id, PipelineState::Playing),
            PlayEvent::StateSet(Ok(())) => {
                let index = stream_id as usize;
                if index >= self.streams.len() {
                    return Action::Return(Err(Error::StreamWithIdNotFound(stream_id)));
                }
                if let PCMState::Prepare = self.streams[index].state {
                    match self.streams[index].state.start() {
                        Ok(()) => {},
                        Err(e) => {
                            return Action::Return(Err(Error::Stream(e)));
                        },
                    }
                    assert(self@ == old(self)@.with_state(stream_id, PCMState::Start));
                }
                Action::Signal(index)
            },
            PlayEvent::StateSet(Err(failure)) => Action::Return(
                Err(
                    Error::UnexpectedAudioBackendError(
                        BackendError::StartPipelineFailed(failure.debug),
                    ),
                ),
            ),
            PlayEvent::Signalled(Ok(())) => Action::Return(Ok(())),
            PlayEvent::Signalled(Err(failure)) => Action::Return(
                Err(
                    Error::UnexpectedAudioBackendError(
                        BackendError::WriteSignalFailed(failure.display),
                    ),
                ),
            ),
        }
    }

    /// Builds and configures a pipeline for the stream, unless it has one that
    /// is live, makes it ready and prepares the stream. A pipeline can only be
    /// configured if the format and rate of the stream are known ones.
    pub fn prepare(&mut self, stream_id: u32, event: PrepareEvent<P, S, K>) -> (r: PrepareAction)
        requires
            (event matches PrepareEvent::Cast(true)) && old(self)@.has_stream(stream_id)
                ==> old(self)@.configurable(stream_id),
        ensures
            r == old(self)@.prepare(stream_id, event),
            final(self)@ == old(self)@.after_prepare(stream_id, event),
    {
        let index = stream_id as usize;
        if index >= self.streams.len() {
            return PrepareAction::Return(Err(Error::StreamWithIdNotFound(stream_id)));
        }
        match event {
            PrepareEvent::Called => {
                if self.handles.contains_key(&stream_id) {
                    PrepareAction::QueryState
                } else {
                    self.build_unless_running(stream_id)
                }
            },
            PrepareEvent::StateRead(state) => {
                match state {
                    Some(PipelineState::Playing) | Some(PipelineState::Paused) => {
                        PrepareAction::Return(Ok(()))
                    },
                    _ => self.build_unless_running(stream_id),
                }
            },
            PrepareEvent::Built(Ok(())) => PrepareAction::Find(
                ElementName { end: End::Source, id: stream_id },
            ),
            PrepareEvent::Built(Err(e)) => PrepareAction::Return(
                Err(Error::UnexpectedAudioBackendError(BackendError::Pipeline(e))),
            ),
            PrepareEvent::Found { end, found } => {
                if !found {
                    return PrepareAction::Return(
                        Err(
                            Error::UnexpectedAudioBackendError(
                                BackendError::ElementNotFound(ElementName { end, id: stream_id }),
                            ),
                        ),
                    );
                }
                match end {
                    End::Source => PrepareAction::Find(
                        ElementName { end: End::Sink, id: stream_id },
                    ),
                    End::Sink => PrepareAction::Cast(self.application_element(stream_id)),
                }
            },
            PrepareEvent::Cast(false) => PrepareAction::Return(
                Err(
                    Error::UnexpectedAudioBackendError(
                        BackendError::DowncastFailed(self.application_element(stream_id)),
                    ),
                ),
            ),
            PrepareEvent::Cast(true) => {
                let stream = &self.streams[index];
                match stream.direction {
                    Direction::Output => match configure_appsrc_for_stream(stream) {
                        Ok(config) => PrepareAction::ConfigureSource(config),
                        Err(e) => PrepareAction::Return(Err(e)),
                    },
                    Direction::Input => match configure_appsink_for_stream(stream) {
                        Ok(config) => PrepareAction::ConfigureSink(config),
                        Err(e) => PrepareAction::Return(Err(e)),
                    },
                }
            },
            PrepareEvent::SourceConfigured(pipeline, appsrc) => {
                let handle = GstStreamHandle { pipeline, appsrc: Some(appsrc), appsink: None };
                let _ = self.handles.insert(stream_id, handle);
                PrepareAction::SetState(PipelineState::Ready)
            },
            PrepareEvent::SinkConfigured(pipeline, appsink) => {
                let handle = GstStreamHandle { pipeline, appsrc: None, appsink: Some(appsink) };
                let _ = self.handles.insert(stream_id, handle);
                PrepareAction::SetState(PipelineState::Ready)
            },
            PrepareEvent::StateSet(Ok(())) => {
                let result = self.streams[index].state.prepare();
                assert(self@ == old(self)@.with_state(
                    stream_id,
                    state_after(old(self)@.stream(stream_id).state, PCMState::Prepare),
                ));
                match result {
                    Ok(()) => PrepareAction::Return(Ok(())),
                    Err(e) => PrepareAction::Return(Err(Error::Stream(e))),
                }
            },
            PrepareEvent::StateSet(Err(failure)) => PrepareAction::Return(
                Err(
                    Error::UnexpectedAudioBackendError(
                        BackendError::ReadyPipelineFailed(failure.debug),
                    ),
                ),
            ),
        }
    }

    /// The name of the element at the application end of the stream's pipeline.
    fn application_element(&self, stream_id: u32) -> (r: ElementName)
        requires
            self@.has_stream(stream_id),
        ensures
            r == (ElementName {
                end: application_end(self@.stream(stream_id).direction),
                id: stream_id,
            }),
    {
        let end = match self.streams[stream_id as usize].direction {
            Direction::Output => End::Source,
            Direction::Input => End::Sink,
        };
        ElementName { end, id: stream_id }
    }

    /// Builds a pipeline unless the stream is running.
    fn build_unless_running(&self, stream_id: u32) -> (r: PrepareAction)
        requires
            self@.has_stream(stream_id),
        ensures
            r == self@.build_unless_running(stream_id),
    {
        let index = stream_id as usize;
        match self.streams[index].state {
            PCMState::Start => PrepareAction::Return(Ok(())),
            _ => PrepareAction::Build(stream_id, self.streams[index].direction),
        }
    }

    /// Releases the stream, which takes no work: what was prepared for it
    /// stays.
    pub fn release(&self, _stream_id: u32) -> (r: Result<(), Error>)
        ensures
            r == Ok::<(), Error>(()),
    {
        Ok(())
    }

    /// Gives the stream new parameters. The stream's state comes first: where
    /// the parameters are refused, the state has changed already.
    pub fn set_parameters(
        &mut self,
        stream_id: u32,
        request: VirtioSndPcmSetParams,
    ) -> (r: Result<(), Error>)
        ensures
            r == old(self)@.set_parameters(stream_id, request),
            final(self)@ == old(self)@.after_set_parameters(stream_id, request),
    {
        let index = stream_id as usize;
        if index >= self.streams.len() {
            return Err(Error::StreamWithIdNotFound(stream_id));
        }
        match self.streams[index].state.set_parameters() {
            Ok(()) => {},
            Err(e) => {
                assert(self@ == old(self)@);
                return Err(Error::Stream(e));
            },
        }
        if !self.streams[index].supports_format(request.format)
            || !self.streams[index].supports_rate(request.rate) {
            assert(self@ == old(self)@.with_state(stream_id, PCMState::SetParameters));
            return Err(Error::UnexpectedAudioBackendConfiguration);
        }
        self.streams[index].params.buffer_bytes = request.buffer_bytes;
        self.streams[index].params.period_bytes = request.period_bytes;
        self.streams[index].params.features = request.features;
        self.streams[index].params.channels = request.channels;
        self.streams[index].params.format = request.format;
        self.streams[index].params.rate = request.rate;
        assert(self@ == old(self)@.after_set_parameters(stream_id, request));
        Ok(())
    }
}

} // verus!
