//! What holds of the commands of the backend as a whole.

use crate::backend::{
    requested_params, supports, unexpected, Action, Failure, GstStreamHandle, Model, PipelineState,
    PlayEvent, PrepareAction, PrepareEvent, StopEvent, WriteEvent,
};
use crate::caps::caps_for;
use crate::error::{BackendError, Error, GsError};
use crate::locks::{
    play_need, prepare_need, refused, stop_need, unlearned, write_need, Command, Lock, Poison,
};
use crate::pipeline::{
    lemma_application_end, lemma_ends_are_named, pipeline_elements, End, Factory,
};
use crate::samples::{
    backed, backlog, content, lemma_begin_drawn_from, lemma_in_step, lemma_samples_arrive_in_order,
    lemma_served_in_order, lemma_true_means_progress, Ask, Reply, Samples,
};
use crate::stream::{valid_transition, Direction, Error as StreamError, PCMState};
use crate::virtio_sound::VirtioSndPcmSetParams;
use crate::worker::{has_buffers, next_action, WorkerAction, WorkerEvent};
use vstd::prelude::*;

verus! {

/// Whether a handle has the application end that the direction calls for, and
/// not the other.
pub open spec fn fits<P, S, K>(handle: GstStreamHandle<P, S, K>, direction: Direction) -> bool {
    match direction {
        Direction::Output => handle.appsrc is Some && handle.appsink is None,
        Direction::Input => handle.appsrc is None && handle.appsink is Some,
    }
}

/// Whether the event is about the application end that the direction calls for,
/// if it is about one that was configured.
pub open spec fn agrees<P, S, K>(event: PrepareEvent<P, S, K>, direction: Direction) -> bool {
    match event {
        PrepareEvent::SourceConfigured(_, _) => direction is Output,
        PrepareEvent::SinkConfigured(_, _) => direction is Input,
        _ => true,
    }
}

/// Which locks are poisoned in the course of a command: when it is called, once
/// the pipeline's state was set, and once the worker was signalled.
pub struct Locks {
    pub called: Poison,
    pub set: Poison,
    pub sent: Poison,
}

/// How the outside steps of a `prepare` go.
pub struct Preparation<P, S, K> {
    /// Which locks are poisoned when `prepare` is called.
    pub called: Poison,
    /// Which locks are poisoned when the pipeline's state is asked for.
    pub asked: Poison,
    /// Which locks are poisoned when the new pipeline is stored.
    pub stored: Poison,
    /// The state that the pipeline which the stream has is changing to.
    pub state: Option<PipelineState>,
    pub built: Result<(), GsError>,
    pub source_found: bool,
    pub sink_found: bool,
    pub cast: bool,
    pub pipeline: P,
    pub appsrc: S,
    pub appsink: K,
    pub ready: Result<(), Failure>,
}

impl<P, S, K> Preparation<P, S, K> {
    /// Whether a new pipeline can be built and its application end be found.
    pub open spec fn yields_a_pipeline(self) -> bool {
        self.built is Ok && self.source_found && self.sink_found && self.cast
    }

    /// Whether a new pipeline can be built, configured, stored and made ready.
    pub open spec fn all_goes_well(self) -> bool {
        self.yields_a_pipeline() && !self.stored.handles && self.ready is Ok
    }

    /// What `prepare` is told when it asks for the state that the pipeline is
    /// changing to.
    pub open spec fn state_event(self) -> PrepareEvent<P, S, K> {
        match unlearned::<P, S, K>(self.asked) {
            Some(event) => event,
            None => PrepareEvent::StateRead(self.state),
        }
    }

    /// Whether the pipeline is learned to be changing to playing or paused.
    pub open spec fn learns_of_life(self) -> bool {
        !self.asked.handles && (self.state == Some(PipelineState::Playing) || self.state == Some(
            PipelineState::Paused,
        ))
    }

    /// What is prepared for a stream of this direction.
    pub open spec fn handle(self, direction: Direction) -> GstStreamHandle<P, S, K> {
        match direction {
            Direction::Output => GstStreamHandle {
                pipeline: self.pipeline,
                appsrc: Some(self.appsrc),
                appsink: None,
            },
            Direction::Input => GstStreamHandle {
                pipeline: self.pipeline,
                appsrc: None,
                appsink: Some(self.appsink),
            },
        }
    }
}

impl<M, P, S, K> Model<M, P, S, K> {
    /// There is one worker for each stream, and what has been prepared belongs
    /// to a stream and fits its direction.
    pub open spec fn wf(self) -> bool {
        &&& self.senders == self.streams.len()
        &&& forall|id: u32| #[trigger]
            self.handles.contains_key(id) ==> self.has_stream(id) && fits(
                self.handles[id],
                self.stream(id).direction,
            )
    }

    /// Whether `later` is this backend with at most the state and parameters of
    /// stream `id`, and what was prepared for it, changed.
    pub open spec fn differs_only_in(self, later: Self, id: u32) -> bool {
        &&& later.senders == self.senders
        &&& later.streams.len() == self.streams.len()
        &&& forall|i: int|
            0 <= i < self.streams.len() && i != id ==> #[trigger] later.streams[i]
                == self.streams[i]
        &&& forall|other: u32|
            other != id ==> #[trigger] later.handles.contains_key(other)
                == self.handles.contains_key(other) && later.handles[other] == self.handles[other]
        &&& self.has_stream(id) ==> {
            &&& later.stream(id).requests == self.stream(id).requests
            &&& later.stream(id).direction == self.stream(id).direction
            &&& later.stream(id).formats == self.stream(id).formats
            &&& later.stream(id).rates == self.stream(id).rates
        }
    }

    /// What `read` returns if the locks, the pipeline and the worker are found
    /// like this.
    pub open spec fn read_result(
        self,
        id: u32,
        locks: Locks,
        set: Result<(), Failure>,
        sent: Result<(), Failure>,
    ) -> Result<(), Error> {
        let is_set = PlayEvent::StateSet(set);
        let is_sent = PlayEvent::Signalled(sent);
        if let Some(e) = refused(Command::Read, play_need(PlayEvent::Called), locks.called) {
            Err(e)
        } else if let Action::Return(result) = self.read(id, PlayEvent::Called) {
            result
        } else if let Some(e) = refused(Command::Read, play_need(is_set), locks.set) {
            Err(e)
        } else if let Action::Return(result) = self.read(id, is_set) {
            result
        } else if let Some(e) = refused(Command::Read, play_need(is_sent), locks.sent) {
            Err(e)
        } else {
            self.read(id, is_sent)->Return_0
        }
    }

    /// What `write` returns if the locks and the worker are found like this.
    pub open spec fn write_result(
        self,
        id: u32,
        locks: Locks,
        sent: Result<(), Failure>,
    ) -> Result<(), Error> {
        let is_sent = WriteEvent::Signalled(sent);
        if let Some(e) = refused(Command::Write, write_need(WriteEvent::Called), locks.called) {
            Err(e)
        } else if let Action::Return(result) = self.write(id, WriteEvent::Called) {
            result
        } else if let Some(e) = refused(Command::Write, write_need(is_sent), locks.sent) {
            Err(e)
        } else {
            self.write(id, is_sent)->Return_0
        }
    }

    /// What `stop` returns if the locks and the pipeline are found like this.
    pub open spec fn stop_result(
        self,
        id: u32,
        locks: Locks,
        set: Result<(), Failure>,
    ) -> Result<(), Error> {
        let is_set = StopEvent::StateSet(set);
        if let Some(e) = refused(Command::Stop, stop_need(StopEvent::Called), locks.called) {
            Err(e)
        } else if let Action::Return(result) = self.stop(id, StopEvent::Called) {
            result
        } else if let Some(e) = refused(Command::Stop, stop_need(is_set), locks.set) {
            Err(e)
        } else {
            self.stop(id, is_set)->Return_0
        }
    }

    /// What `start` makes of the backend, and returns, if the locks, the
    /// pipeline and the worker are found like this.
    pub open spec fn start_outcome(
        self,
        id: u32,
        locks: Locks,
        set: Result<(), Failure>,
        sent: Result<(), Failure>,
    ) -> (Self, Result<(), Error>) {
        let is_set = PlayEvent::StateSet(set);
        let is_sent = PlayEvent::Signalled(sent);
        let playing = self.after_start(id, is_set);
        if let Some(e) = refused(Command::Start, play_need(PlayEvent::Called), locks.called) {
            (self, Err(e))
        } else if let Action::Return(result) = self.start(id, PlayEvent::Called) {
            (self, result)
        } else if let Some(e) = refused(Command::Start, play_need(is_set), locks.set) {
            (self, Err(e))
        } else if let Action::Return(result) = self.start(id, is_set) {
            (playing, result)
        } else if let Some(e) = refused(Command::Start, play_need(is_sent), locks.sent) {
            (playing, Err(e))
        } else {
            (playing.after_start(id, is_sent), playing.start(id, is_sent)->Return_0)
        }
    }

    /// What `set_parameters` makes of the backend, and returns, if the locks
    /// are found like this.
    pub open spec fn set_parameters_outcome(
        self,
        id: u32,
        poison: Poison,
        request: VirtioSndPcmSetParams,
    ) -> (Self, Result<(), Error>) {
        if let Some(e) = refused(Command::SetParameters, Some(Lock::Streams), poison) {
            (self, Err(e))
        } else {
            (self.after_set_parameters(id, request), self.set_parameters(id, request))
        }
    }

    /// What `prepare` makes of the backend, and returns, if its outside steps
    /// go like this.
    pub open spec fn prepare_outcome(self, id: u32, steps: Preparation<P, S, K>) -> (
        Self,
        Result<(), Error>,
    ) {
        let first = self.prepare(id, PrepareEvent::Called);
        let second = if first is QueryState {
            self.prepare(id, steps.state_event())
        } else {
            first
        };
        let found_source = PrepareEvent::Found { end: End::Source, found: steps.source_found };
        let found_sink = PrepareEvent::Found { end: End::Sink, found: steps.sink_found };
        let cast = PrepareEvent::Cast(steps.cast);
        let configured = if self.prepare(id, cast) is ConfigureSource {
            PrepareEvent::SourceConfigured(steps.pipeline, steps.appsrc)
        } else {
            PrepareEvent::SinkConfigured(steps.pipeline, steps.appsink)
        };
        let called = prepare_need(PrepareEvent::<P, S, K>::Called);
        if let Some(e) = refused(Command::Prepare, called, steps.called) {
            (self, Err(e))
        } else if let PrepareAction::Return(result) = second {
            (self, result)
        } else if let PrepareAction::Return(result) = self.prepare(
            id,
            PrepareEvent::Built(steps.built),
        ) {
            (self, result)
        } else if let PrepareAction::Return(result) = self.prepare(id, found_source) {
            (self, result)
        } else if let PrepareAction::Return(result) = self.prepare(id, found_sink) {
            (self, result)
        } else if let PrepareAction::Return(result) = self.prepare(id, cast) {
            (self, result)
        } else if let Some(e) = refused(Command::Prepare, prepare_need(configured), steps.stored) {
            (self, Err(e))
        } else {
            let ready = PrepareEvent::StateSet(steps.ready);
            let held = self.after_prepare(id, configured);
            (held.after_prepare(id, ready), held.prepare(id, ready)->Return_0)
        }
    }

    /// Whether a new pipeline can be configured, if it gets as far as that.
    pub open spec fn can_configure(self, id: u32, steps: Preparation<P, S, K>) -> bool {
        !steps.called.streams && self.has_stream(id) && !self.is_live(id, steps)
            && steps.yields_a_pipeline() ==> self.configurable(id)
    }

    /// Whether the stream is running, or has a pipeline that is learned to be
    /// changing to playing or paused.
    pub open spec fn is_live(self, id: u32, steps: Preparation<P, S, K>) -> bool {
        self.stream(id).state is Start || self.handles.contains_key(id) && steps.learns_of_life()
    }
}

/// A new backend is well-formed.
pub proof fn lemma_new_is_wf<M, P, S, K>(m: Model<M, P, S, K>)
    requires
        m.senders == m.streams.len(),
        m.handles == Map::<u32, GstStreamHandle<P, S, K>>::empty(),
    ensures
        m.wf(),
{
}

/// Every command keeps the backend well-formed, whatever happens during it.
pub proof fn lemma_commands_keep_wf<M, P, S, K>(
    m: Model<M, P, S, K>,
    id: u32,
    play: PlayEvent,
    prepare: PrepareEvent<P, S, K>,
    request: VirtioSndPcmSetParams,
)
    requires
        m.wf(),
        m.has_stream(id) ==> agrees(prepare, m.stream(id).direction),
    ensures
        m.after_start(id, play).wf(),
        m.after_prepare(id, prepare).wf(),
        m.after_set_parameters(id, request).wf(),
{
}

/// `prepare` has the application end configured that agrees with the
/// direction, so that what is configured next agrees with it too.
pub proof fn lemma_prepare_configures_the_application_end<M, P, S, K>(
    m: Model<M, P, S, K>,
    id: u32,
    event: PrepareEvent<P, S, K>,
)
    ensures
        m.prepare(id, event) is ConfigureSource ==> m.stream(id).direction is Output,
        m.prepare(id, event) is ConfigureSink ==> m.stream(id).direction is Input,
{
}

/// The element that `prepare` takes for an application source or sink is one:
/// in the pipeline that was built, nothing but it has that name.
pub proof fn lemma_application_element_is_one<M, P, S, K>(
    m: Model<M, P, S, K>,
    id: u32,
    event: PrepareEvent<P, S, K>,
    i: int,
)
    requires
        m.prepare(id, event) is Cast,
        0 <= i < pipeline_elements(id, m.stream(id).direction).len(),
        pipeline_elements(id, m.stream(id).direction)[i].name == Some(
            m.prepare(id, event)->Cast_0,
        ),
    ensures
        pipeline_elements(id, m.stream(id).direction)[i].factory == match m.stream(id).direction {
            Direction::Output => Factory::AppSrc,
            Direction::Input => Factory::AppSink,
        },
{
    lemma_application_end(id, m.stream(id).direction, i);
    lemma_ends_are_named(id, m.stream(id).direction, m.prepare(id, event)->Cast_0.end, i);
}

/// The elements that `prepare` looks up are in the pipeline that was built.
pub proof fn lemma_looked_up_elements_exist<M, P, S, K>(
    m: Model<M, P, S, K>,
    id: u32,
    event: PrepareEvent<P, S, K>,
)
    requires
        m.prepare(id, event) is Find,
    ensures
        exists|i: int|
            0 <= i < pipeline_elements(id, m.stream(id).direction).len() && #[trigger]
                pipeline_elements(id, m.stream(id).direction)[i].name == Some(
                m.prepare(id, event)->Find_0,
            ),
{
    let elements = pipeline_elements(id, m.stream(id).direction);
    let i: int = match m.prepare(id, event)->Find_0.end {
        End::Source => 0,
        End::Sink => elements.len() - 1,
    };
    assert(elements[i].name == Some(m.prepare(id, event)->Find_0));
}

/// In a well-formed backend every existing stream has its worker: no command
/// reports that one is missing, and a worker that is to be woken exists.
pub proof fn lemma_every_stream_has_a_worker<M, P, S, K>(
    m: Model<M, P, S, K>,
    id: u32,
    operation: &'static str,
    event: PlayEvent,
)
    requires
        m.wf(),
    ensures
        m.has_stream(id) ==> id < m.senders,
        m.signal(id, operation) != Action::Return(unexpected(BackendError::SenderOutOfBounds)),
        m.signal(id, operation) matches Action::Signal(worker) ==> worker < m.senders,
        m.start(id, event) matches Action::Signal(worker) ==> worker < m.senders,
{
}

/// A command for one stream leaves all others alone, and never touches the
/// requests, the direction or the abilities of its own.
pub proof fn lemma_commands_touch_one_stream<M, P, S, K>(
    m: Model<M, P, S, K>,
    id: u32,
    play: PlayEvent,
    prepare: PrepareEvent<P, S, K>,
    request: VirtioSndPcmSetParams,
)
    ensures
        m.differs_only_in(m.after_start(id, play), id),
        m.differs_only_in(m.after_prepare(id, prepare), id),
        m.differs_only_in(m.after_set_parameters(id, request), id),
{
}

/// A whole `prepare`, however its outside steps go, keeps the backend
/// well-formed.
pub proof fn lemma_prepare_keeps_wf<M, P, S, K>(
    m: Model<M, P, S, K>,
    id: u32,
    steps: Preparation<P, S, K>,
)
    requires
        m.wf(),
        m.can_configure(id, steps),
    ensures
        m.prepare_outcome(id, steps).0.wf(),
{
}

/// A whole `prepare`, however its outside steps go, touches one stream. It
/// keeps the parameters of that stream, and never takes away what was prepared
/// for it before, though it may replace it.
pub proof fn lemma_prepare_touches_one_stream<M, P, S, K>(
    m: Model<M, P, S, K>,
    id: u32,
    steps: Preparation<P, S, K>,
)
    requires
        m.can_configure(id, steps),
    ensures
        m.differs_only_in(m.prepare_outcome(id, steps).0, id),
        m.has_stream(id) ==> m.prepare_outcome(id, steps).0.stream(id).params == m.stream(
            id,
        ).params,
        m.handles.contains_key(id) ==> m.prepare_outcome(id, steps).0.handles.contains_key(id),
{
}

/// A whole `start` and a whole `set_parameters`, however they go, keep the
/// backend well-formed and touch one stream. Neither changes what was prepared,
/// and `start` keeps the parameters.
pub proof fn lemma_start_and_set_parameters_keep_the_rest<M, P, S, K>(
    m: Model<M, P, S, K>,
    id: u32,
    locks: Locks,
    set: Result<(), Failure>,
    sent: Result<(), Failure>,
    request: VirtioSndPcmSetParams,
)
    ensures
        ({
            let started = m.start_outcome(id, locks, set, sent).0;
            &&& m.wf() ==> started.wf()
            &&& m.differs_only_in(started, id)
            &&& started.handles == m.handles
            &&& m.has_stream(id) ==> started.stream(id).params == m.stream(id).params
        }),
        ({
            let changed = m.set_parameters_outcome(id, locks.called, request).0;
            &&& m.wf() ==> changed.wf()
            &&& m.differs_only_in(changed, id)
            &&& changed.handles == m.handles
        }),
{
}

/// A command whose first lock is poisoned fails and changes nothing. `write`
/// names the streams; the others do not say which lock it was.
pub proof fn lemma_poisoned_from_the_start<M, P, S, K>(
    m: Model<M, P, S, K>,
    id: u32,
    locks: Locks,
    set: Result<(), Failure>,
    sent: Result<(), Failure>,
    steps: Preparation<P, S, K>,
    request: VirtioSndPcmSetParams,
)
    ensures
        locks.called.handles ==> {
            &&& m.read_result(id, locks, set, sent) == unexpected(BackendError::PoisonedLock)
            &&& m.stop_result(id, locks, set) == unexpected(BackendError::PoisonedLock)
            &&& m.start_outcome(id, locks, set, sent) == (m, unexpected(BackendError::PoisonedLock))
        },
        locks.called.streams ==> {
            &&& m.write_result(id, locks, sent) == unexpected(BackendError::PoisonedStreamsLock)
            &&& m.set_parameters_outcome(id, locks.called, request) == (
                m,
                unexpected(BackendError::PoisonedLock),
            )
        },
        steps.called.streams ==> m.prepare_outcome(id, steps) == (
            m,
            unexpected(BackendError::PoisonedLock),
        ),
{
}

/// If the streams' lock is found poisoned only after the pipeline was set
/// playing, `read` and `start` fail then, and the stream is not started.
pub proof fn lemma_poisoned_after_the_pipeline_plays<M, P, S, K>(
    m: Model<M, P, S, K>,
    id: u32,
    locks: Locks,
    set: Result<(), Failure>,
    sent: Result<(), Failure>,
)
    requires
        !locks.called.handles,
        m.handles.contains_key(id),
        set is Ok,
        locks.set.streams,
    ensures
        m.read_result(id, locks, set, sent) == unexpected(BackendError::PoisonedStreamsLock),
        m.start_outcome(id, locks, set, sent) == (m, unexpected(BackendError::PoisonedLock)),
{
}

/// A lock that is not needed does not matter: `read`, `write`, `start` and
/// `stop` depend only on the handles' lock when they look for the pipeline and
/// on the streams' lock when they look at the stream. In particular, once a
/// worker was signalled, no lock undoes that.
pub proof fn lemma_other_locks_do_not_matter<M, P, S, K>(
    m: Model<M, P, S, K>,
    id: u32,
    a: Locks,
    b: Locks,
    set: Result<(), Failure>,
    sent: Result<(), Failure>,
)
    ensures
        a.called.handles == b.called.handles && a.set.streams == b.set.streams ==> {
            &&& m.read_result(id, a, set, sent) == m.read_result(id, b, set, sent)
            &&& m.start_outcome(id, a, set, sent) == m.start_outcome(id, b, set, sent)
        },
        a.called.handles == b.called.handles ==> m.stop_result(id, a, set) == m.stop_result(
            id,
            b,
            set,
        ),
        a.called.streams == b.called.streams ==> m.write_result(id, a, sent) == m.write_result(
            id,
            b,
            sent,
        ),
{
}

/// To `prepare`, a poisoned lock on the handles is the same as nothing having
/// been prepared for the stream, until it stores what it made: then it fails,
/// and nothing has changed.
pub proof fn lemma_prepare_with_poisoned_handles<M, P, S, K>(
    m: Model<M, P, S, K>,
    id: u32,
    steps: Preparation<P, S, K>,
)
    ensures
        steps.asked.handles ==> {
            let bare = Model { handles: m.handles.remove(id), ..m };
            let first = m.prepare(id, PrepareEvent::Called);
            bare.prepare(id, PrepareEvent::Called) == if first is QueryState {
                m.prepare(id, steps.state_event())
            } else {
                first
            }
        },
        !steps.called.streams && m.has_stream(id) && !m.is_live(id, steps)
            && steps.yields_a_pipeline() && steps.stored.handles ==> m.prepare_outcome(id, steps)
            == (m, unexpected(BackendError::PoisonedLock)),
{
}

/// A command for a stream that does not exist fails with its number, changes
/// nothing and wakes no worker, unless its first lock is poisoned.
pub proof fn lemma_unknown_stream_is_refused<M, P, S, K>(
    m: Model<M, P, S, K>,
    id: u32,
    locks: Locks,
    set: Result<(), Failure>,
    sent: Result<(), Failure>,
    steps: Preparation<P, S, K>,
    request: VirtioSndPcmSetParams,
)
    requires
        m.wf(),
        !m.has_stream(id),
    ensures
        !locks.called.handles ==> {
            &&& m.read_result(id, locks, set, sent) == Err::<(), Error>(
                Error::StreamWithIdNotFound(id),
            )
            &&& m.stop_result(id, locks, set) == Err::<(), Error>(Error::StreamWithIdNotFound(id))
            &&& m.start_outcome(id, locks, set, sent) == (
                m,
                Err::<(), Error>(Error::StreamWithIdNotFound(id)),
            )
        },
        !locks.called.streams ==> {
            &&& m.write_result(id, locks, sent) == Err::<(), Error>(Error::StreamWithIdNotFound(id))
            &&& m.set_parameters_outcome(id, locks.called, request) == (
                m,
                Err::<(), Error>(Error::StreamWithIdNotFound(id)),
            )
        },
        !steps.called.streams ==> m.prepare_outcome(id, steps) == (
            m,
            Err::<(), Error>(Error::StreamWithIdNotFound(id)),
        ),
{
    assert(!m.handles.contains_key(id));
}

/// `read` and `write` wake a worker only for a stream that is prepared or
/// started, and then the worker of that stream. A stream in any other state is
/// refused by name of the operation.
pub proof fn lemma_signals_go_to_live_streams<M, P, S, K>(
    m: Model<M, P, S, K>,
    id: u32,
    operation: &'static str,
)
    ensures
        m.signal(id, operation) is Signal ==> m.signal(id, operation) == Action::Signal(id as usize)
            && m.has_stream(id) && (m.stream(id).state is Prepare || m.stream(id).state is Start),
        m.has_stream(id) && !(m.stream(id).state is Prepare || m.stream(id).state is Start)
            ==> m.signal(id, operation) == Action::Return(
            Err(Error::Stream(StreamError::InvalidState(operation, m.stream(id).state))),
        ),
{
}

/// When `read` succeeds.
pub proof fn lemma_read_succeeds<M, P, S, K>(
    m: Model<M, P, S, K>,
    id: u32,
    locks: Locks,
    set: Result<(), Failure>,
    sent: Result<(), Failure>,
)
    ensures
        m.read_result(id, locks, set, sent) is Ok <==> {
            &&& !locks.called.handles
            &&& m.handles.contains_key(id)
            &&& set is Ok
            &&& !locks.set.streams
            &&& m.has_stream(id)
            &&& m.stream(id).state is Prepare || m.stream(id).state is Start
            &&& id < m.senders
            &&& sent is Ok
        },
{
}

/// When `write` succeeds.
pub proof fn lemma_write_succeeds<M, P, S, K>(
    m: Model<M, P, S, K>,
    id: u32,
    locks: Locks,
    sent: Result<(), Failure>,
)
    ensures
        m.write_result(id, locks, sent) is Ok <==> {
            &&& !locks.called.streams
            &&& m.has_stream(id)
            &&& m.stream(id).state is Prepare || m.stream(id).state is Start
            &&& id < m.senders
            &&& sent is Ok
        },
{
}

/// When `stop` succeeds.
pub proof fn lemma_stop_succeeds<M, P, S, K>(
    m: Model<M, P, S, K>,
    id: u32,
    locks: Locks,
    set: Result<(), Failure>,
)
    ensures
        m.stop_result(id, locks, set) is Ok <==> !locks.called.handles && m.handles.contains_key(id)
            && set is Ok,
{
}

/// When `start` succeeds, where there is a worker to wake, and that it starts a
/// prepared stream as soon as its pipeline plays, even if the worker cannot be
/// woken.
pub proof fn lemma_start_succeeds<M, P, S, K>(
    m: Model<M, P, S, K>,
    id: u32,
    locks: Locks,
    set: Result<(), Failure>,
    sent: Result<(), Failure>,
)
    ensures
        (m.has_stream(id) ==> id < m.senders) ==> (m.start_outcome(id, locks, set, sent).1 is Ok
            <==> {
            &&& !locks.called.handles
            &&& m.handles.contains_key(id)
            &&& set is Ok
            &&& !locks.set.streams
            &&& m.has_stream(id)
            &&& sent is Ok
        }),
        m.start_outcome(id, locks, set, sent).0 == if !locks.called.handles
            && m.handles.contains_key(id) && set is Ok && !locks.set.streams && m.has_stream(id)
            && m.stream(id).state is Prepare {
            m.with_state(id, PCMState::Start)
        } else {
            m
        },
{
}

/// When `prepare` succeeds: the stream exists, and it has a live pipeline,
/// or is running, or a new pipeline can be made and the stream's state admits
/// preparing it.
pub proof fn lemma_prepare_succeeds<M, P, S, K>(
    m: Model<M, P, S, K>,
    id: u32,
    steps: Preparation<P, S, K>,
)
    requires
        m.can_configure(id, steps),
    ensures
        m.prepare_outcome(id, steps).1 is Ok <==> {
            &&& !steps.called.streams
            &&& m.has_stream(id)
            &&& m.is_live(id, steps) || (steps.all_goes_well() && valid_transition(
                m.stream(id).state,
                PCMState::Prepare,
            ))
        },
{
}

/// A stream with a live pipeline, and one that is running, is left as it is
/// by `prepare`.
pub proof fn lemma_prepare_spares_live_pipelines<M, P, S, K>(
    m: Model<M, P, S, K>,
    id: u32,
    steps: Preparation<P, S, K>,
)
    requires
        !steps.called.streams,
        m.has_stream(id),
        m.is_live(id, steps),
    ensures
        m.prepare_outcome(id, steps) == (m, Ok::<(), Error>(())),
{
}

/// A `prepare` that makes a pipeline leaves the stream prepared, with a handle
/// that fits its direction.
pub proof fn lemma_prepare_prepares<M, P, S, K>(
    m: Model<M, P, S, K>,
    id: u32,
    steps: Preparation<P, S, K>,
)
    requires
        m.can_configure(id, steps),
        !steps.called.streams,
        m.has_stream(id),
        !m.is_live(id, steps),
        valid_transition(m.stream(id).state, PCMState::Prepare),
        steps.all_goes_well(),
    ensures
        m.prepare_outcome(id, steps).1 == Ok::<(), Error>(()),
        m.prepare_outcome(id, steps).0 == (Model {
            handles: m.handles.insert(id, steps.handle(m.stream(id).direction)),
            ..m.with_state(id, PCMState::Prepare)
        }),
        fits(
            m.prepare_outcome(id, steps).0.handles[id],
            m.prepare_outcome(id, steps).0.stream(id).direction,
        ),
{
    let direction = m.stream(id).direction;
    let held = Model { handles: m.handles.insert(id, steps.handle(direction)), ..m };
    match direction {
        Direction::Output => {
            assert(m.after_prepare(
                id,
                PrepareEvent::SourceConfigured(steps.pipeline, steps.appsrc),
            ) == held);
        },
        Direction::Input => {
            assert(m.after_prepare(
                id,
                PrepareEvent::SinkConfigured(steps.pipeline, steps.appsink),
            ) == held);
        },
    }
}

/// A `prepare` that fails never changes the state of a stream, and if it fails
/// before a new pipeline is stored, it changes nothing.
pub proof fn lemma_failed_prepare<M, P, S, K>(
    m: Model<M, P, S, K>,
    id: u32,
    steps: Preparation<P, S, K>,
)
    requires
        m.can_configure(id, steps),
        m.prepare_outcome(id, steps).1 is Err,
    ensures
        m.prepare_outcome(id, steps).0.streams == m.streams,
        !(steps.yields_a_pipeline() && !steps.stored.handles) ==> m.prepare_outcome(id, steps).0
            == m,
{
}

/// Parameters are stored as requested if the stream supports them and its
/// state admits a change; otherwise the stream keeps its parameters.
pub proof fn lemma_set_parameters_stores_supported<M, P, S, K>(
    m: Model<M, P, S, K>,
    id: u32,
    request: VirtioSndPcmSetParams,
)
    requires
        m.has_stream(id),
    ensures
        m.set_parameters(id, request) is Ok <==> supports(m.stream(id), request)
            && valid_transition(m.stream(id).state, PCMState::SetParameters),
        m.set_parameters(id, request) is Ok ==> {
            let stream = m.after_set_parameters(id, request).stream(id);
            &&& stream.state is SetParameters
            &&& stream.params.format == request.format
            &&& stream.params.rate == request.rate
            &&& stream.params.channels == request.channels
            &&& stream.params.buffer_bytes == request.buffer_bytes
            &&& stream.params.period_bytes == request.period_bytes
            &&& stream.params.features == request.features
        },
        m.set_parameters(id, request) is Err ==> m.after_set_parameters(id, request).stream(
            id,
        ).params == m.stream(id).params,
{
}

/// A running or stopped stream cannot be given new parameters, and an attempt
/// changes nothing.
pub proof fn lemma_running_streams_keep_their_parameters<M, P, S, K>(
    m: Model<M, P, S, K>,
    id: u32,
    request: VirtioSndPcmSetParams,
)
    requires
        m.has_stream(id),
        m.stream(id).state is Start || m.stream(id).state is Stop,
    ensures
        m.set_parameters(id, request) == Err::<(), Error>(
            Error::Stream(
                StreamError::InvalidStateTransition(m.stream(id).state, PCMState::SetParameters),
            ),
        ),
        m.after_set_parameters(id, request) == m,
{
}

/// New parameters take a stream out of reach of its worker until it is
/// prepared again.
pub proof fn lemma_reconfigured_streams_refuse_data<M, P, S, K>(
    m: Model<M, P, S, K>,
    id: u32,
    request: VirtioSndPcmSetParams,
)
    requires
        m.set_parameters(id, request) is Ok,
    ensures
        m.after_set_parameters(id, request).write(id, WriteEvent::Called) == Action::Return(
            Err(Error::Stream(StreamError::InvalidState("write", PCMState::SetParameters))),
        ),
{
}

/// The life of a playback stream: given parameters that it supports, a new
/// pipeline and a woken worker, it is started, and its worker, when signalled,
/// writes its requests.
pub proof fn lemma_playback_life<M, P, S, K>(
    m: Model<M, P, S, K>,
    id: u32,
    request: VirtioSndPcmSetParams,
    steps: Preparation<P, S, K>,
    locks: Locks,
    sent: Result<(), Failure>,
)
    requires
        m.wf(),
        m.set_parameters(id, request) is Ok,
        caps_for(requested_params(request)) is Ok,
        m.stream(id).direction is Output,
        !(m.handles.contains_key(id) && steps.learns_of_life()),
        !steps.called.streams,
        steps.all_goes_well(),
        !locks.called.handles,
        !locks.set.streams,
        sent is Ok,
    ensures
        ({
            let prepared = m.after_set_parameters(id, request).prepare_outcome(id, steps);
            let started = prepared.0.start_outcome(id, locks, Ok(()), sent);
            &&& prepared.1 is Ok
            &&& started.1 is Ok
            &&& started.0.wf()
            &&& started.0.stream(id).state is Start
            &&& started.0.stream(id).requests == m.stream(id).requests
            &&& started.0.write(id, WriteEvent::Called) == Action::Signal(id as usize)
            &&& next_action(
                started.0,
                id as usize,
                Direction::Output,
                WorkerEvent::Received(Some(true)),
            ) == if m.stream(id).requests@.len() > 0 {
                WorkerAction::WriteSamples
            } else {
                WorkerAction::Receive
            }
        }),
{
    let configured = m.after_set_parameters(id, request);
    lemma_prepare_prepares(configured, id, steps);
    let prepared = configured.prepare_outcome(id, steps).0;
    let set: Result<(), Failure> = Ok(());
    lemma_start_succeeds(prepared, id, locks, set, sent);
    assert(id as usize as u32 == id);
}

/// A worker writes only what can be written: the stream is started and has
/// requests, it plays back, and there is an application source to write to.
pub proof fn lemma_worker_writes_only_when_it_can<M, P, S, K>(
    m: Model<M, P, S, K>,
    stream_id: usize,
    direction: Direction,
    event: WorkerEvent,
)
    requires
        next_action(m, stream_id, direction, event) is WriteSamples,
    ensures
        event == WorkerEvent::Received(Some(true)) || event == WorkerEvent::Written(true),
        has_buffers(m.streams[stream_id as int]),
        direction is Output,
        m.handles.contains_key(stream_id as u32),
        m.handles[stream_id as u32].appsrc is Some,
{
}

/// A worker ends for three reasons only: it is told to, no more signals can
/// come, or it has work for a stream that nothing was prepared for.
pub proof fn lemma_why_workers_end<M, P, S, K>(
    m: Model<M, P, S, K>,
    stream_id: usize,
    direction: Direction,
    event: WorkerEvent,
)
    requires
        next_action(m, stream_id, direction, event) is Return,
    ensures
        match next_action(m, stream_id, direction, event)->Return_0 {
            Ok(()) => event == WorkerEvent::Received(None) || event == WorkerEvent::Received(
                Some(false),
            ),
            Err(e) => {
                &&& e == Error::StreamWithIdNotFound(stream_id as u32)
                &&& has_buffers(m.streams[stream_id as int])
                &&& !m.handles.contains_key(stream_id as u32)
            },
        },
{
}

/// The worker of a started playback stream with an application source goes on
/// writing, once signalled and after each round that got somewhere, exactly
/// while requests wait.
pub proof fn lemma_worker_goes_on_while_requests_wait<M, P, S, K>(
    m: Model<M, P, S, K>,
    stream_id: usize,
    event: WorkerEvent,
)
    requires
        event == WorkerEvent::Received(Some(true)) || event == WorkerEvent::Written(true),
        m.streams[stream_id as int].state is Start,
        m.handles.contains_key(stream_id as u32),
        m.handles[stream_id as u32].appsrc is Some,
    ensures
        next_action(m, stream_id, Direction::Output, event)
            == if m.streams[stream_id as int].requests@.len() > 0 {
            WorkerAction::WriteSamples
        } else {
            WorkerAction::Receive
        },
{
}

/// Whether each of `rounds` is a complete round of writing that reports `true`,
/// one after the other.
pub open spec fn productive<M>(s: Samples<M>, rounds: Seq<Seq<Reply>>) -> bool
    decreases rounds.len(),
{
    rounds.len() > 0 ==> {
        let (begun, ask) = s.after(Reply::Begin);
        let (end, result) = begun.run(ask, rounds[0]);
        begun.proper(ask, rounds[0]) && result == Ask::Return(true) && productive(
            end,
            rounds.skip(1),
        )
    }
}

/// A signalled worker comes back to waiting: as long as no requests are added,
/// there are at most as many productive rounds as there was backlog.
pub proof fn lemma_worker_comes_to_rest<M>(s: Samples<M>, rounds: Seq<Seq<Reply>>)
    requires
        productive(s, rounds),
    ensures
        rounds.len() <= backlog(s.queue),
    decreases rounds.len(),
{
    if rounds.len() > 0 {
        let (begun, ask) = s.after(Reply::Begin);
        lemma_true_means_progress(s, rounds[0]);
        lemma_worker_comes_to_rest(begun.run(ask, rounds[0]).0, rounds.skip(1));
    }
}

/// Whether a reply gets somewhere: a read gives at least one byte, a push is
/// taken.
pub open spec fn advances(reply: Reply) -> bool {
    match reply {
        Reply::Read { buffer, count } => count > 0,
        Reply::Pushed => true,
        _ => false,
    }
}

/// The samples after a round of writing, and its result.
pub open spec fn after_round<M>(s: Samples<M>, replies: Seq<Reply>) -> (Samples<M>, Ask) {
    let (begun, ask) = s.after(Reply::Begin);
    begun.run(ask, replies)
}

/// Whether `replies` make up a complete round of writing, begun with requests
/// queued, in which every reply gets somewhere and every read gives what the
/// guest wrote.
pub open spec fn advancing_round<M>(
    s: Samples<M>,
    replies: Seq<Reply>,
    data: spec_fn(M) -> Seq<u8>,
) -> bool {
    let (begun, ask) = s.after(Reply::Begin);
    &&& s.queue.len() > 0
    &&& begun.proper(ask, replies)
    &&& begun.faithful(replies, data)
    &&& forall|i: int| 0 <= i < replies.len() ==> advances(#[trigger] replies[i])
    &&& after_round(s, replies).1 is Return
}

/// Whether each of `rounds` is such a round, one after the other.
pub open spec fn advancing<M>(
    s: Samples<M>,
    rounds: Seq<Seq<Reply>>,
    data: spec_fn(M) -> Seq<u8>,
) -> bool
    decreases rounds.len(),
{
    rounds.len() > 0 ==> advancing_round(s, rounds[0], data) && advancing(
        after_round(s, rounds[0]).0,
        rounds.skip(1),
        data,
    )
}

/// The samples after all of `rounds`.
pub open spec fn after_rounds<M>(s: Samples<M>, rounds: Seq<Seq<Reply>>) -> Samples<M>
    decreases rounds.len(),
{
    if rounds.len() == 0 {
        s
    } else {
        after_rounds(after_round(s, rounds[0]).0, rounds.skip(1))
    }
}

/// The result of the last of `rounds`.
pub open spec fn last_result<M>(s: Samples<M>, rounds: Seq<Seq<Reply>>) -> Ask
    recommends
        rounds.len() > 0,
    decreases rounds.len(),
{
    if rounds.len() <= 1 {
        after_round(s, rounds[0]).1
    } else {
        last_result(after_round(s, rounds[0]).0, rounds.skip(1))
    }
}

/// The bytes that the pipeline takes in the course of `rounds`.
pub open spec fn pushed_in_rounds<M>(s: Samples<M>, rounds: Seq<Seq<Reply>>) -> Seq<u8>
    decreases rounds.len(),
{
    if rounds.len() == 0 {
        seq![]
    } else {
        let (begun, ask) = s.after(Reply::Begin);
        begun.pushed(ask, rounds[0]) + pushed_in_rounds(
            after_round(s, rounds[0]).0,
            rounds.skip(1),
        )
    }
}

/// A round that gets somewhere at each reply gives nothing up, and reports
/// `true` unless it leaves the queue empty.
proof fn lemma_advancing_run<M>(
    s: Samples<M>,
    ask: Ask,
    replies: Seq<Reply>,
    data: spec_fn(M) -> Seq<u8>,
)
    requires
        s.proper(ask, replies),
        forall|i: int| 0 <= i < replies.len() ==> advances(#[trigger] replies[i]),
        s.run(ask, replies).1 is Return,
        ask is Return ==> ask == Ask::Return(true) || s.queue.len() == 0,
    ensures
        s.abandoned(replies, data) == Seq::<u8>::empty(),
        s.run(ask, replies).1 == Ask::Return(true) || s.run(ask, replies).0.queue.len() == 0,
    decreases replies.len(),
{
    if replies.len() > 0 {
        let (next, next_ask) = s.after(replies[0]);
        assert(advances(replies[0]));
        assert forall|i: int| 0 <= i < replies.skip(1).len() implies advances(
            #[trigger] replies.skip(1)[i],
        ) by {
            assert(advances(replies[i + 1]));
        }
        lemma_advancing_run(next, next_ask, replies.skip(1), data);
    }
}

/// Rounds leave each request with as many bytes as it says.
proof fn lemma_round_keeps_backed<M>(
    s: Samples<M>,
    replies: Seq<Reply>,
    data: spec_fn(M) -> Seq<u8>,
)
    requires
        s.after(Reply::Begin).0.proper(s.after(Reply::Begin).1, replies),
        backed(s.queue, data),
    ensures
        backed(after_round(s, replies).0.queue, data),
{
    let (begun, ask) = s.after(Reply::Begin);
    lemma_in_step(s, ask, Reply::Begin);
    lemma_served_in_order(begun, ask, replies);
    lemma_begin_drawn_from(s);
    let end = after_round(s, replies).0.queue;
    let first = begun.queue.len() - end.len();
    let gone = s.queue.len() - begun.queue.len();
    assert forall|i: int| 0 <= i < end.len() implies data((#[trigger] end[i]).message).len()
        == end[i].len by {
        let j = first + i;
        assert(end[i].message == begun.queue[j].message && end[i].len == begun.queue[j].len);
        assert(begun.queue[j].message == s.queue[gone + j].message && begun.queue[j].len
            == s.queue[gone + j].len);
        assert(data(s.queue[gone + j].message).len() == s.queue[gone + j].len);
    }
}

/// Rounds drain the queue: as long as no requests are added, every read gives
/// at least one byte and every push is taken, what waited in the queue is what
/// the pipeline took over all rounds, in order, then what still waits. The last
/// round reports `true`, so that another follows, unless nothing waits any
/// more; and there are at most as many rounds as there was backlog. So the
/// rounds that follow one signal bring the whole queue into the pipeline, also
/// when single reads are short.
pub proof fn lemma_rounds_drain_the_queue<M>(
    s: Samples<M>,
    rounds: Seq<Seq<Reply>>,
    data: spec_fn(M) -> Seq<u8>,
)
    requires
        backed(s.queue, data),
        advancing(s, rounds, data),
    ensures
        content(s.queue, data) == pushed_in_rounds(s, rounds) + content(
            after_rounds(s, rounds).queue,
            data,
        ),
        rounds.len() > 0 ==> last_result(s, rounds) == Ask::Return(true) || after_rounds(
            s,
            rounds,
        ).queue.len() == 0,
        rounds.len() <= backlog(s.queue),
        after_rounds(s, rounds).queue.len() == 0 ==> pushed_in_rounds(s, rounds) == content(
            s.queue,
            data,
        ),
    decreases rounds.len(),
{
    if rounds.len() > 0 {
        let replies = rounds[0];
        let rest = rounds.skip(1);
        let (begun, ask) = s.after(Reply::Begin);
        let (end, result) = after_round(s, replies);
        lemma_samples_arrive_in_order(s, replies, data);
        lemma_advancing_run(begun, ask, replies, data);
        lemma_true_means_progress(s, replies);
        lemma_round_keeps_backed(s, replies, data);
        lemma_rounds_drain_the_queue(end, rest, data);
        let later = content(after_rounds(s, rounds).queue, data);
        assert(content(s.queue, data) == begun.pushed(ask, replies) + content(end.queue, data));
        assert(content(s.queue, data) == pushed_in_rounds(s, rounds) + later);
    } else {
        assert(pushed_in_rounds(s, rounds) == Seq::<u8>::empty());
    }
    if after_rounds(s, rounds).queue.len() == 0 {
        assert(content(after_rounds(s, rounds).queue, data) == Seq::<u8>::empty());
    }
}

} // verus!
