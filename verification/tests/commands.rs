use gst_audio_backend::backend::{
    Action, Failure, PipelineState, PlayEvent, PrepareAction, PrepareEvent, StopEvent, WriteEvent,
};
use gst_audio_backend::error::{BackendError, Error};
use gst_audio_backend::locks::{
    answer_unseen, play_lock, poisoned, prepare_lock, refusal, set_parameters_lock, stop_lock,
    write_lock, Command, Lock, Poison,
};
use gst_audio_backend::pipeline::{ElementName, End};
use gst_audio_backend::stream::{
    Direction, Error as StreamError, PCMState, PcmParams, Request, Stream,
};
use gst_audio_backend::virtio_sound::VirtioSndPcmSetParams;
use gst_audio_backend::{GStreamerBackend, GsError, GstStreamHandle};
use std::collections::VecDeque;

type Backend = GStreamerBackend<u8, &'static str, &'static str, &'static str>;

const STATES: [PCMState; 5] = [
    PCMState::SetParameters,
    PCMState::Prepare,
    PCMState::Release,
    PCMState::Start,
    PCMState::Stop,
];

fn stream(direction: Direction, state: PCMState) -> Stream<u8> {
    Stream {
        params: PcmParams {
            buffer_bytes: 8192,
            period_bytes: 4096,
            features: 0,
            channels: 1,
            format: 5,
            rate: 7,
        },
        formats: 1 << 5 | 1 << 17,
        rates: 1 << 6 | 1 << 7,
        direction,
        state,
        requests: VecDeque::from(vec![Request { message: 9, pos: 0, len: 4 }]),
    }
}

fn backend(direction: Direction, state: PCMState) -> Backend {
    GStreamerBackend::new(vec![
        stream(direction, state),
        stream(Direction::Input, PCMState::Release),
    ])
}

fn with_pipeline(direction: Direction, state: PCMState) -> Backend {
    let mut b = backend(direction, state);
    let handle = GstStreamHandle { pipeline: "old", appsrc: None, appsink: None };
    b.handles.insert(0, handle);
    b
}

fn failure() -> Failure {
    Failure { display: String::from("shown"), debug: String::from("debugged") }
}

fn unexpected(e: BackendError) -> Result<(), Error> {
    Err(Error::UnexpectedAudioBackendError(e))
}

fn not_found(id: u32) -> Result<(), Error> {
    Err(Error::StreamWithIdNotFound(id))
}

fn invalid(operation: &'static str, state: PCMState) -> Result<(), Error> {
    Err(Error::Stream(StreamError::InvalidState(operation, state)))
}

fn request(format: u8, rate: u8) -> VirtioSndPcmSetParams {
    VirtioSndPcmSetParams {
        buffer_bytes: 100,
        period_bytes: 50,
        features: 3,
        channels: 2,
        format,
        rate,
    }
}

#[test]
fn new_backend_has_a_worker_for_each_stream() {
    let b = backend(Direction::Output, PCMState::SetParameters);
    assert_eq!(b.senders, 2);
    assert_eq!(b.streams.len(), 2);
    assert!(b.handles.is_empty());
}

#[test]
fn state_lifecycle() {
    for from in STATES {
        let mut state = from;
        let open = matches!(
            from,
            PCMState::SetParameters | PCMState::Prepare | PCMState::Release
        );
        let error = |to: PCMState| Err(StreamError::InvalidStateTransition(from, to));

        let result = state.set_parameters();
        assert_eq!(result, if open { Ok(()) } else { error(PCMState::SetParameters) });
        assert_eq!(state, if open { PCMState::SetParameters } else { from });

        state = from;
        let result = state.prepare();
        assert_eq!(result, if open { Ok(()) } else { error(PCMState::Prepare) });
        assert_eq!(state, if open { PCMState::Prepare } else { from });

        state = from;
        let ready = matches!(from, PCMState::Prepare | PCMState::Stop);
        let result = state.start();
        assert_eq!(result, if ready { Ok(()) } else { error(PCMState::Start) });
        assert_eq!(state, if ready { PCMState::Start } else { from });
    }
}

#[test]
fn read_sets_playing_and_signals() {
    let b = with_pipeline(Direction::Input, PCMState::Start);
    assert_eq!(b.read(0, PlayEvent::Called), Action::SetState(PipelineState::Playing));
    assert_eq!(b.read(0, PlayEvent::StateSet(Ok(()))), Action::Signal(0));
    assert_eq!(b.read(0, PlayEvent::Signalled(Ok(()))), Action::Return(Ok(())));
}

#[test]
fn read_failures() {
    let mut b = with_pipeline(Direction::Input, PCMState::Start);
    assert_eq!(b.read(1, PlayEvent::Called), Action::Return(not_found(1)));
    assert_eq!(
        b.read(0, PlayEvent::StateSet(Err(failure()))),
        Action::Return(unexpected(BackendError::ReadPipelineFailed(String::from("shown"))))
    );
    assert_eq!(b.read(2, PlayEvent::StateSet(Ok(()))), Action::Return(not_found(2)));
    assert_eq!(
        b.read(1, PlayEvent::StateSet(Ok(()))),
        Action::Return(invalid("read", PCMState::Release))
    );
    assert_eq!(
        b.read(0, PlayEvent::Signalled(Err(failure()))),
        Action::Return(unexpected(BackendError::SignalFailed(String::from("shown"))))
    );
    b.senders = 0;
    assert_eq!(
        b.read(0, PlayEvent::StateSet(Ok(()))),
        Action::Return(unexpected(BackendError::SenderOutOfBounds))
    );
}

#[test]
fn write_signals_live_streams_only() {
    for state in STATES {
        let b = backend(Direction::Output, state);
        let expected = match state {
            PCMState::Prepare | PCMState::Start => Action::Signal(0),
            _ => Action::Return(invalid("write", state)),
        };
        assert_eq!(b.write(0, WriteEvent::Called), expected);
    }
}

#[test]
fn write_outcomes() {
    let mut b = backend(Direction::Output, PCMState::Start);
    assert_eq!(b.write(2, WriteEvent::Called), Action::Return(not_found(2)));
    assert_eq!(b.write(0, WriteEvent::Signalled(Ok(()))), Action::Return(Ok(())));
    assert_eq!(
        b.write(0, WriteEvent::Signalled(Err(failure()))),
        Action::Return(unexpected(BackendError::WriteSignalFailed(String::from("shown"))))
    );
    b.senders = 0;
    assert_eq!(
        b.write(0, WriteEvent::Called),
        Action::Return(unexpected(BackendError::SenderOutOfBounds))
    );
}

#[test]
fn stop_resets_the_pipeline() {
    let b = with_pipeline(Direction::Output, PCMState::Start);
    assert_eq!(b.stop(0, StopEvent::Called), Action::SetState(PipelineState::Null));
    assert_eq!(b.stop(1, StopEvent::Called), Action::Return(not_found(1)));
    assert_eq!(b.stop(0, StopEvent::StateSet(Ok(()))), Action::Return(Ok(())));
    assert_eq!(
        b.stop(0, StopEvent::StateSet(Err(failure()))),
        Action::Return(unexpected(BackendError::StopPipelineFailed(String::from("shown"))))
    );
    assert_eq!(b.streams[0].state, PCMState::Start);
}

#[test]
fn start_starts_prepared_streams() {
    let mut b = with_pipeline(Direction::Output, PCMState::Prepare);
    assert_eq!(b.start(0, PlayEvent::Called), Action::SetState(PipelineState::Playing));
    assert_eq!(b.streams[0].state, PCMState::Prepare);
    assert_eq!(b.start(0, PlayEvent::StateSet(Ok(()))), Action::Signal(0));
    assert_eq!(b.streams[0].state, PCMState::Start);
    assert_eq!(b.start(0, PlayEvent::Signalled(Ok(()))), Action::Return(Ok(())));
    assert_eq!(b.streams[1].state, PCMState::Release);
}

#[test]
fn start_signals_in_any_state() {
    for state in STATES {
        let mut b = with_pipeline(Direction::Output, state);
        assert_eq!(b.start(0, PlayEvent::StateSet(Ok(()))), Action::Signal(0));
        let expected = if state == PCMState::Prepare { PCMState::Start } else { state };
        assert_eq!(b.streams[0].state, expected);
    }
}

#[test]
fn start_failures() {
    let mut b = with_pipeline(Direction::Output, PCMState::Prepare);
    assert_eq!(b.start(1, PlayEvent::Called), Action::Return(not_found(1)));
    assert_eq!(b.start(5, PlayEvent::StateSet(Ok(()))), Action::Return(not_found(5)));
    assert_eq!(
        b.start(0, PlayEvent::StateSet(Err(failure()))),
        Action::Return(unexpected(BackendError::StartPipelineFailed(String::from("debugged"))))
    );
    assert_eq!(b.streams[0].state, PCMState::Prepare);
    assert_eq!(
        b.start(0, PlayEvent::Signalled(Err(failure()))),
        Action::Return(unexpected(BackendError::WriteSignalFailed(String::from("shown"))))
    );
}

#[test]
fn prepare_playback() {
    let mut b = backend(Direction::Output, PCMState::SetParameters);
    let source = ElementName { end: End::Source, id: 0 };
    let sink = ElementName { end: End::Sink, id: 0 };
    assert_eq!(
        b.prepare(0, PrepareEvent::Called),
        PrepareAction::Build(0, Direction::Output)
    );
    assert_eq!(b.prepare(0, PrepareEvent::Built(Ok(()))), PrepareAction::Find(source));
    assert_eq!(
        b.prepare(0, PrepareEvent::Found { end: End::Source, found: true }),
        PrepareAction::Find(sink)
    );
    assert_eq!(
        b.prepare(0, PrepareEvent::Found { end: End::Sink, found: true }),
        PrepareAction::Cast(source)
    );
    match b.prepare(0, PrepareEvent::Cast(true)) {
        PrepareAction::ConfigureSource(config) => {
            assert_eq!(config.caps.format.name(), "S16LE");
            assert_eq!(config.max_bytes, 38_400);
        }
        other => panic!("{:?}", other),
    }
    assert!(b.handles.is_empty());
    assert_eq!(
        b.prepare(0, PrepareEvent::SourceConfigured("pipeline", "appsrc")),
        PrepareAction::SetState(PipelineState::Ready)
    );
    let handle = &b.handles[&0];
    assert_eq!(handle.pipeline, "pipeline");
    assert_eq!(handle.appsrc, Some("appsrc"));
    assert_eq!(handle.appsink, None);
    assert_eq!(b.streams[0].state, PCMState::SetParameters);
    assert_eq!(
        b.prepare(0, PrepareEvent::StateSet(Ok(()))),
        PrepareAction::Return(Ok(()))
    );
    assert_eq!(b.streams[0].state, PCMState::Prepare);
}

#[test]
fn prepare_capture() {
    let mut b = backend(Direction::Output, PCMState::SetParameters);
    assert_eq!(
        b.prepare(1, PrepareEvent::Called),
        PrepareAction::Build(1, Direction::Input)
    );
    assert_eq!(
        b.prepare(1, PrepareEvent::Found { end: End::Sink, found: true }),
        PrepareAction::Cast(ElementName { end: End::Sink, id: 1 })
    );
    assert!(matches!(
        b.prepare(1, PrepareEvent::Cast(true)),
        PrepareAction::ConfigureSink(_)
    ));
    assert_eq!(
        b.prepare(1, PrepareEvent::SinkConfigured("pipeline", "appsink")),
        PrepareAction::SetState(PipelineState::Ready)
    );
    assert_eq!(b.handles[&1].appsrc, None);
    assert_eq!(b.handles[&1].appsink, Some("appsink"));
    b.prepare(1, PrepareEvent::StateSet(Ok(())));
    assert_eq!(b.streams[1].state, PCMState::Prepare);
    assert_eq!(b.streams[0].state, PCMState::SetParameters);
}

#[test]
fn prepare_keeps_a_live_pipeline() {
    let mut b = with_pipeline(Direction::Output, PCMState::Prepare);
    assert_eq!(b.prepare(0, PrepareEvent::Called), PrepareAction::QueryState);
    for state in [PipelineState::Playing, PipelineState::Paused] {
        assert_eq!(
            b.prepare(0, PrepareEvent::StateRead(Some(state))),
            PrepareAction::Return(Ok(()))
        );
    }
    for state in [
        None,
        Some(PipelineState::VoidPending),
        Some(PipelineState::Null),
        Some(PipelineState::Ready),
    ] {
        assert_eq!(
            b.prepare(0, PrepareEvent::StateRead(state)),
            PrepareAction::Build(0, Direction::Output)
        );
    }
}

#[test]
fn prepare_leaves_running_streams_alone() {
    let mut b = backend(Direction::Output, PCMState::Start);
    assert_eq!(b.prepare(0, PrepareEvent::Called), PrepareAction::Return(Ok(())));
    assert_eq!(
        b.prepare(0, PrepareEvent::StateRead(None)),
        PrepareAction::Return(Ok(()))
    );
    assert_eq!(b.streams[0].state, PCMState::Start);
}

#[test]
fn prepare_failures() {
    let mut b = backend(Direction::Output, PCMState::Stop);
    assert_eq!(b.prepare(2, PrepareEvent::Called), PrepareAction::Return(not_found(2)));
    let error = || GsError::PipelineError(String::from("broken"));
    assert_eq!(
        b.prepare(0, PrepareEvent::Built(Err(error()))),
        PrepareAction::Return(unexpected(BackendError::Pipeline(error())))
    );
    for end in [End::Source, End::Sink] {
        assert_eq!(
            b.prepare(0, PrepareEvent::Found { end, found: false }),
            PrepareAction::Return(unexpected(BackendError::ElementNotFound(ElementName {
                end,
                id: 0
            })))
        );
    }
    for (id, end) in [(0, End::Source), (1, End::Sink)] {
        assert_eq!(
            b.prepare(id, PrepareEvent::Cast(false)),
            PrepareAction::Return(unexpected(BackendError::DowncastFailed(ElementName {
                end,
                id
            })))
        );
    }
    assert_eq!(
        b.prepare(0, PrepareEvent::StateSet(Err(failure()))),
        PrepareAction::Return(unexpected(BackendError::ReadyPipelineFailed(String::from(
            "debugged"
        ))))
    );
    assert_eq!(
        b.prepare(0, PrepareEvent::StateSet(Ok(()))),
        PrepareAction::Return(Err(Error::Stream(StreamError::InvalidStateTransition(
            PCMState::Stop,
            PCMState::Prepare
        ))))
    );
    assert_eq!(b.streams[0].state, PCMState::Stop);
    assert!(b.handles.is_empty());
}

#[test]
fn release_does_nothing() {
    let b = backend(Direction::Output, PCMState::Stop);
    assert_eq!(b.release(0), Ok(()));
    assert_eq!(b.release(99), Ok(()));
}

#[test]
fn set_parameters_stores_the_request() {
    let mut b = backend(Direction::Output, PCMState::Prepare);
    assert_eq!(b.set_parameters(0, request(17, 6)), Ok(()));
    assert_eq!(b.streams[0].state, PCMState::SetParameters);
    assert_eq!(
        b.streams[0].params,
        PcmParams {
            buffer_bytes: 100,
            period_bytes: 50,
            features: 3,
            channels: 2,
            format: 17,
            rate: 6
        }
    );
    assert_eq!(b.streams[0].requests.len(), 1);
    assert_eq!(b.streams[1].params.format, 5);
    assert_eq!(
        b.write(0, WriteEvent::Called),
        Action::Return(invalid("write", PCMState::SetParameters))
    );
}

#[test]
fn set_parameters_refuses_what_is_unsupported() {
    for (format, rate) in [(4, 6), (17, 5), (64, 6), (17, 255)] {
        let mut b = backend(Direction::Output, PCMState::Prepare);
        let before = b.streams[0].params;
        assert_eq!(
            b.set_parameters(0, request(format, rate)),
            Err(Error::UnexpectedAudioBackendConfiguration)
        );
        assert_eq!(b.streams[0].params, before);
        assert_eq!(b.streams[0].state, PCMState::SetParameters);
    }
}

#[test]
fn set_parameters_checks_the_state_first() {
    for state in [PCMState::Start, PCMState::Stop] {
        let mut b = backend(Direction::Output, state);
        let before = b.streams[0].params;
        assert_eq!(
            b.set_parameters(0, request(0, 0)),
            Err(Error::Stream(StreamError::InvalidStateTransition(
                state,
                PCMState::SetParameters
            )))
        );
        assert_eq!(b.streams[0].state, state);
        assert_eq!(b.streams[0].params, before);
    }
    let mut b = backend(Direction::Output, PCMState::Start);
    assert_eq!(b.set_parameters(2, request(17, 6)), not_found(2));
}

#[test]
fn poisoned_locks() {
    let lock = unexpected(BackendError::PoisonedLock);
    let streams = unexpected(BackendError::PoisonedStreamsLock);
    assert_eq!(Err(poisoned(Command::Read, Lock::Handles)), lock);
    assert_eq!(Err(poisoned(Command::Read, Lock::Streams)), streams);
    assert_eq!(Err(poisoned(Command::Write, Lock::Streams)), streams);
    for command in [Command::Stop, Command::Start, Command::Prepare, Command::SetParameters] {
        assert_eq!(Err(poisoned(command, Lock::Streams)), lock);
        assert_eq!(Err(poisoned(command, Lock::Handles)), lock);
    }
}

#[test]
fn life_of_a_playback_stream() {
    let mut b = backend(Direction::Output, PCMState::Release);
    assert_eq!(b.set_parameters(0, request(17, 6)), Ok(()));
    b.prepare(0, PrepareEvent::SourceConfigured("pipeline", "appsrc"));
    assert_eq!(
        b.prepare(0, PrepareEvent::StateSet(Ok(()))),
        PrepareAction::Return(Ok(()))
    );
    assert_eq!(b.start(0, PlayEvent::Called), Action::SetState(PipelineState::Playing));
    assert_eq!(b.start(0, PlayEvent::StateSet(Ok(()))), Action::Signal(0));
    assert_eq!(b.write(0, WriteEvent::Called), Action::Signal(0));
    assert_eq!(b.streams[0].requests.len(), 1);
}

fn poison(streams: bool, handles: bool) -> Poison {
    Poison { streams, handles }
}

#[test]
fn only_the_needed_lock_matters() {
    let lock = || unexpected(BackendError::PoisonedLock).err();
    let streams = || unexpected(BackendError::PoisonedStreamsLock).err();
    let both = poison(true, true);
    for command in [Command::Read, Command::Write, Command::Start, Command::Prepare] {
        assert_eq!(refusal(command, None, both), None);
        assert_eq!(refusal(command, Some(Lock::Streams), poison(false, true)), None);
        assert_eq!(refusal(command, Some(Lock::Handles), poison(true, false)), None);
        assert_eq!(refusal(command, Some(Lock::Handles), both), lock());
    }
    assert_eq!(refusal(Command::Read, Some(Lock::Streams), poison(true, false)), streams());
    assert_eq!(refusal(Command::Write, Some(Lock::Streams), both), streams());
    assert_eq!(refusal(Command::Start, Some(Lock::Streams), both), lock());
    assert_eq!(refusal(Command::SetParameters, set_parameters_lock(), both), lock());
}

#[test]
fn locks_of_the_steps() {
    assert_eq!(play_lock(&PlayEvent::Called), Some(Lock::Handles));
    assert_eq!(play_lock(&PlayEvent::StateSet(Ok(()))), Some(Lock::Streams));
    assert_eq!(play_lock(&PlayEvent::StateSet(Err(failure()))), None);
    assert_eq!(play_lock(&PlayEvent::Signalled(Ok(()))), None);
    assert_eq!(play_lock(&PlayEvent::Signalled(Err(failure()))), None);
    assert_eq!(write_lock(&WriteEvent::Called), Some(Lock::Streams));
    assert_eq!(write_lock(&WriteEvent::Signalled(Ok(()))), None);
    assert_eq!(stop_lock(&StopEvent::Called), Some(Lock::Handles));
    assert_eq!(stop_lock(&StopEvent::StateSet(Ok(()))), None);
    assert_eq!(set_parameters_lock(), Some(Lock::Streams));
    type Event = PrepareEvent<(), (), ()>;
    let expected: [(Event, Option<Lock>); 8] = [
        (PrepareEvent::Called, Some(Lock::Streams)),
        (PrepareEvent::StateRead(None), None),
        (PrepareEvent::Built(Ok(())), None),
        (PrepareEvent::Found { end: End::Sink, found: true }, None),
        (PrepareEvent::Cast(true), None),
        (PrepareEvent::SourceConfigured((), ()), Some(Lock::Handles)),
        (PrepareEvent::SinkConfigured((), ()), Some(Lock::Handles)),
        (PrepareEvent::StateSet(Ok(())), None),
    ];
    for (event, lock) in expected {
        assert_eq!(prepare_lock(&event), lock);
    }
}

#[test]
fn prepare_learns_nothing_behind_a_poisoned_lock() {
    type Event = PrepareEvent<&'static str, &'static str, &'static str>;
    let seen: Option<Event> = answer_unseen(poison(true, false));
    assert_eq!(seen, None);
    let unseen: Option<Event> = answer_unseen(poison(false, true));
    assert_eq!(unseen, Some(PrepareEvent::StateRead(None)));
    let mut b = with_pipeline(Direction::Output, PCMState::Prepare);
    assert_eq!(b.prepare(0, PrepareEvent::Called), PrepareAction::QueryState);
    assert_eq!(b.prepare(0, unseen.unwrap()), PrepareAction::Build(0, Direction::Output));
}

#[test]
fn start_starts_the_stream_before_it_looks_for_the_worker() {
    let mut b = with_pipeline(Direction::Output, PCMState::Prepare);
    b.senders = 0;
    assert_eq!(b.start(0, PlayEvent::StateSet(Ok(()))), Action::Signal(0));
    assert_eq!(b.streams[0].state, PCMState::Start);
}
