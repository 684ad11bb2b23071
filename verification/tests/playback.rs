use gst_audio_backend::backend::GStreamerBackend;
use gst_audio_backend::error::Error;
use gst_audio_backend::samples::{
    write_samples_gstreamer, SampleAction, SampleEvent, WriteState,
};
use gst_audio_backend::stream::{Direction, PCMState, PcmParams, Request, Stream};
use gst_audio_backend::worker::{
    gstreamer_worker, restart_delay, WorkerAction, WorkerEvent, RESTART_DELAY_MS,
};
use gst_audio_backend::GstStreamHandle;
use std::collections::VecDeque;

fn stream(requests: Vec<Request<Vec<u8>>>) -> Stream<Vec<u8>> {
    Stream {
        params: PcmParams {
            buffer_bytes: 8192,
            period_bytes: 4096,
            features: 0,
            channels: 2,
            format: 5,
            rate: 7,
        },
        formats: 1 << 5,
        rates: 1 << 7,
        direction: Direction::Output,
        state: PCMState::Start,
        requests: VecDeque::from(requests),
    }
}

fn request(bytes: &[u8], pos: usize) -> Request<Vec<u8>> {
    Request { message: bytes.to_vec(), pos, len: bytes.len() }
}

fn fresh() -> WriteState {
    WriteState { has_data: true, read_bytes: 77 }
}

/// Runs a round in which reads give at most `limit` bytes and pushes number
/// `refused` and later are refused. Returns what was pushed and the result.
fn round(stream: &mut Stream<Vec<u8>>, limit: usize, refused: usize) -> (Vec<Vec<u8>>, bool) {
    let mut state = fresh();
    let mut pushed: Vec<Vec<u8>> = Vec::new();
    let mut event = SampleEvent::Begin;
    loop {
        event = match write_samples_gstreamer(stream, &mut state, event) {
            SampleAction::ReadOutput { pos, mut buffer } => {
                let source = &stream.requests[0].message;
                assert_eq!(buffer, vec![0; source.len() - pos]);
                let count = limit.min(buffer.len());
                buffer[..count].copy_from_slice(&source[pos..pos + count]);
                SampleEvent::Read { buffer, count: count as u32 }
            }
            SampleAction::Push(bytes) => {
                if pushed.len() >= refused {
                    SampleEvent::PushFailed
                } else {
                    pushed.push(bytes);
                    SampleEvent::Pushed
                }
            }
            SampleAction::Return(more) => return (pushed, more),
        };
    }
}

#[test]
fn empty_queue_reports_nothing_written() {
    let mut s = stream(vec![]);
    assert_eq!(round(&mut s, usize::MAX, usize::MAX), (vec![], false));
}

#[test]
fn all_requests_are_written_in_order() {
    let mut s = stream(vec![request(b"abc", 0), request(b"defg", 1), request(b"h", 0)]);
    let (pushed, more) = round(&mut s, usize::MAX, usize::MAX);
    assert_eq!(pushed, vec![b"abc".to_vec(), b"efg".to_vec(), b"h".to_vec()]);
    assert!(more);
    assert!(s.requests.is_empty());
}

#[test]
fn completed_requests_are_dropped_unread() {
    let mut s = stream(vec![request(b"ab", 2), request(b"", 0), request(b"c", 9)]);
    assert_eq!(round(&mut s, usize::MAX, usize::MAX), (vec![], false));
    assert!(s.requests.is_empty());
}

#[test]
fn short_read_ends_the_round() {
    let mut s = stream(vec![request(b"abcdef", 1), request(b"xyz", 0)]);
    let (pushed, more) = round(&mut s, 2, usize::MAX);
    assert_eq!(pushed, vec![b"bc".to_vec()]);
    assert!(more);
    assert_eq!(s.requests.len(), 2);
    assert_eq!(s.requests[0].pos, 3);
    assert_eq!(s.requests[1].pos, 0);
}

#[test]
fn rounds_add_up_to_the_whole_content() {
    let mut s = stream(vec![request(b"abcdef", 1), request(b"xyz", 0)]);
    let mut all: Vec<u8> = Vec::new();
    let mut rounds = 0;
    // Eight bytes wait in two requests.
    while !s.requests.is_empty() {
        let (pushed, more) = round(&mut s, 2, usize::MAX);
        assert!(more);
        all.extend(pushed.concat());
        rounds += 1;
    }
    assert_eq!(all, b"bcdefxyz");
    assert!(rounds <= 8 + 2);
}

#[test]
fn read_of_nothing_ends_the_round() {
    let mut s = stream(vec![request(b"abc", 1)]);
    assert_eq!(round(&mut s, 0, usize::MAX), (vec![], false));
    assert_eq!(s.requests[0].pos, 1);
}

#[test]
fn refused_push_keeps_the_request() {
    let mut s = stream(vec![request(b"ab", 0), request(b"cde", 1)]);
    let (pushed, more) = round(&mut s, usize::MAX, 1);
    assert_eq!(pushed, vec![b"ab".to_vec()]);
    assert!(!more);
    assert_eq!(s.requests.len(), 1);
    assert_eq!(s.requests[0].pos, 1);
    let (pushed, more) = round(&mut s, usize::MAX, usize::MAX);
    assert_eq!(pushed, vec![b"de".to_vec()]);
    assert!(more);
}

#[test]
fn failed_read_drops_the_request() {
    let mut s = stream(vec![request(b"ab", 0), request(b"cd", 0)]);
    let mut state = fresh();
    let first = write_samples_gstreamer(&mut s, &mut state, SampleEvent::Begin);
    assert_eq!(first, SampleAction::ReadOutput { pos: 0, buffer: vec![0, 0] });
    assert_eq!(state, WriteState { has_data: false, read_bytes: 0 });
    let second = write_samples_gstreamer(&mut s, &mut state, SampleEvent::ReadFailed);
    assert_eq!(second, SampleAction::Return(true));
    assert_eq!(s.requests.len(), 1);
    assert_eq!(s.requests[0].message, b"cd");
}

#[test]
fn buffer_is_cut_to_what_was_read() {
    let mut s = stream(vec![request(b"abcd", 0)]);
    let mut state = fresh();
    write_samples_gstreamer(&mut s, &mut state, SampleEvent::Begin);
    let event = SampleEvent::Read { buffer: vec![1, 2, 3, 4], count: 3 };
    assert_eq!(
        write_samples_gstreamer(&mut s, &mut state, event),
        SampleAction::Push(vec![1, 2, 3])
    );
    assert_eq!(
        write_samples_gstreamer(&mut s, &mut state, SampleEvent::Pushed),
        SampleAction::Return(true)
    );
    assert_eq!(s.requests[0].pos, 3);
}

type Backend = GStreamerBackend<Vec<u8>, (), u8, u8>;

fn playing(requests: Vec<Request<Vec<u8>>>) -> Backend {
    let mut backend: Backend = GStreamerBackend::new(vec![stream(requests)]);
    let handle = GstStreamHandle { pipeline: (), appsrc: Some(1), appsink: None };
    backend.handles.insert(0, handle);
    backend
}

fn signalled(backend: &Backend, direction: Direction) -> WorkerAction {
    gstreamer_worker(backend, 0, direction, WorkerEvent::Received(Some(true)))
}

#[test]
fn worker_ends_with_its_signals() {
    let backend = playing(vec![request(b"a", 0)]);
    let action = gstreamer_worker(&backend, 0, Direction::Output, WorkerEvent::Received(None));
    assert_eq!(action, WorkerAction::Return(Ok(())));
}

#[test]
fn worker_ends_when_told_to() {
    let backend = playing(vec![request(b"a", 0)]);
    for direction in [Direction::Output, Direction::Input] {
        let event = WorkerEvent::Received(Some(false));
        let action = gstreamer_worker(&backend, 0, direction, event);
        assert_eq!(action, WorkerAction::Return(Ok(())));
    }
}

#[test]
fn worker_ends_at_the_false_signal() {
    let backend: Backend = GStreamerBackend::new(vec![stream(vec![])]);
    let (sender, receiver) = std::sync::mpsc::channel();
    sender.send(false).unwrap();
    sender.send(true).unwrap();
    drop(sender);
    let event = WorkerEvent::Received(receiver.recv().ok());
    let action = gstreamer_worker(&backend, 0, Direction::Output, event);
    assert_eq!(action, WorkerAction::Return(Ok(())));
    assert_eq!(receiver.try_recv(), Ok(true));
}

#[test]
fn worker_waits_after_a_round_that_got_nowhere() {
    let backend = playing(vec![request(b"a", 0)]);
    let action = gstreamer_worker(&backend, 0, Direction::Output, WorkerEvent::Written(false));
    assert_eq!(action, WorkerAction::Receive);
}

#[test]
fn worker_writes_while_it_gets_somewhere() {
    let mut backend = playing(vec![request(b"abc", 0)]);
    assert_eq!(signalled(&backend, Direction::Output), WorkerAction::WriteSamples);
    let again = gstreamer_worker(&backend, 0, Direction::Output, WorkerEvent::Written(true));
    assert_eq!(again, WorkerAction::WriteSamples);
    backend.streams[0].requests.clear();
    let done = gstreamer_worker(&backend, 0, Direction::Output, WorkerEvent::Written(true));
    assert_eq!(done, WorkerAction::Receive);
}

#[test]
fn worker_waits_unless_the_stream_is_started() {
    let mut backend = playing(vec![request(b"a", 0)]);
    for state in
        [PCMState::SetParameters, PCMState::Prepare, PCMState::Stop, PCMState::Release]
    {
        backend.streams[0].state = state;
        assert_eq!(signalled(&backend, Direction::Output), WorkerAction::Receive);
    }
}

#[test]
fn worker_fails_if_nothing_was_prepared() {
    let mut backend = playing(vec![request(b"a", 0)]);
    backend.handles.clear();
    let failed = Err(Error::StreamWithIdNotFound(0));
    assert_eq!(restart_delay(&failed), Some(500));
    assert_eq!(RESTART_DELAY_MS, 500);
    assert_eq!(restart_delay(&Ok(())), None);
    assert_eq!(signalled(&backend, Direction::Output), WorkerAction::Return(failed));
}

#[test]
fn worker_needs_an_application_source() {
    let mut backend = playing(vec![request(b"a", 0)]);
    assert_eq!(signalled(&backend, Direction::Input), WorkerAction::Receive);
    let handle = GstStreamHandle { pipeline: (), appsrc: None, appsink: Some(2) };
    backend.handles.insert(0, handle);
    assert_eq!(signalled(&backend, Direction::Output), WorkerAction::ReceiveWithoutSource);
    backend.streams[0].requests.clear();
    assert_eq!(signalled(&backend, Direction::Output), WorkerAction::Receive);
}

#[test]
fn one_signal_drains_the_queue() {
    let mut backend = playing(vec![request(b"abcdef", 1), request(b"", 0), request(b"xyz", 0)]);
    let mut all: Vec<u8> = Vec::new();
    let mut event = WorkerEvent::Received(Some(true));
    loop {
        event = match gstreamer_worker(&backend, 0, Direction::Output, event) {
            WorkerAction::WriteSamples => {
                let (pushed, more) = round(&mut backend.streams[0], 2, usize::MAX);
                all.extend(pushed.concat());
                WorkerEvent::Written(more)
            }
            action => {
                assert_eq!(action, WorkerAction::Receive);
                break;
            }
        };
    }
    assert_eq!(all, b"bcdefxyz");
    assert!(backend.streams[0].requests.is_empty());
}
