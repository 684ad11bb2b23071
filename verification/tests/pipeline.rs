use gst_audio_backend::caps::{
    configure_appsink_for_stream, configure_appsrc_for_stream, get_frame_size, AppSinkProperty,
    AppSrcProperty, SampleFormat, LAYOUT, MEDIA_TYPE,
};
use gst_audio_backend::error::{BackendError, Error};
use gst_audio_backend::pipeline::{build_pipeline, ElementName, ElementPlan, End, Factory};
use gst_audio_backend::stream::{Direction, PCMState, PcmParams, Stream};
use gst_audio_backend::text::decimal_text;
use gst_audio_backend::GsError;
use std::collections::VecDeque;

fn stream(format: u8, rate: u8, channels: u8) -> Stream<()> {
    Stream {
        params: PcmParams {
            buffer_bytes: 8192,
            period_bytes: 4096,
            features: 0,
            channels,
            format,
            rate,
        },
        formats: u64::MAX,
        rates: u64::MAX,
        direction: Direction::Output,
        state: PCMState::SetParameters,
        requests: VecDeque::new(),
    }
}

fn unsupported_format(code: u8) -> Error {
    Error::UnexpectedAudioBackendError(BackendError::UnsupportedFormat(code))
}

fn unsupported_rate(code: u8) -> Error {
    Error::UnexpectedAudioBackendError(BackendError::UnsupportedRate(code))
}

#[test]
fn numbers_in_base_ten() {
    for n in [0, 7, 9, 10, 99, 100, 1234567890, u32::MAX] {
        assert_eq!(decimal_text(n), n.to_string());
    }
}

#[test]
fn element_names() {
    assert_eq!(ElementName { end: End::Source, id: 0 }.to_text(), "src0");
    assert_eq!(ElementName { end: End::Sink, id: 12 }.to_text(), "sink12");
    assert_eq!(ElementName { end: End::Source, id: u32::MAX }.to_text(), "src4294967295");
}

#[test]
fn playback_pipeline() {
    let elements = build_pipeline(3, Direction::Output);
    let names: Vec<&str> = elements.iter().map(|e| e.factory.name()).collect();
    assert_eq!(names, ["appsrc", "queue", "audioconvert", "audioresample", "autoaudiosink"]);
    assert_eq!(elements[0].name, Some(ElementName { end: End::Source, id: 3 }));
    assert_eq!(
        elements[1],
        ElementPlan { factory: Factory::Queue, name: None, max_size_buffers: Some(20) }
    );
    assert_eq!(elements[2].name, None);
    assert_eq!(elements[3].max_size_buffers, None);
    assert_eq!(elements[4].name, Some(ElementName { end: End::Sink, id: 3 }));
}

#[test]
fn capture_pipeline() {
    let elements = build_pipeline(0, Direction::Input);
    let names: Vec<&str> = elements.iter().map(|e| e.factory.name()).collect();
    assert_eq!(names, ["autoaudiosrc", "queue", "audioconvert", "audioresample", "appsink"]);
    assert_eq!(elements[0].name, Some(ElementName { end: End::Source, id: 0 }));
    assert_eq!(elements[1].max_size_buffers, Some(10));
    assert_eq!(elements[4].name, Some(ElementName { end: End::Sink, id: 0 }));
}

#[test]
fn formats_and_frame_sizes() {
    let expected: [(u8, &str, u32); 12] = [
        (3, "S8", 1),
        (4, "U8", 1),
        (5, "S16LE", 2),
        (6, "U16LE", 2),
        (11, "S24LE", 3),
        (12, "U24LE", 3),
        (15, "S24_32LE", 4),
        (16, "U24_32LE", 4),
        (17, "S32LE", 4),
        (18, "U32LE", 4),
        (19, "F32LE", 4),
        (20, "F64LE", 8),
    ];
    for code in 0..=255u8 {
        let found = expected.iter().find(|e| e.0 == code);
        let source = configure_appsrc_for_stream(&stream(code, 7, 2));
        let sink = configure_appsink_for_stream(&stream(code, 7, 2));
        match found {
            Some((_, name, size)) => {
                assert_eq!(source.unwrap().caps.format.name(), *name);
                assert_eq!(sink.unwrap().caps.format.name(), *name);
                assert_eq!(get_frame_size(u32::from(code)), *size);
            }
            None => {
                assert_eq!(source, Err(unsupported_format(code)));
                assert_eq!(sink, Err(unsupported_format(code)));
                assert_eq!(get_frame_size(u32::from(code)), 4);
            }
        }
    }
}

#[test]
fn frame_size_uses_the_low_byte() {
    assert_eq!(get_frame_size(256 + 3), 1);
    assert_eq!(get_frame_size(0xffff_ff14), 8);
}

#[test]
fn sample_rates() {
    let expected: [(u8, i32); 15] = [
        (0, 5512),
        (1, 8000),
        (2, 11025),
        (3, 16000),
        (4, 22050),
        (5, 32000),
        (6, 44100),
        (7, 48000),
        (8, 64000),
        (9, 88200),
        (10, 96000),
        (11, 176400),
        (12, 192000),
        (14, 12000),
        (15, 24000),
    ];
    for code in 0..=255u8 {
        let found = expected.iter().find(|e| e.0 == code);
        let source = configure_appsrc_for_stream(&stream(5, code, 2));
        let sink = configure_appsink_for_stream(&stream(5, code, 2));
        match found {
            Some((_, rate)) => {
                assert_eq!(source.unwrap().caps.rate, *rate);
                assert_eq!(sink.unwrap().caps.rate, *rate);
            }
            None => {
                assert_eq!(source, Err(unsupported_rate(code)));
                assert_eq!(sink, Err(unsupported_rate(code)));
            }
        }
    }
}

#[test]
fn bad_format_is_reported_before_bad_rate() {
    assert_eq!(configure_appsrc_for_stream(&stream(0, 13, 2)), Err(unsupported_format(0)));
    assert_eq!(configure_appsink_for_stream(&stream(0, 13, 2)), Err(unsupported_format(0)));
}

#[test]
fn source_settings() {
    let config = configure_appsrc_for_stream(&stream(5, 7, 2)).unwrap();
    assert_eq!(MEDIA_TYPE, "audio/x-raw");
    assert_eq!(LAYOUT, "interleaved");
    assert_eq!(config.caps.format, SampleFormat::S16LE);
    assert_eq!(config.caps.channels, 2);
    assert_eq!(
        config.properties(),
        [
            AppSrcProperty::IsLive(true),
            AppSrcProperty::DoTimestamp(true),
            AppSrcProperty::FormatTime,
            AppSrcProperty::Block(true),
            AppSrcProperty::IsLive(true),
            AppSrcProperty::FormatTime,
            AppSrcProperty::MaxBytes(76_800),
            AppSrcProperty::MaxBuffers(20),
            AppSrcProperty::MaxTime(2_000_000_000),
            AppSrcProperty::MinLatency(10_000_000),
            AppSrcProperty::MaxLatency(500_000_000),
            AppSrcProperty::DoTimestamp(false),
        ]
    );
    let names: Vec<&str> = config.properties().iter().map(|p| p.name()).collect();
    assert_eq!(
        names,
        [
            "is-live",
            "do-timestamp",
            "format",
            "block",
            "is-live",
            "format",
            "max-bytes",
            "max-buffers",
            "max-time",
            "min-latency",
            "max-latency",
            "do-timestamp",
        ]
    );
}

#[test]
fn source_window() {
    // 5512 bytes per second: chunks of 275.6 bytes are cut to 275.
    assert_eq!(configure_appsrc_for_stream(&stream(4, 0, 1)).unwrap().max_bytes, 2_200);
    assert_eq!(configure_appsrc_for_stream(&stream(20, 12, 255)).unwrap().max_bytes, 156_672_000);
    assert_eq!(configure_appsrc_for_stream(&stream(5, 7, 0)).unwrap().max_bytes, 0);
}

#[test]
fn window_grows_with_channels() {
    let mono = configure_appsrc_for_stream(&stream(11, 6, 1)).unwrap().max_bytes;
    let stereo = configure_appsrc_for_stream(&stream(11, 6, 2)).unwrap().max_bytes;
    assert_eq!(mono, 52_920);
    assert_eq!(stereo, 105_840);
}

#[test]
fn sink_settings() {
    let config = configure_appsink_for_stream(&stream(19, 6, 1)).unwrap();
    assert_eq!(config.caps.format, SampleFormat::F32LE);
    assert_eq!(config.caps.rate, 44_100);
    assert_eq!(config.caps.channels, 1);
    assert_eq!(
        config.properties(),
        [
            AppSinkProperty::MaxBuffers(20),
            AppSinkProperty::Drop(false),
            AppSinkProperty::WaitOnEos(true),
        ]
    );
    let names: Vec<&str> = config.properties().iter().map(|p| p.name()).collect();
    assert_eq!(names, ["max-buffers", "drop", "wait-on-eos"]);
}

#[test]
fn error_messages() {
    let why = || String::from("why");
    let source = ElementName { end: End::Source, id: 2 };
    let sink = ElementName { end: End::Sink, id: 30 };
    let expected = [
        (BackendError::UnsupportedFormat(0), "Unsupported audio format: 0"),
        (BackendError::UnsupportedRate(213), "Unsupported sample rate: 213"),
        (BackendError::PoisonedLock, "Poisoned lock"),
        (BackendError::PoisonedStreamsLock, "Poisoned streams lock"),
        (BackendError::SenderOutOfBounds, "Sender index out of bounds"),
        (BackendError::ReadPipelineFailed(why()), "Failed to start pipeline. Error: why"),
        (BackendError::StartPipelineFailed(why()), "Failed to start pipeline: why"),
        (BackendError::StopPipelineFailed(why()), "Failed to stop pipeline. Error : why"),
        (BackendError::ReadyPipelineFailed(why()), "Failed to set pipeline to READY: why"),
        (BackendError::SignalFailed(why()), "Failed to send signal: why"),
        (BackendError::WriteSignalFailed(why()), "Failed to send write signal: why"),
        (
            BackendError::Pipeline(GsError::PipelineError(why())),
            "Stream with id why not found",
        ),
        (BackendError::ElementNotFound(source), "Element 'src2' not found"),
        (BackendError::ElementNotFound(sink), "Element 'sink30' not found"),
        (BackendError::DowncastFailed(source), "Failed to downcast src2 to AppSrc"),
        (BackendError::DowncastFailed(sink), "Failed to downcast sink30 to AppSink"),
    ];
    for (error, text) in expected {
        assert_eq!(error.message(), text);
    }
}
