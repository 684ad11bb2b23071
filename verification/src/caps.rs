//! What the application ends of a pipeline are told about a stream.

use crate::error::{BackendError, Error};
use crate::stream::{PcmParams, Stream};
use crate::virtio_sound::{
    VIRTIO_SND_PCM_FMT_FLOAT,
    VIRTIO_SND_PCM_FMT_FLOAT64,
    VIRTIO_SND_PCM_FMT_S16,
    VIRTIO_SND_PCM_FMT_S24,
    VIRTIO_SND_PCM_FMT_S24_3,
    VIRTIO_SND_PCM_FMT_S32,
    VIRTIO_SND_PCM_FMT_S8,
    VIRTIO_SND_PCM_FMT_U16,
    VIRTIO_SND_PCM_FMT_U24,
    VIRTIO_SND_PCM_FMT_U24_3,
    VIRTIO_SND_PCM_FMT_U32,
    VIRTIO_SND_PCM_FMT_U8,
    VIRTIO_SND_PCM_RATE_11025,
    VIRTIO_SND_PCM_RATE_12000,
    VIRTIO_SND_PCM_RATE_16000,
    VIRTIO_SND_PCM_RATE_176400,
    VIRTIO_SND_PCM_RATE_192000,
    VIRTIO_SND_PCM_RATE_22050,
    VIRTIO_SND_PCM_RATE_24000,
    VIRTIO_SND_PCM_RATE_32000,
    VIRTIO_SND_PCM_RATE_44100,
    VIRTIO_SND_PCM_RATE_48000,
    VIRTIO_SND_PCM_RATE_5512,
    VIRTIO_SND_PCM_RATE_64000,
    VIRTIO_SND_PCM_RATE_8000,
    VIRTIO_SND_PCM_RATE_88200,
    VIRTIO_SND_PCM_RATE_96000,
};
use vstd::prelude::*;

verus! {

/// The media type of uncompressed audio.
pub const MEDIA_TYPE: &'static str = "audio/x-raw";

/// How the samples of the channels are laid out.
pub const LAYOUT: &'static str = "interleaved";

/// Length of a chunk of samples in microseconds.
pub const CHUNK_DURATION_US: u64 = 50_000;

/// Number of chunks that an application source may hold.
pub const WINDOW_CHUNKS: u64 = 8;

/// The raw audio formats in use.
#[derive(Debug, Clone, Copy, PartialEq, Eq, Structural)]
pub enum SampleFormat {
    S8,
    U8,
    S16LE,
    U16LE,
    S24LE,
    U24LE,
    S24In32LE,
    U24In32LE,
    S32LE,
    U32LE,
    F32LE,
    F64LE,
}

impl SampleFormat {
    /// GStreamer's name for the format.
    pub open spec fn text(self) -> Seq<char> {
        match self {
            SampleFormat::S8 => "S8"@,
            SampleFormat::U8 => "U8"@,
            SampleFormat::S16LE => "S16LE"@,
            SampleFormat::U16LE => "U16LE"@,
            SampleFormat::S24LE => "S24LE"@,
            SampleFormat::U24LE => "U24LE"@,
            SampleFormat::S24In32LE => "S24_32LE"@,
            SampleFormat::U24In32LE => "U24_32LE"@,
            SampleFormat::S32LE => "S32LE"@,
            SampleFormat::U32LE => "U32LE"@,
            SampleFormat::F32LE => "F32LE"@,
            SampleFormat::F64LE => "F64LE"@,
        }
    }

    /// Number of bytes that one sample takes.
    pub open spec fn width(self) -> nat {
        match self {
            SampleFormat::S8 | SampleFormat::U8 => 1,
            SampleFormat::S16LE | SampleFormat::U16LE => 2,
            SampleFormat::S24LE | SampleFormat::U24LE => 3,
            SampleFormat::S24In32LE | SampleFormat::U24In32LE => 4,
            SampleFormat::S32LE | SampleFormat::U32LE | SampleFormat::F32LE => 4,
            SampleFormat::F64LE => 8,
        }
    }

    /// GStreamer's name for the format.
    pub fn name(self) -> (r: &'static str)
        ensures
            r@ == self.text(),
    {
        match self {
            SampleFormat::S8 => "S8",
            SampleFormat::U8 => "U8",
            SampleFormat::S16LE => "S16LE",
            SampleFormat::U16LE => "U16LE",
            SampleFormat::S24LE => "S24LE",
            SampleFormat::U24LE => "U24LE",
            SampleFormat::S24In32LE => "S24_32LE",
            SampleFormat::U24In32LE => "U24_32LE",
            SampleFormat::S32LE => "S32LE",
            SampleFormat::U32LE => "U32LE",
            SampleFormat::F32LE => "F32LE",
            SampleFormat::F64LE => "F64LE",
        }
    }
}

/// The raw audio format that a format code stands for.
pub open spec fn sample_format(code: u8) -> Option<SampleFormat> {
    match code {
        VIRTIO_SND_PCM_FMT_S8 => Some(SampleFormat::S8),
        VIRTIO_SND_PCM_FMT_U8 => Some(SampleFormat::U8),
        VIRTIO_SND_PCM_FMT_S16 => Some(SampleFormat::S16LE),
        VIRTIO_SND_PCM_FMT_U16 => Some(SampleFormat::U16LE),
        VIRTIO_SND_PCM_FMT_S24_3 => Some(SampleFormat::S24LE),
        VIRTIO_SND_PCM_FMT_U24_3 => Some(SampleFormat::U24LE),
        VIRTIO_SND_PCM_FMT_S24 => Some(SampleFormat::S24In32LE),
        VIRTIO_SND_PCM_FMT_U24 => Some(SampleFormat::U24In32LE),
        VIRTIO_SND_PCM_FMT_S32 => Some(SampleFormat::S32LE),
        VIRTIO_SND_PCM_FMT_U32 => Some(SampleFormat::U32LE),
        VIRTIO_SND_PCM_FMT_FLOAT => Some(SampleFormat::F32LE),
        VIRTIO_SND_PCM_FMT_FLOAT64 => Some(SampleFormat::F64LE),
        _ => None,
    }
}

/// The number of frames per second that a rate code stands for.
pub open spec fn sample_rate(code: u8) -> Option<i32> {
    match code {
        VIRTIO_SND_PCM_RATE_5512 => Some(5512),
        VIRTIO_SND_PCM_RATE_8000 => Some(8000),
        VIRTIO_SND_PCM_RATE_11025 => Some(11025),
        VIRTIO_SND_PCM_RATE_16000 => Some(16000),
        VIRTIO_SND_PCM_RATE_22050 => Some(22050),
        VIRTIO_SND_PCM_RATE_32000 => Some(32000),
        VIRTIO_SND_PCM_RATE_44100 => Some(44100),
        VIRTIO_SND_PCM_RATE_48000 => Some(48000),
        VIRTIO_SND_PCM_RATE_64000 => Some(64000),
        VIRTIO_SND_PCM_RATE_88200 => Some(88200),
        VIRTIO_SND_PCM_RATE_96000 => Some(96000),
        VIRTIO_SND_PCM_RATE_176400 => Some(176400),
        VIRTIO_SND_PCM_RATE_192000 => Some(192000),
        VIRTIO_SND_PCM_RATE_12000 => Some(12000),
        VIRTIO_SND_PCM_RATE_24000 => Some(24000),
        _ => None,
    }
}

/// Looks up the raw audio format for a format code.
fn find_sample_format(code: u8) -> (r: Option<SampleFormat>)
    ensures
        r == sample_format(code),
{
    match code {
        VIRTIO_SND_PCM_FMT_S8 => Some(SampleFormat::S8),
        VIRTIO_SND_PCM_FMT_U8 => Some(SampleFormat::U8),
        VIRTIO_SND_PCM_FMT_S16 => Some(SampleFormat::S16LE),
        VIRTIO_SND_PCM_FMT_U16 => Some(SampleFormat::U16LE),
        VIRTIO_SND_PCM_FMT_S24_3 => Some(SampleFormat::S24LE),
        VIRTIO_SND_PCM_FMT_U24_3 => Some(SampleFormat::U24LE),
        VIRTIO_SND_PCM_FMT_S24 => Some(SampleFormat::S24In32LE),
        VIRTIO_SND_PCM_FMT_U24 => Some(SampleFormat::U24In32LE),
        VIRTIO_SND_PCM_FMT_S32 => Some(SampleFormat::S32LE),
        VIRTIO_SND_PCM_FMT_U32 => Some(SampleFormat::U32LE),
        VIRTIO_SND_PCM_FMT_FLOAT => Some(SampleFormat::F32LE),
        VIRTIO_SND_PCM_FMT_FLOAT64 => Some(SampleFormat::F64LE),
        _ => None,
    }
}

/// Looks up the number of frames per second for a rate code.
fn find_sample_rate(code: u8) -> (r: Option<i32>)
    ensures
        r == sample_rate(code),
{
    match code {
        VIRTIO_SND_PCM_RATE_5512 => Some(5512),
        VIRTIO_SND_PCM_RATE_8000 => Some(8000),
        VIRTIO_SND_PCM_RATE_11025 => Some(11025),
        VIRTIO_SND_PCM_RATE_16000 => Some(16000),
        VIRTIO_SND_PCM_RATE_22050 => Some(22050),
        VIRTIO_SND_PCM_RATE_32000 => Some(32000),
        VIRTIO_SND_PCM_RATE_44100 => Some(44100),
        VIRTIO_SND_PCM_RATE_48000 => Some(48000),
        VIRTIO_SND_PCM_RATE_64000 => Some(64000),
        VIRTIO_SND_PCM_RATE_88200 => Some(88200),
        VIRTIO_SND_PCM_RATE_96000 => Some(96000),
        VIRTIO_SND_PCM_RATE_176400 => Some(176400),
        VIRTIO_SND_PCM_RATE_192000 => Some(192000),
        VIRTIO_SND_PCM_RATE_12000 => Some(12000),
        VIRTIO_SND_PCM_RATE_24000 => Some(24000),
        _ => None,
    }
}

/// The number of bytes per sample that buffers are sized by. A code without a
/// raw audio format counts as four bytes.
pub open spec fn frame_size(code: u8) -> nat {
    match sample_format(code) {
        Some(format) => format.width(),
        None => 4,
    }
}

/// The number of bytes per sample for a format code; of a larger number, only
/// the low eight bits are the code.
pub fn get_frame_size(format: u32) -> (r: u32)
    ensures
        r == frame_size((format % 256) as u8),
{
    assert(format as u8 == format % 256) by (bit_vector);
    match format as u8 {
        VIRTIO_SND_PCM_FMT_S8 | VIRTIO_SND_PCM_FMT_U8 => 1,
        VIRTIO_SND_PCM_FMT_S16 | VIRTIO_SND_PCM_FMT_U16 => 2,
        VIRTIO_SND_PCM_FMT_S24_3 | VIRTIO_SND_PCM_FMT_U24_3 => 3,
        VIRTIO_SND_PCM_FMT_S24
        | VIRTIO_SND_PCM_FMT_U24
        | VIRTIO_SND_PCM_FMT_S32
        | VIRTIO_SND_PCM_FMT_U32
        | VIRTIO_SND_PCM_FMT_FLOAT => 4,
        VIRTIO_SND_PCM_FMT_FLOAT64 => 8,
        _ => 4,
    }
}

/// The capabilities of an application end. Media type and layout are always
/// `MEDIA_TYPE` and `LAYOUT`.
#[derive(Debug, Clone, Copy, PartialEq, Eq, Structural)]
pub struct AudioCaps {
    pub format: SampleFormat,
    pub rate: i32,
    pub channels: i32,
}

/// The capabilities that go with the parameters of a stream. A bad format code
/// is reported before a bad rate code.
pub open spec fn caps_for(params: PcmParams) -> Result<AudioCaps, Error> {
    match (sample_format(params.format), sample_rate(params.rate)) {
        (Some(format), Some(rate)) => Ok(AudioCaps { format, rate, channels: params.channels as i32 }),
        (None, _) => Err(
            Error::UnexpectedAudioBackendError(BackendError::UnsupportedFormat(params.format)),
        ),
        (Some(_), None) => Err(
            Error::UnexpectedAudioBackendError(BackendError::UnsupportedRate(params.rate)),
        ),
    }
}

/// Works out the capabilities that go with the parameters of a stream.
fn find_caps(params: &PcmParams) -> (r: Result<AudioCaps, Error>)
    ensures
        r == caps_for(*params),
{
    let format = match find_sample_format(params.format) {
        Some(format) => format,
        None => {
            return Err(
                Error::UnexpectedAudioBackendError(BackendError::UnsupportedFormat(params.format)),
            );
        },
    };
    let rate: i32 = match find_sample_rate(params.rate) {
        Some(rate) => rate,
        None => {
            return Err(
                Error::UnexpectedAudioBackendError(BackendError::UnsupportedRate(params.rate)),
            );
        },
    };
    Ok(AudioCaps { format, rate, channels: params.channels as i32 })
}

/// Number of bytes that a stream with these capabilities takes per second,
/// at `width` bytes per sample.
pub open spec fn bytes_per_second(caps: AudioCaps, width: nat) -> int {
    caps.rate * caps.channels * width
}

/// Number of bytes that an application source may hold: a number of chunks,
/// each rounded down to whole bytes.
pub open spec fn window_bytes(bytes_per_second: int) -> int {
    bytes_per_second * CHUNK_DURATION_US / 1_000_000 * WINDOW_CHUNKS
}

/// A property of an application source, with its value.
#[derive(Debug, Clone, Copy, PartialEq, Eq, Structural)]
pub enum AppSrcProperty {
    IsLive(bool),
    DoTimestamp(bool),
    /// The format of segments is time.
    FormatTime,
    Block(bool),
    MaxBytes(u64),
    MaxBuffers(u64),
    MaxTime(u64),
    MinLatency(i64),
    MaxLatency(i64),
}

impl AppSrcProperty {
    /// The name of the property.
    pub open spec fn text(self) -> Seq<char> {
        match self {
            AppSrcProperty::IsLive(_) => "is-live"@,
            AppSrcProperty::DoTimestamp(_) => "do-timestamp"@,
            AppSrcProperty::FormatTime => "format"@,
            AppSrcProperty::Block(_) => "block"@,
            AppSrcProperty::MaxBytes(_) => "max-bytes"@,
            AppSrcProperty::MaxBuffers(_) => "max-buffers"@,
            AppSrcProperty::MaxTime(_) => "max-time"@,
            AppSrcProperty::MinLatency(_) => "min-latency"@,
            AppSrcProperty::MaxLatency(_) => "max-latency"@,
        }
    }

    /// The name of the property.
    pub fn name(self) -> (r: &'static str)
        ensures
            r@ == self.text(),
    {
        match self {
            AppSrcProperty::IsLive(_) => "is-live",
            AppSrcProperty::DoTimestamp(_) => "do-timestamp",
            AppSrcProperty::FormatTime => "format",
            AppSrcProperty::Block(_) => "block",
            AppSrcProperty::MaxBytes(_) => "max-bytes",
            AppSrcProperty::MaxBuffers(_) => "max-buffers",
            AppSrcProperty::MaxTime(_) => "max-time",
            AppSrcProperty::MinLatency(_) => "min-latency",
            AppSrcProperty::MaxLatency(_) => "max-latency",
        }
    }
}

/// A property of an application sink, with its value.
#[derive(Debug, Clone, Copy, PartialEq, Eq, Structural)]
pub enum AppSinkProperty {
    MaxBuffers(u32),
    Drop(bool),
    WaitOnEos(bool),
}

impl AppSinkProperty {
    /// The name of the property.
    pub open spec fn text(self) -> Seq<char> {
        match self {
            AppSinkProperty::MaxBuffers(_) => "max-buffers"@,
            AppSinkProperty::Drop(_) => "drop"@,
            AppSinkProperty::WaitOnEos(_) => "wait-on-eos"@,
        }
    }

    /// The name of the property.
    pub fn name(self) -> (r: &'static str)
        ensures
            r@ == self.text(),
    {
        match self {
            AppSinkProperty::MaxBuffers(_) => "max-buffers",
            AppSinkProperty::Drop(_) => "drop",
            AppSinkProperty::WaitOnEos(_) => "wait-on-eos",
        }
    }
}

/// The settings of an application source. It may hold `max_bytes` bytes.
#[derive(Debug, Clone, Copy, PartialEq, Eq, Structural)]
pub struct AppSrcConfig {
    pub caps: AudioCaps,
    pub max_bytes: u64,
}

/// The settings of an application sink.
#[derive(Debug, Clone, Copy, PartialEq, Eq, Structural)]
pub struct AppSinkConfig {
    pub caps: AudioCaps,
}

/// The properties of an application source that may hold `max_bytes` bytes.
pub open spec fn source_properties(max_bytes: u64) -> Seq<AppSrcProperty> {
    seq![
        AppSrcProperty::IsLive(true),
        AppSrcProperty::DoTimestamp(true),
        AppSrcProperty::FormatTime,
        AppSrcProperty::Block(true),
        AppSrcProperty::IsLive(true),
        AppSrcProperty::FormatTime,
        AppSrcProperty::MaxBytes(max_bytes),
        AppSrcProperty::MaxBuffers(20),
        AppSrcProperty::MaxTime(2_000_000_000),
        AppSrcProperty::MinLatency(10_000_000),
        AppSrcProperty::MaxLatency(500_000_000),
        AppSrcProperty::DoTimestamp(false),
    ]
}

/// The properties of an application sink.
pub open spec fn sink_properties() -> Seq<AppSinkProperty> {
    seq![
        AppSinkProperty::MaxBuffers(20),
        AppSinkProperty::Drop(false),
        AppSinkProperty::WaitOnEos(true),
    ]
}

/// The size limit of the application source of a stream with these parameters.
pub open spec fn max_bytes_for(params: PcmParams) -> int {
    window_bytes(bytes_per_second(caps_for(params)->Ok_0, frame_size(params.format)))
}

/// The byte rate of any stream is small.
proof fn lemma_bytes_per_second_bounds(caps: AudioCaps, width: nat)
    requires
        0 <= caps.rate <= 192_000,
        0 <= caps.channels <= 255,
        width <= 8,
    ensures
        0 <= caps.rate * caps.channels <= 48_960_000,
        0 <= bytes_per_second(caps, width) <= 391_680_000,
{
    assert(0 <= caps.rate * caps.channels <= 48_960_000) by (nonlinear_arith)
        requires
            0 <= caps.rate <= 192_000,
            0 <= caps.channels <= 255,
    ;
    let product: int = caps.rate * caps.channels;
    assert(0 <= product * width <= 391_680_000) by (nonlinear_arith)
        requires
            0 <= product <= 48_960_000,
            0 <= width <= 8,
    ;
}

/// The settings that the application source of a stream with these parameters
/// gets.
pub open spec fn source_config(params: PcmParams) -> Result<AppSrcConfig, Error> {
    match caps_for(params) {
        Ok(caps) => Ok(AppSrcConfig { caps, max_bytes: max_bytes_for(params) as u64 }),
        Err(e) => Err(e),
    }
}

/// The settings that the application sink of a stream with these parameters
/// gets.
pub open spec fn sink_config(params: PcmParams) -> Result<AppSinkConfig, Error> {
    match caps_for(params) {
        Ok(caps) => Ok(AppSinkConfig { caps }),
        Err(e) => Err(e),
    }
}

impl AppSrcConfig {
    /// The properties to set, in this order, after the capabilities.
    pub fn properties(&self) -> (r: Vec<AppSrcProperty>)
        ensures
            r@ == source_properties(self.max_bytes),
    {
        vec![
            AppSrcProperty::IsLive(true),
            AppSrcProperty::DoTimestamp(true),
            AppSrcProperty::FormatTime,
            AppSrcProperty::Block(true),
            AppSrcProperty::IsLive(true),
            AppSrcProperty::FormatTime,
            AppSrcProperty::MaxBytes(self.max_bytes),
            AppSrcProperty::MaxBuffers(20),
            AppSrcProperty::MaxTime(2_000_000_000),
            AppSrcProperty::MinLatency(10_000_000),
            AppSrcProperty::MaxLatency(500_000_000),
            AppSrcProperty::DoTimestamp(false),
        ]
    }
}

impl AppSinkConfig {
    /// The properties to set, in this order, after the capabilities.
    pub fn properties(&self) -> (r: Vec<AppSinkProperty>)
        ensures
            r@ == sink_properties(),
    {
        vec![
            AppSinkProperty::MaxBuffers(20),
            AppSinkProperty::Drop(false),
            AppSinkProperty::WaitOnEos(true),
        ]
    }
}

/// Works out the settings of the application source of a playback stream.
pub fn configure_appsrc_for_stream<M>(stream: &Stream<M>) -> (r: Result<AppSrcConfig, Error>)
    ensures
        r == source_config(stream.params),
        r is Ok ==> r->Ok_0.max_bytes == max_bytes_for(stream.params),
        r is Ok ==> {
            let config = r->Ok_0;
            &&& config.caps.channels == stream.params.channels
            &&& sample_format(stream.params.format) == Some(config.caps.format)
            &&& sample_rate(stream.params.rate) == Some(config.caps.rate)
            &&& config.max_bytes == config.caps.rate * config.caps.channels * frame_size(
                stream.params.format,
            ) * 50_000 / 1_000_000 * 8
        },
        r is Err ==> r->Err_0 == Error::UnexpectedAudioBackendError(
            if sample_format(stream.params.format) is None {
                BackendError::UnsupportedFormat(stream.params.format)
            } else {
                BackendError::UnsupportedRate(stream.params.rate)
            },
        ),
        r is Ok <==> sample_format(stream.params.format) is Some && sample_rate(
            stream.params.rate,
        ) is Some,
{
    let caps = match find_caps(&stream.params) {
        Ok(caps) => caps,
        Err(e) => {
            return Err(e);
        },
    };
    let frame_size = get_frame_size(stream.params.format as u32);
    proof {
        lemma_bytes_per_second_bounds(caps, frame_size as nat);
    }
    let bytes_per_sec: u64 = caps.rate as u64 * caps.channels as u64 * frame_size as u64;
    let buffer_bytes: u64 = bytes_per_sec * CHUNK_DURATION_US / 1_000_000;
    let max_bytes: u64 = buffer_bytes * WINDOW_CHUNKS;
    Ok(AppSrcConfig { caps, max_bytes })
}

/// Works out the settings of the application sink of a capture stream.
pub fn configure_appsink_for_stream<M>(stream: &Stream<M>) -> (r: Result<AppSinkConfig, Error>)
    ensures
        r == sink_config(stream.params),
        r is Ok ==> {
            let config = r->Ok_0;
            &&& config.caps.channels == stream.params.channels
            &&& sample_format(stream.params.format) == Some(config.caps.format)
            &&& sample_rate(stream.params.rate) == Some(config.caps.rate)
        },
        r is Err ==> r->Err_0 == Error::UnexpectedAudioBackendError(
            if sample_format(stream.params.format) is None {
                BackendError::UnsupportedFormat(stream.params.format)
            } else {
                BackendError::UnsupportedRate(stream.params.rate)
            },
        ),
        r is Ok <==> sample_format(stream.params.format) is Some && sample_rate(
            stream.params.rate,
        ) is Some,
{
    match find_caps(&stream.params) {
        Ok(caps) => Ok(AppSinkConfig { caps }),
        Err(e) => Err(e),
    }
}

/// No two format codes stand for the same format.
pub proof fn lemma_sample_format_injective(a: u8, b: u8)
    requires
        sample_format(a) is Some,
        sample_format(a) == sample_format(b),
    ensures
        a == b,
{
}

/// No two rate codes stand for the same rate.
pub proof fn lemma_sample_rate_injective(a: u8, b: u8)
    requires
        sample_rate(a) is Some,
        sample_rate(a) == sample_rate(b),
    ensures
        a == b,
{
}

/// No two formats go by the same name.
pub proof fn lemma_format_names_distinct(a: SampleFormat, b: SampleFormat)
    requires
        a.text() == b.text(),
    ensures
        a == b,
{
    reveal_strlit("S8");
    reveal_strlit("U8");
    reveal_strlit("S16LE");
    reveal_strlit("U16LE");
    reveal_strlit("S24LE");
    reveal_strlit("U24LE");
    reveal_strlit("S24_32LE");
    reveal_strlit("U24_32LE");
    reveal_strlit("S32LE");
    reveal_strlit("U32LE");
    reveal_strlit("F32LE");
    reveal_strlit("F64LE");
    assert("S8"@.len() == 2 && "S8"@[0] == 'S' && "S8"@[1] == '8');
    assert("U8"@.len() == 2 && "U8"@[0] == 'U' && "U8"@[1] == '8');
    assert("S16LE"@.len() == 5 && "S16LE"@[0] == 'S' && "S16LE"@[1] == '1');
    assert("U16LE"@.len() == 5 && "U16LE"@[0] == 'U' && "U16LE"@[1] == '1');
    assert("S24LE"@.len() == 5 && "S24LE"@[0] == 'S' && "S24LE"@[1] == '2');
    assert("U24LE"@.len() == 5 && "U24LE"@[0] == 'U' && "U24LE"@[1] == '2');
    assert("S24_32LE"@.len() == 8 && "S24_32LE"@[0] == 'S' && "S24_32LE"@[1] == '2');
    assert("U24_32LE"@.len() == 8 && "U24_32LE"@[0] == 'U' && "U24_32LE"@[1] == '2');
    assert("S32LE"@.len() == 5 && "S32LE"@[0] == 'S' && "S32LE"@[1] == '3');
    assert("U32LE"@.len() == 5 && "U32LE"@[0] == 'U' && "U32LE"@[1] == '3');
    assert("F32LE"@.len() == 5 && "F32LE"@[0] == 'F' && "F32LE"@[1] == '3');
    assert("F64LE"@.len() == 5 && "F64LE"@[0] == 'F' && "F64LE"@[1] == '6');
}

/// Streams with different formats, rates or numbers of channels get different
/// capabilities.
pub proof fn lemma_caps_tell_streams_apart(a: PcmParams, b: PcmParams)
    requires
        caps_for(a) is Ok,
        caps_for(a) == caps_for(b),
    ensures
        a.format == b.format,
        a.rate == b.rate,
        a.channels == b.channels,
{
    lemma_sample_format_injective(a.format, b.format);
    lemma_sample_rate_injective(a.rate, b.rate);
}

/// The window of an application source holds 400 milliseconds of samples, less
/// what rounding takes away: under one byte per chunk.
pub proof fn lemma_window_duration(bytes_per_second: int)
    requires
        bytes_per_second >= 0,
    ensures
        window_bytes(bytes_per_second) * 1000 <= bytes_per_second * 400,
        window_bytes(bytes_per_second) * 1000 > bytes_per_second * 400 - 1000 * WINDOW_CHUNKS,
{
}

/// More channels never shrink the window.
pub proof fn lemma_window_grows_with_channels(a: PcmParams, b: PcmParams)
    requires
        caps_for(a) is Ok,
        a.format == b.format,
        a.rate == b.rate,
        a.channels <= b.channels,
    ensures
        max_bytes_for(a) <= max_bytes_for(b),
{
    let ca = caps_for(a)->Ok_0;
    let cb = caps_for(b)->Ok_0;
    let width = frame_size(a.format);
    assert(ca.rate * ca.channels * width <= cb.rate * cb.channels * width) by (nonlinear_arith)
        requires
            0 <= ca.rate,
            ca.rate == cb.rate,
            ca.channels <= cb.channels,
            0 <= width,
    ;
}

/// Whatever is set on the way, an application source ends up live, blocking
/// and without timestamps of its own: later settings of a property win.
pub proof fn lemma_last_settings_win(max_bytes: u64, i: int)
    requires
        0 <= i < source_properties(max_bytes).len(),
        forall|j: int|
            i < j < source_properties(max_bytes).len() ==> source_properties(max_bytes)[i].text()
                != #[trigger] source_properties(max_bytes)[j].text(),
    ensures
        source_properties(max_bytes)[i] is DoTimestamp ==> source_properties(max_bytes)[i]
            == AppSrcProperty::DoTimestamp(false),
        source_properties(max_bytes)[i] is IsLive ==> source_properties(max_bytes)[i]
            == AppSrcProperty::IsLive(true),
        source_properties(max_bytes)[i] is Block ==> source_properties(max_bytes)[i]
            == AppSrcProperty::Block(true),
{
    let properties = source_properties(max_bytes);
    assert(properties[11].text() == "do-timestamp"@);
}

/// The application ends of a stream are configured for the samples that the
/// stream carries: for its format, its rate and its number of channels.
pub proof fn lemma_settings_match_the_stream(params: PcmParams)
    ensures
        source_config(params) is Ok ==> {
            let caps = source_config(params)->Ok_0.caps;
            &&& caps.channels == params.channels
            &&& sample_format(params.format) == Some(caps.format)
            &&& sample_rate(params.rate) == Some(caps.rate)
        },
        sink_config(params) is Ok ==> {
            let caps = sink_config(params)->Ok_0.caps;
            &&& caps.channels == params.channels
            &&& sample_format(params.format) == Some(caps.format)
            &&& sample_rate(params.rate) == Some(caps.rate)
        },
{
}

/// The capabilities that go with parameters are those of the samples, and exist
/// exactly for a known format and a known rate.
pub proof fn lemma_caps_match_the_parameters(params: PcmParams)
    ensures
        caps_for(params) is Ok <==> sample_format(params.format) is Some && sample_rate(
            params.rate,
        ) is Some,
        caps_for(params) is Ok ==> {
            let caps = caps_for(params)->Ok_0;
            &&& caps.channels == params.channels
            &&& sample_format(params.format) == Some(caps.format)
            &&& sample_rate(params.rate) == Some(caps.rate)
        },
{
}

/// Playback and capture agree: the same parameters give the same capabilities,
/// or the same error.
pub proof fn lemma_source_and_sink_agree(params: PcmParams)
    ensures
        source_config(params) is Ok <==> sink_config(params) is Ok,
        source_config(params) is Ok ==> source_config(params)->Ok_0.caps == sink_config(
            params,
        )->Ok_0.caps,
        source_config(params) is Err ==> source_config(params)->Err_0 == sink_config(
            params,
        )->Err_0,
{
}

/// Streams that differ in format, rate or number of channels get different
/// settings at either end.
pub proof fn lemma_settings_tell_streams_apart(a: PcmParams, b: PcmParams)
    requires
        a.format != b.format || a.rate != b.rate || a.channels != b.channels,
    ensures
        source_config(a) is Ok ==> source_config(a) != source_config(b),
        sink_config(a) is Ok ==> sink_config(a) != sink_config(b),
{
    if sample_format(a.format) is Some && sample_format(a.format) == sample_format(b.format) {
        lemma_sample_format_injective(a.format, b.format);
    }
    if sample_rate(a.rate) is Some && sample_rate(a.rate) == sample_rate(b.rate) {
        lemma_sample_rate_injective(a.rate, b.rate);
    }
}

/// What a stream does not carry samples by, its buffer and period sizes and its
/// features, does not matter to its settings.
pub proof fn lemma_settings_depend_on_the_samples_only(a: PcmParams, b: PcmParams)
    requires
        a.format == b.format,
        a.rate == b.rate,
        a.channels == b.channels,
    ensures
        source_config(a) == source_config(b),
        sink_config(a) == sink_config(b),
{
}

/// Settings exist exactly for a known format and a known rate. Otherwise the
/// format is reported if it is unknown, and the rate if only that is.
pub proof fn lemma_when_settings_exist(params: PcmParams)
    ensures
        sink_config(params) is Ok <==> sample_format(params.format) is Some && sample_rate(
            params.rate,
        ) is Some,
        sample_format(params.format) is None ==> source_config(params) == Err::<
            AppSrcConfig,
            Error,
        >(Error::UnexpectedAudioBackendError(BackendError::UnsupportedFormat(params.format))),
        sample_format(params.format) is Some && sample_rate(params.rate) is None
            ==> source_config(params) == Err::<AppSrcConfig, Error>(
            Error::UnexpectedAudioBackendError(BackendError::UnsupportedRate(params.rate)),
        ),
{
}

/// Which codes are known, and how many bytes a sample takes for each of them.
pub proof fn lemma_known_codes(code: u8)
    ensures
        sample_format(code) is Some <==> 3 <= code <= 6 || code == 11 || code == 12 || 15 <= code
            <= 20,
        sample_rate(code) is Some <==> code <= 12 || code == 14 || code == 15,
        frame_size(code) == 1 <==> code == 3 || code == 4,
        frame_size(code) == 2 <==> code == 5 || code == 6,
        frame_size(code) == 3 <==> code == 11 || code == 12,
        frame_size(code) == 8 <==> code == 20,
        frame_size(code) == 1 || frame_size(code) == 2 || frame_size(code) == 3 || frame_size(code)
            == 4 || frame_size(code) == 8,
{
}

/// What each format code stands for.
pub proof fn lemma_formats_of_codes(code: u8)
    ensures
        sample_format(code) == Some(SampleFormat::S8) <==> code == 3,
        sample_format(code) == Some(SampleFormat::U8) <==> code == 4,
        sample_format(code) == Some(SampleFormat::S16LE) <==> code == 5,
        sample_format(code) == Some(SampleFormat::U16LE) <==> code == 6,
        sample_format(code) == Some(SampleFormat::S24LE) <==> code == 11,
        sample_format(code) == Some(SampleFormat::U24LE) <==> code == 12,
        sample_format(code) == Some(SampleFormat::S24In32LE) <==> code == 15,
        sample_format(code) == Some(SampleFormat::U24In32LE) <==> code == 16,
        sample_format(code) == Some(SampleFormat::S32LE) <==> code == 17,
        sample_format(code) == Some(SampleFormat::U32LE) <==> code == 18,
        sample_format(code) == Some(SampleFormat::F32LE) <==> code == 19,
        sample_format(code) == Some(SampleFormat::F64LE) <==> code == 20,
{
}

/// What GStreamer calls each format, and how many bytes a sample of it takes.
pub proof fn lemma_names_and_widths_of_formats()
    ensures
        SampleFormat::S8.text() == "S8"@ && SampleFormat::S8.width() == 1,
        SampleFormat::U8.text() == "U8"@ && SampleFormat::U8.width() == 1,
        SampleFormat::S16LE.text() == "S16LE"@ && SampleFormat::S16LE.width() == 2,
        SampleFormat::U16LE.text() == "U16LE"@ && SampleFormat::U16LE.width() == 2,
        SampleFormat::S24LE.text() == "S24LE"@ && SampleFormat::S24LE.width() == 3,
        SampleFormat::U24LE.text() == "U24LE"@ && SampleFormat::U24LE.width() == 3,
        SampleFormat::S24In32LE.text() == "S24_32LE"@ && SampleFormat::S24In32LE.width() == 4,
        SampleFormat::U24In32LE.text() == "U24_32LE"@ && SampleFormat::U24In32LE.width() == 4,
        SampleFormat::S32LE.text() == "S32LE"@ && SampleFormat::S32LE.width() == 4,
        SampleFormat::U32LE.text() == "U32LE"@ && SampleFormat::U32LE.width() == 4,
        SampleFormat::F32LE.text() == "F32LE"@ && SampleFormat::F32LE.width() == 4,
        SampleFormat::F64LE.text() == "F64LE"@ && SampleFormat::F64LE.width() == 8,
        MEDIA_TYPE@ == "audio/x-raw"@,
        LAYOUT@ == "interleaved"@,
{
}

/// What each rate code stands for.
pub proof fn lemma_rates_of_codes(code: u8)
    ensures
        sample_rate(code) == Some(5512i32) <==> code == 0,
        sample_rate(code) == Some(8000i32) <==> code == 1,
        sample_rate(code) == Some(11025i32) <==> code == 2,
        sample_rate(code) == Some(16000i32) <==> code == 3,
        sample_rate(code) == Some(22050i32) <==> code == 4,
        sample_rate(code) == Some(32000i32) <==> code == 5,
        sample_rate(code) == Some(44100i32) <==> code == 6,
        sample_rate(code) == Some(48000i32) <==> code == 7,
        sample_rate(code) == Some(64000i32) <==> code == 8,
        sample_rate(code) == Some(88200i32) <==> code == 9,
        sample_rate(code) == Some(96000i32) <==> code == 10,
        sample_rate(code) == Some(176400i32) <==> code == 11,
        sample_rate(code) == Some(192000i32) <==> code == 12,
        sample_rate(code) == Some(12000i32) <==> code == 14,
        sample_rate(code) == Some(24000i32) <==> code == 15,
{
}

/// The window of the source of a stream holds 400 milliseconds of its samples,
/// in eight chunks of whole bytes.
pub proof fn lemma_window_of_a_stream(params: PcmParams)
    requires
        source_config(params) is Ok,
    ensures
        ({
            let max_bytes = source_config(params)->Ok_0.max_bytes;
            let per_second = sample_rate(params.rate)->0 * params.channels * frame_size(
                params.format,
            );
            &&& max_bytes % 8 == 0
            &&& max_bytes * 1000 <= per_second * 400
            &&& max_bytes * 1000 > per_second * 400 - 8000
        }),
{
    let caps = source_config(params)->Ok_0.caps;
    lemma_bytes_per_second_bounds(caps, frame_size(params.format));
    lemma_window_duration(bytes_per_second(caps, frame_size(params.format)));
}

/// The properties of a source depend on the stream in one place only, the
/// number of bytes that it may hold.
pub proof fn lemma_source_properties_differ_in_the_window(a: u64, b: u64, i: int)
    requires
        0 <= i < 12,
    ensures
        source_properties(a).len() == 12,
        source_properties(a)[i] == AppSrcProperty::MaxBytes(a) <==> i == 6,
        i != 6 ==> source_properties(a)[i] == source_properties(b)[i],
        i == 0 || i == 4 ==> source_properties(a)[i] == AppSrcProperty::IsLive(true),
        i == 1 ==> source_properties(a)[i] == AppSrcProperty::DoTimestamp(true),
        i == 2 || i == 5 ==> source_properties(a)[i] == AppSrcProperty::FormatTime,
        i == 3 ==> source_properties(a)[i] == AppSrcProperty::Block(true),
        i == 7 ==> source_properties(a)[i] == AppSrcProperty::MaxBuffers(20),
        i == 8 ==> source_properties(a)[i] == AppSrcProperty::MaxTime(2_000_000_000),
        i == 9 ==> source_properties(a)[i] == AppSrcProperty::MinLatency(10_000_000),
        i == 10 ==> source_properties(a)[i] == AppSrcProperty::MaxLatency(500_000_000),
        i == 11 ==> source_properties(a)[i] == AppSrcProperty::DoTimestamp(false),
{
}

/// The properties of a sink: it holds 20 buffers, drops none, and waits for the
/// end of the stream.
pub proof fn lemma_sink_properties(i: int)
    requires
        0 <= i < 3,
    ensures
        sink_properties().len() == 3,
        sink_properties()[i] is MaxBuffers <==> i == 0,
        sink_properties()[i] is Drop <==> i == 1,
        sink_properties()[i] is WaitOnEos <==> i == 2,
        i == 0 ==> sink_properties()[i] == AppSinkProperty::MaxBuffers(20),
        i == 1 ==> sink_properties()[i] == AppSinkProperty::Drop(false),
        i == 2 ==> sink_properties()[i] == AppSinkProperty::WaitOnEos(true),
{
}

/// The name of a property does not depend on its value.
pub proof fn lemma_property_names(flag: bool, number: u64, latency: i64, buffers: u32)
    ensures
        AppSrcProperty::IsLive(flag).text() == "is-live"@,
        AppSrcProperty::DoTimestamp(flag).text() == "do-timestamp"@,
        AppSrcProperty::FormatTime.text() == "format"@,
        AppSrcProperty::Block(flag).text() == "block"@,
        AppSrcProperty::MaxBytes(number).text() == "max-bytes"@,
        AppSrcProperty::MaxBuffers(number).text() == "max-buffers"@,
        AppSrcProperty::MaxTime(number).text() == "max-time"@,
        AppSrcProperty::MinLatency(latency).text() == "min-latency"@,
        AppSrcProperty::MaxLatency(latency).text() == "max-latency"@,
        AppSinkProperty::MaxBuffers(buffers).text() == "max-buffers"@,
        AppSinkProperty::Drop(flag).text() == "drop"@,
        AppSinkProperty::WaitOnEos(flag).text() == "wait-on-eos"@,
{
}

} // verus!
