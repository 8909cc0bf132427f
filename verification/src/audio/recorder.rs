use vstd::prelude::*;

use crate::config;

verus! {

/// File extension of a recording.
pub const RECORDING_EXTENSION: &'static str = ".flac";

/// Widest sample, in bytes, that the codec accepts.
pub const MAX_SAMPLE_BYTES: usize = 4;

/// Longest time, in milliseconds, the capture loop waits for samples before
/// it looks at the stop flag again.
pub const MAX_STOP_HANDLE_INTERVAL_MS: u64 = 100;

/// Sample layouts an input device can offer.
#[derive(Clone, Copy, Debug, PartialEq, Eq, Structural)]
pub enum SampleFormat {
    I8,
    I16,
    I32,
    I64,
    U8,
    U16,
    U32,
    U64,
    F32,
    F64,
}

impl SampleFormat {
    pub open spec fn spec_sample_size(self) -> usize {
        match self {
            SampleFormat::I8 | SampleFormat::U8 => 1,
            SampleFormat::I16 | SampleFormat::U16 => 2,
            SampleFormat::I32 | SampleFormat::U32 | SampleFormat::F32 => 4,
            SampleFormat::I64 | SampleFormat::U64 | SampleFormat::F64 => 8,
        }
    }

    pub open spec fn spec_is_int(self) -> bool {
        self == SampleFormat::I8 || self == SampleFormat::I16 || self == SampleFormat::I32 || self
            == SampleFormat::I64
    }

    /// Size of one sample in bytes.
    pub fn sample_size(self) -> (size: usize)
        ensures
            size == self.spec_sample_size(),
    {
        match self {
            SampleFormat::I8 | SampleFormat::U8 => 1,
            SampleFormat::I16 | SampleFormat::U16 => 2,
            SampleFormat::I32 | SampleFormat::U32 | SampleFormat::F32 => 4,
            SampleFormat::I64 | SampleFormat::U64 | SampleFormat::F64 => 8,
        }
    }

    /// Whether the format is a signed integer.
    pub fn is_int(self) -> (yes: bool)
        ensures
            yes == self.spec_is_int(),
    {
        match self {
            SampleFormat::I8 | SampleFormat::I16 | SampleFormat::I32 | SampleFormat::I64 => true,
            _ => false,
        }
    }
}

/// One range of input configurations that a device reports.
#[derive(Clone, Copy, Debug, PartialEq, Eq, Structural)]
pub struct InputConfigRange {
    pub channels: u16,
    pub min_sample_rate: u32,
    pub max_sample_rate: u32,
    pub sample_format: SampleFormat,
}

/// A concrete input configuration.
#[derive(Clone, Copy, Debug, PartialEq, Eq, Structural)]
pub struct InputConfig {
    pub channels: u16,
    pub sample_rate: u32,
    pub sample_format: SampleFormat,
}

impl InputConfigRange {
    /// The range can feed the codec with the wanted channel count and rate.
    pub open spec fn supports(self, wanted: config::Recorder) -> bool {
        &&& self.sample_format.spec_is_int()
        &&& self.sample_format.spec_sample_size() <= MAX_SAMPLE_BYTES
        &&& self.channels == wanted.channels
        &&& self.min_sample_rate <= wanted.sample_rate <= self.max_sample_rate
    }

    /// The configuration this range yields at the wanted rate.
    pub open spec fn at(self, wanted: config::Recorder) -> InputConfig {
        InputConfig {
            channels: self.channels,
            sample_rate: wanted.sample_rate,
            sample_format: self.sample_format,
        }
    }

    fn check(&self, wanted: &config::Recorder, size: usize) -> (yes: bool)
        ensures
            yes == (self.supports(*wanted) && self.sample_format.spec_sample_size() == size),
    {
        self.sample_format.is_int() && self.sample_format.sample_size() <= MAX_SAMPLE_BYTES
            && self.sample_format.sample_size() == size && self.channels == wanted.channels
            && self.min_sample_rate <= wanted.sample_rate && wanted.sample_rate
            <= self.max_sample_rate
    }
}

/// The supported configurations of `size` bytes per sample, in the order the
/// device reported them.
pub open spec fn supported_of_size(
    ranges: Seq<InputConfigRange>,
    wanted: config::Recorder,
    size: usize,
) -> Seq<InputConfig>
    decreases ranges.len(),
{
    if ranges.len() == 0 {
        Seq::empty()
    } else {
        let rest = supported_of_size(ranges.drop_last(), wanted, size);
        let last = ranges.last();
        if last.supports(wanted) && last.sample_format.spec_sample_size() == size {
            rest.push(last.at(wanted))
        } else {
            rest
        }
    }
}

/// Every configuration the codec can take, widest samples first; among equal
/// widths the device's order is kept.
pub open spec fn spec_flac_supported_input_configs(
    ranges: Seq<InputConfigRange>,
    wanted: config::Recorder,
) -> Seq<InputConfig> {
    supported_of_size(ranges, wanted, 4) + supported_of_size(ranges, wanted, 2)
        + supported_of_size(ranges, wanted, 1)
}

fn append_of_size(
    out: &mut Vec<InputConfig>,
    ranges: &Vec<InputConfigRange>,
    wanted: &config::Recorder,
    size: usize,
)
    ensures
        final(out)@ == old(out)@ + supported_of_size(ranges@, *wanted, size),
{
    let mut i: usize = 0;
    while i < ranges.len()
        invariant
            i <= ranges.len(),
            out@ == old(out)@ + supported_of_size(ranges@.take(i as int), *wanted, size),
        decreases ranges.len() - i,
    {
        proof {
            assert(ranges@.take(i + 1).drop_last() == ranges@.take(i as int));
        }
        if ranges[i].check(wanted, size) {
            out.push(
                InputConfig {
                    channels: ranges[i].channels,
                    sample_rate: wanted.sample_rate,
                    sample_format: ranges[i].sample_format,
                },
            );
        }
        i += 1;
    }
    proof {
        assert(ranges@.take(ranges.len() as int) == ranges@);
    }
}

/// Lists the configurations usable for encoding, widest samples first.
pub fn flac_supported_input_configs(wanted: &config::Recorder, ranges: &Vec<InputConfigRange>) -> (out:
    Vec<InputConfig>)
    ensures
        out@ == spec_flac_supported_input_configs(ranges@, *wanted),
{
    let mut out: Vec<InputConfig> = Vec::new();
    append_of_size(&mut out, ranges, wanted, 4);
    append_of_size(&mut out, ranges, wanted, 2);
    append_of_size(&mut out, ranges, wanted, 1);
    out
}

/// Every listed configuration comes from a reported range that supports the
/// wanted settings, and no later entry has wider samples than an earlier one.
pub proof fn lemma_supported_configs_ordered(
    ranges: Seq<InputConfigRange>,
    wanted: config::Recorder,
    i: int,
    j: int,
)
    requires
        0 <= i <= j < spec_flac_supported_input_configs(ranges, wanted).len(),
    ensures
        spec_flac_supported_input_configs(ranges, wanted)[i].sample_format.spec_sample_size()
            >= spec_flac_supported_input_configs(ranges, wanted)[j].sample_format.spec_sample_size(),
        spec_flac_supported_input_configs(ranges, wanted)[i].sample_format.spec_is_int(),
        spec_flac_supported_input_configs(ranges, wanted)[i].channels == wanted.channels,
        spec_flac_supported_input_configs(ranges, wanted)[i].sample_rate == wanted.sample_rate,
{
    lemma_of_size(ranges, wanted, 4);
    lemma_of_size(ranges, wanted, 2);
    lemma_of_size(ranges, wanted, 1);
}

proof fn lemma_of_size(ranges: Seq<InputConfigRange>, wanted: config::Recorder, size: usize)
    ensures
        forall|k: int|
            0 <= k < supported_of_size(ranges, wanted, size).len() ==> {
                let c = #[trigger] supported_of_size(ranges, wanted, size)[k];
                &&& c.sample_format.spec_sample_size() == size
                &&& c.sample_format.spec_is_int()
                &&& c.channels == wanted.channels
                &&& c.sample_rate == wanted.sample_rate
            },
    decreases ranges.len(),
{
    if ranges.len() > 0 {
        lemma_of_size(ranges.drop_last(), wanted, size);
    }
}

proof fn lemma_none_of_size(ranges: Seq<InputConfigRange>, wanted: config::Recorder, size: usize)
    requires
        forall|k: int|
            0 <= k < ranges.len() ==> !((#[trigger] ranges[k]).supports(wanted)
                && ranges[k].sample_format.spec_sample_size() == size),
    ensures
        supported_of_size(ranges, wanted, size).len() == 0,
    decreases ranges.len(),
{
    if ranges.len() > 0 {
        assert forall|k: int| 0 <= k < ranges.drop_last().len() implies !((
        #[trigger] ranges.drop_last()[k]).supports(wanted)
            && ranges.drop_last()[k].sample_format.spec_sample_size() == size) by {
            assert(ranges.drop_last()[k] == ranges[k]);
        }
        lemma_none_of_size(ranges.drop_last(), wanted, size);
        assert(!(ranges[ranges.len() - 1].supports(wanted) && ranges[ranges.len()
            - 1].sample_format.spec_sample_size() == size));
    }
}

proof fn lemma_first_of_size(
    ranges: Seq<InputConfigRange>,
    wanted: config::Recorder,
    size: usize,
    first: int,
)
    requires
        0 <= first < ranges.len(),
        ranges[first].supports(wanted),
        ranges[first].sample_format.spec_sample_size() == size,
        forall|k: int|
            0 <= k < first ==> !((#[trigger] ranges[k]).supports(wanted)
                && ranges[k].sample_format.spec_sample_size() == size),
    ensures
        supported_of_size(ranges, wanted, size).len() > 0,
        supported_of_size(ranges, wanted, size)[0] == ranges[first].at(wanted),
    decreases ranges.len(),
{
    let shorter = ranges.drop_last();
    if first == ranges.len() - 1 {
        assert forall|k: int| 0 <= k < shorter.len() implies !((#[trigger] shorter[k]).supports(
            wanted,
        ) && shorter[k].sample_format.spec_sample_size() == size) by {
            assert(shorter[k] == ranges[k]);
        }
        lemma_none_of_size(shorter, wanted, size);
    } else {
        assert(shorter[first] == ranges[first]);
        assert forall|k: int| 0 <= k < first implies !((#[trigger] shorter[k]).supports(wanted)
            && shorter[k].sample_format.spec_sample_size() == size) by {
            assert(shorter[k] == ranges[k]);
        }
        lemma_first_of_size(shorter, wanted, size, first);
    }
}

fn first_of_size(ranges: &Vec<InputConfigRange>, wanted: &config::Recorder, size: usize) -> (found:
    Option<usize>)
    ensures
        match found {
            Some(i) => i < ranges.len() && ranges[i as int].supports(*wanted)
                && ranges[i as int].sample_format.spec_sample_size() == size
                && supported_of_size(ranges@, *wanted, size).len() > 0 && supported_of_size(
                ranges@,
                *wanted,
                size,
            )[0] == ranges[i as int].at(*wanted),
            None => supported_of_size(ranges@, *wanted, size).len() == 0,
        },
{
    let mut i: usize = 0;
    while i < ranges.len()
        invariant
            i <= ranges.len(),
            forall|k: int|
                0 <= k < i ==> !((#[trigger] ranges@[k]).supports(*wanted)
                    && ranges@[k].sample_format.spec_sample_size() == size),
        decreases ranges.len() - i,
    {
        if ranges[i].check(wanted, size) {
            proof {
                lemma_first_of_size(ranges@, *wanted, size, i as int);
            }
            return Some(i);
        }
        i += 1;
    }
    proof {
        lemma_none_of_size(ranges@, *wanted, size);
    }
    None
}

/// Index of the range that yields the best configuration: the first range
/// with the widest samples among those the codec can take; `None` if there
/// is none.
pub fn select_input_config(wanted: &config::Recorder, ranges: &Vec<InputConfigRange>) -> (selected:
    Option<usize>)
    ensures
        match selected {
            Some(i) => i < ranges.len() && ranges[i as int].supports(*wanted)
                && spec_flac_supported_input_configs(ranges@, *wanted).len() > 0
                && spec_flac_supported_input_configs(ranges@, *wanted)[0] == ranges[i as int].at(
                *wanted,
            ),
            None => spec_flac_supported_input_configs(ranges@, *wanted).len() == 0,
        },
{
    if let Some(i) = first_of_size(ranges, wanted, 4) {
        return Some(i);
    }
    if let Some(i) = first_of_size(ranges, wanted, 2) {
        return Some(i);
    }
    first_of_size(ranges, wanted, 1)
}

/// Settings handed to the streaming encoder.
#[derive(Clone, Copy, Debug, PartialEq, Eq, Structural)]
pub struct EncoderSettings {
    pub channels: u32,
    pub bits_per_sample: u32,
    pub sample_rate: u32,
    pub compression_level: u32,
}

/// Optional data written into a finished recording.
pub struct RecordParams {
    /// Path of the output file.
    pub out_flac: String,
    /// Artist tag, if one is wanted.
    pub artist: Option<String>,
    /// Front cover image in JPEG format.
    pub front_cover_jpeg: Option<Vec<u8>>,
}

/// What the tag writer puts into the file once encoding has ended.
pub struct MetadataPlan {
    pub total_samples: u64,
    pub artist: Option<String>,
    pub front_cover_jpeg: Option<Vec<u8>>,
}

/// Builds the tag contents from the parameters captured at start and the
/// number of frames that reached the encoder.
pub fn metadata_plan(params: RecordParams, total_samples: u64) -> (plan: MetadataPlan)
    ensures
        plan.total_samples == total_samples,
        plan.artist == params.artist,
        plan.front_cover_jpeg == params.front_cover_jpeg,
{
    MetadataPlan {
        total_samples,
        artist: params.artist,
        front_cover_jpeg: params.front_cover_jpeg,
    }
}

/// Failures of the recorder.
#[derive(Debug)]
pub enum RecordError {
    AlreadyRecording,
    NotRecording,
    CreateFileError(String),
    EncoderInitError(String),
    BuildStreamError(String),
    CaptureFailed(String),
    ProcessSamplesFailed(String),
    StreamError(String),
    StreamClosed,
    FinishEncodingFailed(String),
    EmbedMetadataError(String),
    ProcessingTerminated,
    MultipleErrors(Vec<RecordError>),
}

impl RecordError {
    /// The individual failures an error stands for.
    pub open spec fn parts(self) -> Seq<RecordError> {
        match self {
            RecordError::MultipleErrors(errors) => errors@,
            other => seq![other],
        }
    }

    /// Returns `error` if `result` is `Ok`; otherwise a composite that holds
    /// the earlier failure(s) followed by `error`.
    pub fn new_or_append(result: Result<(), RecordError>, error: RecordError) -> (combined: RecordError)
        ensures
            result.is_ok() ==> combined == error,
            result.is_err() ==> combined.is_composite() && combined.parts() == result.unwrap_err().parts().push(
                error,
            ),
    {
        match result {
            Ok(_) => error,
            Err(RecordError::MultipleErrors(mut errors)) => {
                errors.push(error);
                RecordError::MultipleErrors(errors)
            },
            Err(first) => {
                let mut errors: Vec<RecordError> = Vec::new();
                errors.push(first);
                errors.push(error);
                proof {
                    assert(errors@ == seq![first].push(error));
                }
                RecordError::MultipleErrors(errors)
            },
        }
    }

    pub open spec fn is_composite(self) -> bool {
        self is MultipleErrors
    }
}


/// What the capture worker reports to the caller.
#[derive(Debug)]
pub enum StatusMessage {
    Error(RecordError),
    /// Capturing has begun.
    Initialized,
    Finished,
}

/// How the worker's preparation ended.
#[derive(Debug)]
pub enum Preparation {
    /// The encoder could not be allocated.
    EncoderNotAllocated,
    /// The encoder refused its settings; the state it reported.
    EncoderInitFailed(String),
    /// The input stream could not be built.
    BuildStreamFailed(String),
    /// The input stream could not be started.
    CaptureFailed(String),
    /// Samples are flowing.
    Ready,
}

/// The worker's reaction to the end of its preparation.
#[derive(Debug)]
pub struct PreparationReport {
    /// Message for the caller who waits in `start`.
    pub status: StatusMessage,
    /// Whether the partially created output file is deleted.
    pub remove_output: bool,
}

/// Turns the outcome of the preparation into the status for the caller. A
/// failure before any sample was processed deletes the output file.
pub fn report_preparation(outcome: Preparation) -> (report: PreparationReport)
    ensures
        report.remove_output == !(outcome is Ready),
        outcome is Ready ==> report.status is Initialized,
        outcome is EncoderNotAllocated ==> (report.status matches StatusMessage::Error(
            RecordError::EncoderInitError(m),
        ) && m@ == "could not be allocated"@),
        outcome matches Preparation::EncoderInitFailed(state) ==> (report.status
            matches StatusMessage::Error(RecordError::EncoderInitError(m)) && m@
            == "initialization failed ("@ + state@ + ")"@),
        outcome matches Preparation::BuildStreamFailed(e) ==> report.status
            == StatusMessage::Error(RecordError::BuildStreamError(e)),
        outcome matches Preparation::CaptureFailed(e) ==> report.status == StatusMessage::Error(
            RecordError::CaptureFailed(e),
        ),
{
    match outcome {
        Preparation::Ready => PreparationReport {
            status: StatusMessage::Initialized,
            remove_output: false,
        },
        Preparation::EncoderNotAllocated => PreparationReport {
            status: StatusMessage::Error(
                RecordError::EncoderInitError(String::from_str("could not be allocated")),
            ),
            remove_output: true,
        },
        Preparation::EncoderInitFailed(state) => {
            let mut message = String::from_str("initialization failed (");
            message.append(state.as_str());
            message.append(")");
            PreparationReport {
                status: StatusMessage::Error(RecordError::EncoderInitError(message)),
                remove_output: true,
            }
        },
        Preparation::BuildStreamFailed(e) => PreparationReport {
            status: StatusMessage::Error(RecordError::BuildStreamError(e)),
            remove_output: true,
        },
        Preparation::CaptureFailed(e) => PreparationReport {
            status: StatusMessage::Error(RecordError::CaptureFailed(e)),
            remove_output: true,
        },
    }
}

/// Bookkeeping of the capture side: the selected input configuration and
/// whether a recording is in progress.
#[derive(Debug)]
pub struct Recorder {
    stream_config: InputConfig,
    flac_compression_level: u32,
    recording: bool,
}

/// Why a recorder could not be set up.
#[derive(Clone, Copy, Debug, PartialEq, Eq, Structural)]
pub enum RecorderInitError {
    /// The device offers no configuration the codec can take.
    NoSupportedFormat,
}

impl Recorder {
    pub closed spec fn stream_config(&self) -> InputConfig {
        self.stream_config
    }

    pub closed spec fn compression_level(&self) -> u32 {
        self.flac_compression_level
    }

    /// A recording is in progress.
    pub closed spec fn recording(&self) -> bool {
        self.recording
    }

    /// Selects the best input configuration among those the device reports:
    /// the first one with the widest samples that the codec can take.
    pub fn new(wanted: &config::Recorder, ranges: &Vec<InputConfigRange>) -> (result: Result<
        Recorder,
        RecorderInitError,
    >)
        ensures
            spec_flac_supported_input_configs(ranges@, *wanted).len() == 0 ==> result == Err::<
                Recorder,
                RecorderInitError,
            >(RecorderInitError::NoSupportedFormat),
            spec_flac_supported_input_configs(ranges@, *wanted).len() > 0 ==> result.is_ok() && {
                let recorder = result.unwrap();
                &&& recorder.stream_config() == spec_flac_supported_input_configs(
                    ranges@,
                    *wanted,
                )[0]
                &&& recorder.compression_level() == wanted.flac_compression_level
                &&& !recorder.recording()
            },
    {
        let configs = flac_supported_input_configs(wanted, ranges);
        if configs.len() > 0 {
            Ok(
                Recorder {
                    stream_config: configs[0],
                    flac_compression_level: wanted.flac_compression_level,
                    recording: false,
                },
            )
        } else {
            Err(RecorderInitError::NoSupportedFormat)
        }
    }

    /// The selected input configuration.
    pub fn input_config(&self) -> (config: InputConfig)
        ensures
            config == self.stream_config(),
    {
        self.stream_config
    }

    /// Whether a recording is in progress.
    pub fn is_recording(&self) -> (yes: bool)
        ensures
            yes == self.recording(),
    {
        self.recording
    }

    pub open spec fn spec_encoder_settings(&self) -> EncoderSettings {
        EncoderSettings {
            channels: self.stream_config().channels as u32,
            bits_per_sample: (self.stream_config().sample_format.spec_sample_size() * 8) as u32,
            sample_rate: self.stream_config().sample_rate,
            compression_level: self.compression_level(),
        }
    }

    /// Gate of a start request. While a recording is in progress the request
    /// fails before anything is touched; otherwise the encoder settings for
    /// the new session are returned.
    pub fn start(&self) -> (result: Result<EncoderSettings, RecordError>)
        ensures
            self.recording() ==> result is Err && result.unwrap_err() is AlreadyRecording,
            !self.recording() ==> result == Ok::<EncoderSettings, RecordError>(
                self.spec_encoder_settings(),
            ),
    {
        if self.recording {
            return Err(RecordError::AlreadyRecording);
        }
        let size: usize = self.stream_config.sample_format.sample_size();
        Ok(
            EncoderSettings {
                channels: self.stream_config.channels as u32,
                bits_per_sample: (size * 8) as u32,
                sample_rate: self.stream_config.sample_rate,
                compression_level: self.flac_compression_level,
            },
        )
    }

    /// Settles a start request with the first message of the worker, `None`
    /// if the worker ended without one. Only `Initialized` begins a
    /// recording.
    pub fn started(&mut self, status: Option<StatusMessage>) -> (result: Result<(), RecordError>)
        requires
            !old(self).recording(),
            !(status matches Some(StatusMessage::Finished)),
        ensures
            final(self).stream_config() == old(self).stream_config(),
            final(self).compression_level() == old(self).compression_level(),
            final(self).recording() == (status matches Some(StatusMessage::Initialized)),
            result == spec_started(status),
    {
        match status {
            Some(StatusMessage::Error(e)) => Err(e),
            Some(StatusMessage::Initialized) => {
                self.recording = true;
                Ok(())
            },
            Some(StatusMessage::Finished) => Ok(()),
            None => Err(RecordError::ProcessingTerminated),
        }
    }

    /// Gate of a stop request: fails when idle, otherwise the recorder turns
    /// idle and the caller raises the stop flag and waits for the worker.
    pub fn stop(&mut self) -> (result: Result<(), RecordError>)
        ensures
            final(self).stream_config() == old(self).stream_config(),
            final(self).compression_level() == old(self).compression_level(),
            !final(self).recording(),
            old(self).recording() ==> result is Ok,
            !old(self).recording() ==> result is Err && result.unwrap_err() is NotRecording,
    {
        if self.recording {
            self.recording = false;
            Ok(())
        } else {
            Err(RecordError::NotRecording)
        }
    }
}

pub open spec fn spec_started(status: Option<StatusMessage>) -> Result<(), RecordError> {
    match status {
        Some(StatusMessage::Error(e)) => Err(e),
        Some(_) => Ok(()),
        None => Err(RecordError::ProcessingTerminated),
    }
}

/// Settles a stop request with the last message of the worker, `None` if the
/// worker ended without one.
pub fn stopped(status: Option<StatusMessage>) -> (result: Result<(), RecordError>)
    requires
        !(status matches Some(StatusMessage::Initialized)),
    ensures
        result == spec_started(status),
{
    match status {
        Some(StatusMessage::Error(e)) => Err(e),
        Some(_) => Ok(()),
        None => Err(RecordError::ProcessingTerminated),
    }
}

/// What the capture loop received while it waited for samples.
#[derive(Debug)]
pub enum Received {
    /// An interleaved buffer of this many samples; `encoded` tells whether
    /// the encoder took it, and `state` is the encoder's state if it did not.
    Samples { len: usize, encoded: bool, state: String },
    /// The input stream reported an error.
    StreamError(String),
    /// The input stream is gone.
    Disconnected,
    /// Nothing arrived within the wait.
    Timeout,
}

/// State of the capture loop.
#[derive(Debug)]
pub struct ProcessingLoop {
    channels: u16,
    total_samples_per_channel: u64,
}

/// Number of frames in an interleaved buffer.
pub open spec fn frames_in(len: usize, channels: u16) -> int
    recommends
        channels > 0,
{
    len as int / channels as int
}

impl ProcessingLoop {
    pub closed spec fn channels(&self) -> u16 {
        self.channels
    }

    /// Frames handed to the encoder so far.
    pub closed spec fn total(&self) -> u64 {
        self.total_samples_per_channel
    }

    pub fn new(channels: u16) -> (state: Self)
        requires
            channels > 0,
        ensures
            state.channels() == channels,
            state.total() == 0,
    {
        ProcessingLoop { channels, total_samples_per_channel: 0 }
    }

    /// Frames handed to the encoder so far.
    pub fn total_samples_per_channel(&self) -> (total: u64)
        ensures
            total == self.total(),
    {
        self.total_samples_per_channel
    }

    /// Number of frames in a buffer of `len` interleaved samples.
    pub fn samples_per_channel(&self, len: usize) -> (frames: usize)
        requires
            self.channels() > 0,
        ensures
            frames == frames_in(len, self.channels()),
    {
        len / (self.channels as usize)
    }

    /// Whether the loop ends before it waits again: a stop request or a
    /// shutdown ends it.
    pub fn should_stop(stop_requested: bool, shutting_down: bool) -> (stop: bool)
        ensures
            stop == (stop_requested || shutting_down),
    {
        stop_requested || shutting_down
    }

    /// Accounts for what the loop received. `None` lets the loop go on;
    /// `Some(error)` ends it with that error. Only buffers the encoder took
    /// are counted.
    pub fn on_received(&mut self, received: Received) -> (end: Option<RecordError>)
        requires
            old(self).channels() > 0,
            received matches Received::Samples { len, encoded, .. } ==> !encoded || old(
                self,
            ).total() + frames_in(len, old(self).channels()) <= u64::MAX,
        ensures
            final(self).channels() == old(self).channels(),
            final(self).total() == old(self).total() + counted_frames(
                received,
                old(self).channels(),
            ),
            end == loop_end(received),
    {
        match received {
            Received::Samples { len, encoded, state } => {
                if encoded {
                    let frames: usize = len / (self.channels as usize);
                    self.total_samples_per_channel = self.total_samples_per_channel + (
                    frames as u64);
                    None
                } else {
                    Some(RecordError::ProcessSamplesFailed(state))
                }
            },
            Received::StreamError(e) => Some(RecordError::StreamError(e)),
            Received::Disconnected => Some(RecordError::StreamClosed),
            Received::Timeout => None,
        }
    }
}

/// Frames that one reception adds to the total.
pub open spec fn counted_frames(received: Received, channels: u16) -> int {
    match received {
        Received::Samples { len, encoded, .. } => if encoded {
            frames_in(len, channels)
        } else {
            0
        },
        _ => 0,
    }
}

/// Frames that a run of receptions adds to the total.
pub open spec fn frames_counted(receptions: Seq<Received>, channels: u16) -> int
    decreases receptions.len(),
{
    if receptions.len() == 0 {
        0
    } else {
        frames_counted(receptions.drop_last(), channels) + counted_frames(
            receptions.last(),
            channels,
        )
    }
}

/// Samples in the buffers of a run of receptions that the encoder took.
pub open spec fn samples_encoded(receptions: Seq<Received>) -> int
    decreases receptions.len(),
{
    if receptions.len() == 0 {
        0
    } else {
        samples_encoded(receptions.drop_last()) + match receptions.last() {
            Received::Samples { len, encoded, .. } => if encoded {
                len as int
            } else {
                0
            },
            _ => 0,
        }
    }
}

/// Every buffer is made of whole frames.
pub open spec fn whole_frames(receptions: Seq<Received>, channels: u16) -> bool {
    forall|i: int|
        0 <= i < receptions.len() ==> (#[trigger] receptions[i] matches Received::Samples {
            len,
            ..
        } ==> len as int % channels as int == 0)
}

/// Over any run of receptions whose buffers are made of whole frames, the
/// frames counted are the samples that the encoder took, divided by the
/// number of channels: the frames pushed, not the samples, and nothing for a
/// buffer that the encoder refused.
pub proof fn lemma_frames_counted(receptions: Seq<Received>, channels: u16)
    requires
        channels > 0,
        whole_frames(receptions, channels),
    ensures
        frames_counted(receptions, channels) * channels == samples_encoded(receptions),
        frames_counted(receptions, channels) == samples_encoded(receptions) / channels as int,
        frames_counted(receptions, channels) >= 0,
    decreases receptions.len(),
{
    if receptions.len() > 0 {
        let shorter = receptions.drop_last();
        assert forall|i: int| 0 <= i < shorter.len() implies (#[trigger] shorter[i]
            matches Received::Samples { len, .. } ==> len as int % channels as int == 0) by {
            assert(shorter[i] == receptions[i]);
        }
        lemma_frames_counted(shorter, channels);
        let last = receptions[receptions.len() - 1];
        let c = channels as int;
        let f = frames_counted(shorter, channels);
        match last {
            Received::Samples { len, encoded, .. } => {
                let l = len as int;
                assert(l % c == 0);
                assert(l == c * (l / c) + l % c) by (nonlinear_arith)
                    requires
                        c > 0,
                ;
                if encoded {
                    assert((f + l / c) * c == f * c + (l / c) * c) by (nonlinear_arith);
                    assert(l / c >= 0) by (nonlinear_arith)
                        requires
                            l >= 0,
                            c > 0,
                    ;
                }
            },
            _ => {},
        }
        let total = frames_counted(receptions, channels);
        assert(total * c == samples_encoded(receptions));
        assert(total == (total * c) / c) by (nonlinear_arith)
            requires
                c > 0,
        ;
    } else {
        assert(0int / (channels as int) == 0);
    }
}

/// The error, if any, with which one reception ends the loop.
pub open spec fn loop_end(received: Received) -> Option<RecordError> {
    match received {
        Received::Samples { encoded, state, .. } => if encoded {
            None
        } else {
            Some(RecordError::ProcessSamplesFailed(state))
        },
        Received::StreamError(e) => Some(RecordError::StreamError(e)),
        Received::Disconnected => Some(RecordError::StreamClosed),
        Received::Timeout => None,
    }
}

/// The failures a result carries, in order; none for `Ok`.
pub open spec fn failures(result: Result<(), RecordError>) -> Seq<RecordError> {
    match result {
        Ok(_) => Seq::empty(),
        Err(e) => e.parts(),
    }
}

pub open spec fn optional_failure(failure: Option<RecordError>) -> Seq<RecordError> {
    match failure {
        Some(e) => seq![e],
        None => Seq::empty(),
    }
}

/// Result of a capture session once the loop has ended. The encoder is
/// always finished and the tags are always written; a failure of either step
/// is added to what the loop reported, and nothing already reported is lost.
pub fn finish_processing(
    loop_result: Result<(), RecordError>,
    finish_failure: Option<String>,
    embed_failure: Option<String>,
) -> (result: Result<(), RecordError>)
    ensures
        result is Ok <==> loop_result is Ok && finish_failure is None && embed_failure is None,
        finish_failure is None && embed_failure is None ==> result == loop_result,
        !(finish_failure is None && embed_failure is None) ==> failures(result) == failures(
            loop_result,
        ) + optional_failure(
            match finish_failure {
                Some(state) => Some(RecordError::FinishEncodingFailed(state)),
                None => None,
            },
        ) + optional_failure(
            match embed_failure {
                Some(e) => Some(RecordError::EmbedMetadataError(e)),
                None => None,
            },
        ),
        (loop_result is Err || finish_failure is Some) && (finish_failure is Some
            || embed_failure is Some) && (loop_result is Err || embed_failure is Some)
            ==> result is Err && result.unwrap_err().is_composite(),
        loop_result is Ok && finish_failure is Some && embed_failure is None ==> result == Err::<
            (),
            RecordError,
        >(RecordError::FinishEncodingFailed(finish_failure->Some_0)),
        loop_result is Ok && finish_failure is None && embed_failure is Some ==> result == Err::<
            (),
            RecordError,
        >(RecordError::EmbedMetadataError(embed_failure->Some_0)),
{
    let mut result = loop_result;
    if let Some(state) = finish_failure {
        let error = RecordError::FinishEncodingFailed(state);
        result = Err(RecordError::new_or_append(result, error));
    }
    if let Some(e) = embed_failure {
        let error = RecordError::EmbedMetadataError(e);
        result = Err(RecordError::new_or_append(result, error));
    }
    result
}


/// The message of an error that is no composite.
pub open spec fn simple_message(error: RecordError) -> Seq<char> {
    match error {
        RecordError::AlreadyRecording => "Already recording"@,
        RecordError::NotRecording => "Recorder has not been started"@,
        RecordError::CreateFileError(e) => "Unable to create a new output file ("@ + e@ + ")"@,
        RecordError::EncoderInitError(e) => "Failed to prepare the FLAC encoder: "@ + e@,
        RecordError::BuildStreamError(e) => "Unable to build an input stream ("@ + e@ + ")"@,
        RecordError::CaptureFailed(e) => "Unable to start capturing ("@ + e@ + ")"@,
        RecordError::ProcessSamplesFailed(e) => "An error occurred trying to process the samples ("@
            + e@ + ")"@,
        RecordError::StreamError(e) => "Error occurred in the input stream ("@ + e@ + ")"@,
        RecordError::StreamClosed => "Input stream closed"@,
        RecordError::FinishEncodingFailed(e) => "Unable to finish the encoding ("@ + e@ + ")"@,
        RecordError::EmbedMetadataError(e) => "Failed to embed metadata ("@ + e@ + ")"@,
        RecordError::ProcessingTerminated => "Processing thread is closed"@,
        RecordError::MultipleErrors(_) => Seq::empty(),
    }
}

/// The messages of the first `count` parts of a composite, separated by
/// "; ".
pub open spec fn joined_messages(error: RecordError, count: nat) -> Seq<char>
    decreases error, count,
{
    match error {
        RecordError::MultipleErrors(errors) => if count == 0 || count > errors.len() {
            Seq::empty()
        } else if count == 1 {
            spec_message(errors[0])
        } else {
            joined_messages(error, (count - 1) as nat) + "; "@ + spec_message(errors[count - 1])
        },
        _ => Seq::empty(),
    }
}

/// Number of parts of a composite; none for any other error.
pub open spec fn parts_count(error: RecordError) -> nat {
    match error {
        RecordError::MultipleErrors(errors) => errors.len() as nat,
        _ => 0,
    }
}

/// The message of an error; a composite lists the messages of its parts.
pub open spec fn spec_message(error: RecordError) -> Seq<char>
    decreases error, parts_count(error) + 1,
{
    match error {
        RecordError::MultipleErrors(errors) => joined_messages(error, errors.len() as nat),
        other => simple_message(other),
    }
}

impl RecordError {
    fn wrap(head: &str, detail: &str, tail: &str) -> (text: String)
        ensures
            text@ == head@ + detail@ + tail@,
    {
        let mut text = String::from_str(head);
        text.append(detail);
        text.append(tail);
        text
    }

    /// Describes the error.
    pub fn message(&self) -> (text: String)
        ensures
            text@ == spec_message(*self),
        decreases self, parts_count(*self) + 1,
    {
        match self {
            RecordError::AlreadyRecording => String::from_str("Already recording"),
            RecordError::NotRecording => String::from_str("Recorder has not been started"),
            RecordError::CreateFileError(e) => Self::wrap(
                "Unable to create a new output file (",
                e.as_str(),
                ")",
            ),
            RecordError::EncoderInitError(e) => {
                let mut text = String::from_str("Failed to prepare the FLAC encoder: ");
                text.append(e.as_str());
                text
            },
            RecordError::BuildStreamError(e) => Self::wrap(
                "Unable to build an input stream (",
                e.as_str(),
                ")",
            ),
            RecordError::CaptureFailed(e) => Self::wrap("Unable to start capturing (", e.as_str(), ")"),
            RecordError::ProcessSamplesFailed(e) => Self::wrap(
                "An error occurred trying to process the samples (",
                e.as_str(),
                ")",
            ),
            RecordError::StreamError(e) => Self::wrap(
                "Error occurred in the input stream (",
                e.as_str(),
                ")",
            ),
            RecordError::StreamClosed => String::from_str("Input stream closed"),
            RecordError::FinishEncodingFailed(e) => Self::wrap(
                "Unable to finish the encoding (",
                e.as_str(),
                ")",
            ),
            RecordError::EmbedMetadataError(e) => Self::wrap(
                "Failed to embed metadata (",
                e.as_str(),
                ")",
            ),
            RecordError::ProcessingTerminated => String::from_str("Processing thread is closed"),
            RecordError::MultipleErrors(errors) => Self::join_parts(self, errors, errors.len()),
        }
    }

    fn join_parts(whole: &RecordError, errors: &Vec<RecordError>, count: usize) -> (text: String)
        requires
            *whole == RecordError::MultipleErrors(*errors),
            count <= errors.len(),
        ensures
            text@ == joined_messages(*whole, count as nat),
        decreases whole, count,
    {
        if count == 0 {
            return String::new();
        }
        let mut text = Self::join_parts(whole, errors, count - 1);
        if count > 1 {
            text.append("; ");
        }
        let part = errors[count - 1].message();
        text.append(part.as_str());
        text
    }
}

} // verus!
