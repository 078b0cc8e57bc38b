//! Audio-capture lifecycle: the recording state machine and its sample
//! buffer.
//!
//! A `Recorder` is either stopped or started. Starting begins
//! callback-driven capture into a fresh buffer; stopping yields the
//! accumulated samples and returns the recorder to the stopped state.
//! The audio subsystem itself (device enumeration, stream construction,
//! the callback thread) is an external collaborator: the unverified
//! driver performs those calls and reports their outcome, while every
//! state transition and every sample handed over is accounted for here.
//!
//! A sample is carried as the raw 32 bits of its single-precision value.
//! The capture logic never reads a sample; it only counts, orders and
//! hands them over, so the bit pattern is all it needs to own.

use vstd::prelude::*;

verus! {

/// Channel count asked of every input stream: mono.
pub const WHISPER_CHANNELS: u16 = 1;

/// Sample rate asked of every input stream, in hertz.
pub const WHISPER_SAMPLE_RATE: u32 = 16000;

/// The stream configuration the capture core asks of a device: channel
/// count and sample rate are forced to the fixed values above; samples
/// are 32-bit floating-point, carried here as raw bits. The buffer size
/// is inherited from the device default and stays with the driver.
#[derive(Clone, Copy, PartialEq, Eq, Structural, Debug)]
pub struct StreamConfig {
    pub channels: u16,
    pub sample_rate: u32,
}

/// Errors surfaced when a capture session fails to begin. They represent
/// a failed intent, reported synchronously to the caller; once a stream
/// is playing, later stream errors are a non-fatal side channel of the
/// driver and never tear the session down.
#[derive(Clone, Copy, PartialEq, Eq, Structural, Debug)]
pub enum CaptureError {
    /// No input device matches the requested name, or the host has no
    /// default input device.
    DeviceNotFound,
    /// The device refused to negotiate a stream at the asked
    /// configuration.
    StreamBuildError,
    /// The stream was built but could not begin playing.
    StreamPlayError,
}

/// What the driver reports after attempting to build and play an input
/// stream. The underlying subsystem's error text stays with the driver;
/// the state machine needs only which step failed.
#[derive(Clone, Copy, PartialEq, Eq, Structural, Debug)]
pub enum StreamStartOutcome {
    /// The stream was built and is delivering samples.
    Playing,
    /// Building the stream failed.
    BuildFailed,
    /// Playing the built stream failed.
    PlayFailed,
}

/// Which input device a request resolved to: the host's default input
/// device, or the device at the given index of the host's input list.
#[derive(Clone, Copy, PartialEq, Eq, Structural, Debug)]
pub enum DeviceChoice {
    DefaultInput,
    Named(usize),
}

/// The stream configuration asked of every device.
pub open spec fn whisper_stream_config() -> StreamConfig {
    StreamConfig { channels: WHISPER_CHANNELS, sample_rate: WHISPER_SAMPLE_RATE }
}

/// Resolves the requested input device against the host's input device
/// names and fixes the stream configuration at mono, 16 kHz, 32-bit
/// float samples.
///
/// `"default"` selects the host's default input device when it has one;
/// any other name selects the first input device bearing it. When no
/// device matches, the request fails with `DeviceNotFound`.
pub fn whisper_config(device: &str, input_names: &Vec<String>, has_default_input: bool) -> (r:
    Result<(DeviceChoice, StreamConfig), CaptureError>)
    ensures
        device@ == "default"@ ==> r == (if has_default_input {
            Ok::<_, CaptureError>((DeviceChoice::DefaultInput, whisper_stream_config()))
        } else {
            Err::<(DeviceChoice, StreamConfig), _>(CaptureError::DeviceNotFound)
        }),
        device@ != "default"@ ==> (match r {
            Ok(p) => p.1 == whisper_stream_config() && (p.0 matches DeviceChoice::Named(i)
                && i < input_names@.len() && input_names@[i as int]@ == device@ && (forall|j: int|
                0 <= j < i ==> input_names@[j]@ != device@)),
            Err(e) => e == CaptureError::DeviceNotFound && (forall|j: int|
                0 <= j < input_names@.len() ==> input_names@[j]@ != device@),
        }),
{
    let config = StreamConfig { channels: WHISPER_CHANNELS, sample_rate: WHISPER_SAMPLE_RATE };
    let requested: String = device.to_owned();
    let default_name: String = "default".to_owned();
    if requested == default_name {
        if has_default_input {
            Ok((DeviceChoice::DefaultInput, config))
        } else {
            Err(CaptureError::DeviceNotFound)
        }
    } else {
        let n = input_names.len();
        for i in 0..n
            invariant
                n == input_names@.len(),
                requested@ == device@,
                device@ != "default"@,
                config == whisper_stream_config(),
                forall|j: int| 0 <= j < i ==> input_names@[j]@ != device@,
        {
            let name: &String = &input_names[i];
            if *name == requested {
                return Ok((DeviceChoice::Named(i), config));
            }
        }
        Err(CaptureError::DeviceNotFound)
    }
}

/// A growable container of audio samples, appended to by the capture
/// callback and drained by the owning session on stop. The callback's
/// append is a short, bounded step: no inference work and no blocking
/// belongs on this path.
pub struct SampleBuffer {
    samples: Vec<u32>,
}

impl View for SampleBuffer {
    type V = Seq<u32>;

    closed spec fn view(&self) -> Seq<u32> {
        self.samples@
    }
}

impl SampleBuffer {
    /// An empty buffer.
    pub fn new() -> (b: SampleBuffer)
        ensures
            b@ == Seq::<u32>::empty(),
    {
        SampleBuffer { samples: Vec::new() }
    }

    /// How many samples the buffer holds.
    pub fn len(&self) -> (n: usize)
        ensures
            n == self@.len(),
    {
        self.samples.len()
    }

    /// Appends one delivery of samples, in order, after what is already
    /// held.
    pub fn append(&mut self, chunk: &Vec<u32>)
        ensures
            final(self)@ == old(self)@ + chunk@,
    {
        let n = chunk.len();
        for i in 0..n
            invariant
                n == chunk@.len(),
                self@ =~= old(self)@ + chunk@.take(i as int),
        {
            self.samples.push(chunk[i]);
            proof {
                assert(old(self)@ + chunk@.take(i + 1) =~= (old(self)@ + chunk@.take(i as int)).push(
                    chunk@[i as int]));
            }
        }
        proof {
            assert(old(self)@ + chunk@.take(n as int) =~= old(self)@ + chunk@);
        }
    }

    /// Takes every held sample out, leaving the buffer empty.
    pub fn take(&mut self) -> (out: Vec<u32>)
        ensures
            out@ == old(self)@,
            final(self)@ == Seq::<u32>::empty(),
    {
        let mut drained: Vec<u32> = Vec::new();
        core::mem::swap(&mut self.samples, &mut drained);
        drained
    }
}

/// The abstract state of a recorder: whether it is stopped, which device
/// and configuration it was built over, and the samples captured so far.
#[verifier::ext_equal]
pub struct RecorderView {
    pub stopped: bool,
    pub device: Seq<char>,
    pub config: StreamConfig,
    pub samples: Seq<u32>,
}

impl RecorderView {
    /// Stopped-to-started transition: capture begins over a fresh,
    /// empty buffer.
    pub open spec fn after_start(self) -> RecorderView {
        RecorderView { stopped: false, samples: Seq::<u32>::empty(), ..self }
    }

    /// One delivery of samples from the device callback.
    pub open spec fn after_feed(self, chunk: Seq<u32>) -> RecorderView {
        RecorderView { samples: self.samples + chunk, ..self }
    }

    /// Started-to-stopped transition: the buffer is handed off, so a
    /// later start begins from an empty one.
    pub open spec fn after_stop(self) -> RecorderView {
        RecorderView { stopped: true, samples: Seq::<u32>::empty(), ..self }
    }
}

/// The capture session: a two-state machine owning a device identifier,
/// a stream configuration and a sample buffer.
///
/// The live stream handle stays with the unverified driver, which builds
/// and plays the stream, reports the outcome to `start`, feeds each
/// callback delivery through `feed`, and tears the stream down before
/// `stop` returns so that no callback fires afterwards.
pub struct Recorder {
    device: String,
    config: StreamConfig,
    buffer: SampleBuffer,
    started: bool,
}

impl View for Recorder {
    type V = RecorderView;

    closed spec fn view(&self) -> RecorderView {
        RecorderView {
            stopped: !self.started,
            device: self.device@,
            config: self.config,
            samples: self.buffer@,
        }
    }
}

impl Recorder {
    /// A stopped recorder over the given device name and configuration,
    /// holding no samples.
    pub fn new(device: String, config: StreamConfig) -> (r: Recorder)
        ensures
            r@ =~= (RecorderView {
                stopped: true,
                device: device@,
                config: config,
                samples: Seq::<u32>::empty(),
            }),
    {
        Recorder { device, config, buffer: SampleBuffer::new(), started: false }
    }

    /// True exactly when no capture is in progress.
    pub fn is_stopped(&self) -> (b: bool)
        ensures
            b == self@.stopped,
    {
        !self.started
    }

    /// Which device the session was built over.
    pub fn device(&self) -> (d: &String)
        ensures
            d@ == self@.device,
    {
        &self.device
    }

    /// The configuration every stream of this session is built at.
    pub fn config(&self) -> (c: StreamConfig)
        ensures
            c == self@.config,
    {
        self.config
    }

    /// Begins capture, given the driver's report on building and playing
    /// the input stream. On `Playing` the session is started over a
    /// fresh buffer; on a failed outcome the corresponding error is
    /// returned and the session remains stopped, unchanged.
    ///
    /// Starting while already started is a contract violation (a caller
    /// bug), excluded here rather than recovered from.
    pub fn start(&mut self, outcome: StreamStartOutcome) -> (r: Result<(), CaptureError>)
        requires
            old(self)@.stopped,
        ensures
            outcome == StreamStartOutcome::Playing ==> r == Ok::<(), CaptureError>(())
                && final(self)@ =~= old(self)@.after_start(),
            outcome == StreamStartOutcome::BuildFailed ==> r == Err::<(), CaptureError>(
                CaptureError::StreamBuildError,
            ) && final(self)@ =~= old(self)@,
            outcome == StreamStartOutcome::PlayFailed ==> r == Err::<(), CaptureError>(
                CaptureError::StreamPlayError,
            ) && final(self)@ =~= old(self)@,
    {
        match outcome {
            StreamStartOutcome::Playing => {
                self.buffer = SampleBuffer::new();
                self.started = true;
                Ok(())
            },
            StreamStartOutcome::BuildFailed => Err(CaptureError::StreamBuildError),
            StreamStartOutcome::PlayFailed => Err(CaptureError::StreamPlayError),
        }
    }

    /// Appends one callback delivery to the session's buffer. Valid only
    /// while started: the driver tears the stream down before `stop`
    /// returns, so no delivery arrives on a stopped session.
    pub fn feed(&mut self, chunk: &Vec<u32>)
        requires
            !old(self)@.stopped,
        ensures
            final(self)@ =~= old(self)@.after_feed(chunk@),
    {
        self.buffer.append(chunk);
    }

    /// Ends capture and yields every sample captured since `start`, in
    /// delivery order. The buffer is left empty and the session stopped.
    ///
    /// Stopping while already stopped is a contract violation (a caller
    /// bug), excluded here rather than turned into a silent no-op.
    pub fn stop(&mut self) -> (out: Vec<u32>)
        requires
            !old(self)@.stopped,
        ensures
            final(self)@ =~= old(self)@.after_stop(),
            out@ == old(self)@.samples,
    {
        self.started = false;
        self.buffer.take()
    }
}

/// The recorder state after a whole run of callback deliveries, in
/// order.
pub open spec fn after_feeds(r: RecorderView, chunks: Seq<Seq<u32>>) -> RecorderView
    decreases chunks.len(),
{
    if chunks.len() == 0 {
        r
    } else {
        after_feeds(r.after_feed(chunks.first()), chunks.drop_first())
    }
}

/// How many samples a run of deliveries carries in all.
pub open spec fn total_samples(chunks: Seq<Seq<u32>>) -> nat
    decreases chunks.len(),
{
    if chunks.len() == 0 {
        0
    } else {
        chunks.first().len() + total_samples(chunks.drop_first())
    }
}

proof fn lemma_after_feeds(r: RecorderView, chunks: Seq<Seq<u32>>)
    ensures
        after_feeds(r, chunks).samples =~= r.samples + chunks.flatten(),
        after_feeds(r, chunks).stopped == r.stopped,
        after_feeds(r, chunks).device == r.device,
        after_feeds(r, chunks).config == r.config,
    decreases chunks.len(),
{
    if chunks.len() == 0 {
        assert(r.samples + chunks.flatten() =~= r.samples);
    } else {
        lemma_after_feeds(r.after_feed(chunks.first()), chunks.drop_first());
        assert((r.samples + chunks.first()) + chunks.drop_first().flatten() =~= r.samples + (
        chunks.first() + chunks.drop_first().flatten()));
    }
}

proof fn lemma_flatten_total(chunks: Seq<Seq<u32>>)
    ensures
        chunks.flatten().len() == total_samples(chunks),
    decreases chunks.len(),
{
    if chunks.len() > 0 {
        lemma_flatten_total(chunks.drop_first());
    }
}

/// Law: over any round of `start` then `stop`, the session yields
/// exactly the samples the device delivered in between, in order — one
/// sample per sample delivered, so at the fixed 16 kHz rate the yield
/// grows with elapsed capture time. The yield is a whole sequence, never
/// absent, and its length is the total of the deliveries. The session is
/// started strictly between the two calls and stopped after the round,
/// holding nothing.
pub proof fn lemma_capture_round(r: RecorderView, chunks: Seq<Seq<u32>>)
    requires
        r.stopped,
    ensures
        ({
            let running = after_feeds(r.after_start(), chunks);
            &&& !running.stopped
            &&& running.samples =~= chunks.flatten()
            &&& running.samples.len() == total_samples(chunks)
            &&& running.after_stop().stopped
            &&& running.after_stop().samples =~= Seq::<u32>::empty()
        }),
{
    lemma_after_feeds(r.after_start(), chunks);
    lemma_flatten_total(chunks);
    assert(after_feeds(r.after_start(), chunks).samples =~= chunks.flatten());
}

} // verus!
