use vstd::prelude::*;
use crate::error::AudioError;

verus! {

/// Longest session, in seconds of audio, before the capture path stops itself.
pub const MAX_RECORD_SECONDS: u64 = 30;

/// Rate a fresh state reports before any session has been negotiated.
pub const DEFAULT_SAMPLE_RATE: u32 = 48000;

/// Channel count a fresh state reports before any session has been negotiated.
pub const DEFAULT_CHANNELS: u16 = 1;

/// The device sample formats a session accepts; each is normalised to
/// floating point before it reaches the buffer.
#[derive(Clone, Copy, Debug, PartialEq, Eq, Structural)]
pub enum CaptureFormat {
    F32,
    I16,
    U16,
}

/// What one delivery of samples did to the session.
#[derive(Clone, Copy, Debug, PartialEq, Eq, Structural)]
pub enum BatchOutcome {
    /// No session was recording: the batch was dropped.
    Ignored,
    /// The whole batch was stored.
    Appended,
    /// The batch reached the duration cap: what fitted was stored and the
    /// session stopped itself.
    AutoStopped,
}

/// Number of samples a session of the given shape may hold.
pub open spec fn capacity_of(sample_rate: u32, channels: u16) -> nat {
    sample_rate as nat * channels as nat * MAX_RECORD_SECONDS as nat
}

/// The abstract state of a capture session.
pub struct CaptureModel<S> {
    /// Whether batches from the device are being stored.
    pub recording: bool,
    /// The samples stored since the session began, interleaved by channel.
    pub samples: Seq<S>,
    /// The shape negotiated with the device when the session began.
    pub sample_rate: u32,
    pub channels: u16,
    /// When the session began, in milliseconds on the caller's clock; cleared
    /// when it ends.
    pub started_at: Option<u64>,
    /// Whether the session ended by reaching the duration cap.
    pub auto_stopped: bool,
}

impl<S> CaptureModel<S> {
    /// The duration cap of the current session shape.
    pub open spec fn capacity(self) -> nat {
        capacity_of(self.sample_rate, self.channels)
    }

    /// The buffer never holds more than the cap, and a session that stopped
    /// itself is no longer recording.
    pub open spec fn valid(self) -> bool {
        &&& self.samples.len() <= self.capacity()
        &&& (self.auto_stopped ==> !self.recording)
    }
}

/// The state of a process before any session.
pub open spec fn initial_model<S>() -> CaptureModel<S> {
    CaptureModel {
        recording: false,
        samples: Seq::empty(),
        sample_rate: DEFAULT_SAMPLE_RATE,
        channels: DEFAULT_CHANNELS,
        started_at: None,
        auto_stopped: false,
    }
}

/// Starting a session: refused while one records or when the device format is
/// not one of the accepted ones; otherwise the negotiated shape is stored, the
/// buffer emptied and recording begins.
pub open spec fn begin_step<S>(
    m: CaptureModel<S>,
    sample_rate: u32,
    channels: u16,
    format: Option<CaptureFormat>,
    now: u64,
) -> (CaptureModel<S>, Result<CaptureFormat, AudioError>) {
    if m.recording {
        (m, Err(AudioError::AlreadyRecording))
    } else {
        match format {
            None => (m, Err(AudioError::UnsupportedFormat)),
            Some(f) => (
                CaptureModel {
                    recording: true,
                    samples: Seq::empty(),
                    sample_rate,
                    channels,
                    started_at: Some(now),
                    auto_stopped: false,
                },
                Ok(f),
            ),
        }
    }
}

/// Room left before the cap.
pub open spec fn room_left<S>(m: CaptureModel<S>) -> nat {
    if m.samples.len() <= m.capacity() {
        (m.capacity() - m.samples.len()) as nat
    } else {
        0
    }
}

/// One delivery of samples from the device.
pub open spec fn batch_step<S>(m: CaptureModel<S>, batch: Seq<S>) -> (CaptureModel<S>, BatchOutcome) {
    if !m.recording {
        (m, BatchOutcome::Ignored)
    } else if batch.len() > room_left(m) {
        (
            CaptureModel {
                recording: false,
                samples: m.samples + batch.take(room_left(m) as int),
                started_at: None,
                auto_stopped: true,
                ..m
            },
            BatchOutcome::AutoStopped,
        )
    } else {
        (CaptureModel { samples: m.samples + batch, ..m }, BatchOutcome::Appended)
    }
}

/// Ending a session by request: refused when nothing records; otherwise
/// recording stops and the buffer is handed over whole, leaving it empty.
pub open spec fn extract_step<S>(m: CaptureModel<S>) -> (CaptureModel<S>, Result<Seq<S>, AudioError>) {
    if !m.recording {
        (m, Err(AudioError::NotRecording))
    } else {
        (
            CaptureModel { recording: false, samples: Seq::empty(), started_at: None, ..m },
            Ok(m.samples),
        )
    }
}

/// A stop followed by the check that something was recorded. The state moves
/// as `extract_step` says, whether or not the recording was empty.
pub open spec fn stop_step<S>(m: CaptureModel<S>) -> (CaptureModel<S>, Result<Seq<S>, AudioError>) {
    let (next, taken) = extract_step(m);
    match taken {
        Ok(samples) => if samples.len() == 0 {
            (next, Err(AudioError::EmptyRecording))
        } else {
            (next, Ok(samples))
        },
        Err(e) => (next, Err(e)),
    }
}

/// The capture session shared by the device callback and the stop path.
pub struct CaptureState<S> {
    recording: bool,
    buffer: Vec<S>,
    sample_rate: u32,
    channels: u16,
    started_at: Option<u64>,
    auto_stopped: bool,
}

impl<S> View for CaptureState<S> {
    type V = CaptureModel<S>;

    closed spec fn view(&self) -> CaptureModel<S> {
        CaptureModel {
            recording: self.recording,
            samples: self.buffer@,
            sample_rate: self.sample_rate,
            channels: self.channels,
            started_at: self.started_at,
            auto_stopped: self.auto_stopped,
        }
    }
}

impl<S> CaptureState<S> {
    /// A state with no session, no samples and the default shape.
    pub fn new() -> (r: Self)
        ensures
            r@ == initial_model::<S>(),
    {
        CaptureState {
            recording: false,
            buffer: Vec::new(),
            sample_rate: DEFAULT_SAMPLE_RATE,
            channels: DEFAULT_CHANNELS,
            started_at: None,
            auto_stopped: false,
        }
    }

    /// The sample count at which the current session stops itself.
    pub fn capacity(&self) -> (r: u64)
        ensures
            r as nat == self@.capacity(),
    {
        let rate = self.sample_rate as u64;
        let channels = self.channels as u64;
        proof {
            assert(rate * channels <= 0xffff_ffff * 0xffff) by (nonlinear_arith)
                requires
                    rate <= 0xffff_ffff,
                    channels <= 0xffff,
            ;
            assert(rate * channels * 30 <= 0xffff_ffff * 0xffff * 30) by (nonlinear_arith)
                requires
                    rate * channels <= 0xffff_ffff * 0xffff,
            ;
        }
        rate * channels * MAX_RECORD_SECONDS
    }

    /// Begins a session with the negotiated device shape.
    pub fn begin_session(
        &mut self,
        sample_rate: u32,
        channels: u16,
        format: Option<CaptureFormat>,
        now: u64,
    ) -> (r: Result<CaptureFormat, AudioError>)
        ensures
            (final(self)@, r) == begin_step(old(self)@, sample_rate, channels, format, now),
    {
        if self.recording {
            return Err(AudioError::AlreadyRecording);
        }
        match format {
            None => Err(AudioError::UnsupportedFormat),
            Some(f) => {
                self.buffer.clear();
                self.sample_rate = sample_rate;
                self.channels = channels;
                self.started_at = Some(now);
                self.auto_stopped = false;
                self.recording = true;
                Ok(f)
            },
        }
    }

    /// Stores one delivery of normalised samples, stopping the session when
    /// the batch would take the buffer past the duration cap.
    pub fn append_batch(&mut self, batch: Vec<S>) -> (r: BatchOutcome)
        ensures
            (final(self)@, r) == batch_step(old(self)@, batch@),
    {
        if !self.recording {
            return BatchOutcome::Ignored;
        }
        let cap = self.capacity();
        let len = self.buffer.len() as u64;
        let room = if len <= cap {
            cap - len
        } else {
            0
        };
        let mut batch = batch;
        if batch.len() as u64 > room {
            batch.truncate(room as usize);
            self.buffer.append(&mut batch);
            self.recording = false;
            self.started_at = None;
            self.auto_stopped = true;
            BatchOutcome::AutoStopped
        } else {
            self.buffer.append(&mut batch);
            BatchOutcome::Appended
        }
    }

    /// Ends the session by request and hands over the buffer, leaving an
    /// empty one in its place; nothing is copied.
    pub fn extract_audio_samples(&mut self) -> (r: Result<Vec<S>, AudioError>)
        ensures
            final(self)@ == extract_step(old(self)@).0,
            seq_result(r) == extract_step(old(self)@).1,
    {
        if !self.recording {
            return Err(AudioError::NotRecording);
        }
        self.recording = false;
        self.started_at = None;
        let mut taken: Vec<S> = Vec::new();
        std::mem::swap(&mut self.buffer, &mut taken);
        Ok(taken)
    }

    /// Gives up a session whose stream could not be built or started.
    pub fn abandon_session(&mut self)
        ensures
            final(self)@ == (CaptureModel { recording: false, started_at: None, ..old(self)@ }),
    {
        self.recording = false;
        self.started_at = None;
    }

    pub fn is_recording(&self) -> (r: bool)
        ensures
            r == self@.recording,
    {
        self.recording
    }

    pub fn samples(&self) -> (r: &[S])
        ensures
            r@ == self@.samples,
    {
        self.buffer.as_slice()
    }

    pub fn buffer_len(&self) -> (r: usize)
        ensures
            r == self@.samples.len(),
    {
        self.buffer.len()
    }

    pub fn sample_rate(&self) -> (r: u32)
        ensures
            r == self@.sample_rate,
    {
        self.sample_rate
    }

    pub fn channels(&self) -> (r: u16)
        ensures
            r == self@.channels,
    {
        self.channels
    }

    pub fn started_at(&self) -> (r: Option<u64>)
        ensures
            r == self@.started_at,
    {
        self.started_at
    }

    pub fn auto_stopped(&self) -> (r: bool)
        ensures
            r == self@.auto_stopped,
    {
        self.auto_stopped
    }
}

/// The samples of an exec result, as a sequence.
pub open spec fn seq_result<S>(r: Result<Vec<S>, AudioError>) -> Result<Seq<S>, AudioError> {
    match r {
        Ok(v) => Ok(v@),
        Err(e) => Err(e),
    }
}

/// Refuses a recording that holds no samples.
pub fn validate_samples<S>(samples: &[S]) -> (r: Result<(), AudioError>)
    ensures
        r == (if samples@.len() == 0 {
            Err(AudioError::EmptyRecording)
        } else {
            Ok(())
        }),
{
    if samples.len() == 0 {
        Err(AudioError::EmptyRecording)
    } else {
        Ok(())
    }
}

/// Position of the first input device whose name is `wanted`.
pub fn find_device(names: &Vec<String>, wanted: &str) -> (r: Result<usize, AudioError>)
    ensures
        match r {
            Ok(i) => i < names@.len() && names@[i as int]@ == wanted@ && forall|j: int|
                0 <= j < i ==> names@[j]@ != wanted@,
            Err(e) => e == AudioError::DeviceNotFound && forall|j: int|
                0 <= j < names@.len() ==> names@[j]@ != wanted@,
        },
{
    let target = String::from_str(wanted);
    let mut i: usize = 0;
    while i < names.len()
        invariant
            i <= names@.len(),
            target@ == wanted@,
            forall|j: int| 0 <= j < i ==> names@[j]@ != wanted@,
        decreases names@.len() - i,
    {
        if names[i] == target {
            return Ok(i);
        }
        i = i + 1;
    }
    Err(AudioError::DeviceNotFound)
}

/// Every step keeps a valid state valid: the buffer never outgrows the cap,
/// and a session that stopped itself records no more.
pub proof fn lemma_steps_keep_valid<S>(
    m: CaptureModel<S>,
    sample_rate: u32,
    channels: u16,
    format: Option<CaptureFormat>,
    now: u64,
    batch: Seq<S>,
)
    requires
        m.valid(),
    ensures
        initial_model::<S>().valid(),
        begin_step(m, sample_rate, channels, format, now).0.valid(),
        batch_step(m, batch).0.valid(),
        extract_step(m).0.valid(),
        stop_step(m).0.valid(),
{
}

/// Starting while a session records fails with `AlreadyRecording` and leaves
/// the session, its buffer included, as it was.
pub proof fn lemma_start_while_recording<S>(
    m: CaptureModel<S>,
    sample_rate: u32,
    channels: u16,
    format: Option<CaptureFormat>,
    now: u64,
)
    requires
        m.recording,
    ensures
        begin_step(m, sample_rate, channels, format, now).0 == m,
        begin_step(m, sample_rate, channels, format, now).1 == Err::<CaptureFormat, AudioError>(
            AudioError::AlreadyRecording,
        ),
{
}

/// A batch that would take the buffer past the cap stops the session once:
/// the buffer ends exactly full, and a batch that arrives afterwards changes
/// nothing.
pub proof fn lemma_auto_stop_once<S>(m: CaptureModel<S>, first: Seq<S>, second: Seq<S>)
    requires
        m.valid(),
        m.recording,
        m.samples.len() + first.len() > m.capacity(),
    ensures
        batch_step(m, first).1 == BatchOutcome::AutoStopped,
        batch_step(m, first).0.samples.len() == m.capacity(),
        !batch_step(m, first).0.recording,
        batch_step(m, first).0.started_at is None,
        batch_step(batch_step(m, first).0, second).1 == BatchOutcome::Ignored,
        batch_step(batch_step(m, first).0, second).0 == batch_step(m, first).0,
{
}

/// Stopping a session that recorded nothing fails with `EmptyRecording`, and
/// the session is stopped all the same.
pub proof fn lemma_stop_empty<S>(m: CaptureModel<S>)
    requires
        m.recording,
        m.samples.len() == 0,
    ensures
        stop_step(m).1 == Err::<Seq<S>, AudioError>(AudioError::EmptyRecording),
        !stop_step(m).0.recording,
        stop_step(m).0.started_at is None,
{
}

} // verus!
