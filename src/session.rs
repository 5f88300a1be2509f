use vstd::prelude::*;

use crate::pipeline::{receive_chain, Stage, StageKind};

verus! {

/// How long the monitor waits without any pipeline event before it takes
/// the stream as stalled.
pub const MONITOR_TIMEOUT_SECS: u64 = 30000;

/// Where the session's pipeline stands.
#[derive(Clone, Copy, Debug, PartialEq, Eq, Structural)]
pub enum PipelineState {
    /// Built and parked, ready but not flowing.
    Constructed,
    /// Flowing.
    Playing,
    /// Brought to the null state, by an explicit stop or by the monitor.
    Stopped,
}

/// Why an operation of the session failed.
#[derive(Clone, Copy, Debug, PartialEq, Eq, Structural)]
pub enum ClientError {
    /// A stage could not be created.
    CreateElement(StageKind),
    /// The stages could not be added to the pipeline.
    AddElements,
    /// The stages could not be linked.
    LinkElements,
    /// The pipeline could not be brought to the ready state.
    Prepare,
    /// The pipeline refused to start playing.
    StartPlaying,
    /// The stream was already started.
    AlreadyStreaming,
    /// The pipeline was released by an explicit stop.
    NoPipeline,
    /// A recording is already in progress.
    AlreadyRecording,
    /// No recording is in progress.
    NotRecording,
    /// The chosen destination is not valid text.
    InvalidPath,
    /// The duplication point gave no new output, or it could not be linked
    /// to the recording branch.
    AttachBranch,
}

/// The state of a session as the contracts see it.
pub struct SessionModel {
    pub pipeline: PipelineState,
    /// The pipeline object is still owned (an explicit stop releases it).
    pub held: bool,
    pub streaming: bool,
    pub recording: bool,
    /// How many recording branches were attached.
    pub branches: nat,
}

/// What a request to start recording returns, `attached` being how the
/// attempt to attach the branch ended (it is only made when this is `Ok`).
pub open spec fn recording_outcome(m: SessionModel, attached: Result<(), ClientError>) -> Result<
    (),
    ClientError,
> {
    if m.recording {
        Err(ClientError::AlreadyRecording)
    } else if !m.held {
        Err(ClientError::NoPipeline)
    } else {
        attached
    }
}

/// The session after a request to start recording.
pub open spec fn after_start_recording(
    m: SessionModel,
    attached: Result<(), ClientError>,
) -> SessionModel {
    if recording_outcome(m, attached) is Ok {
        SessionModel { recording: true, branches: m.branches + 1, ..m }
    } else {
        m
    }
}

/// What a request to start streaming returns, `played` being how the
/// engine answered the request to play.
pub open spec fn streaming_outcome(m: SessionModel, played: Result<(), ClientError>) -> Result<
    (),
    ClientError,
> {
    if !m.held {
        Err(ClientError::NoPipeline)
    } else if m.pipeline != PipelineState::Constructed {
        Err(ClientError::AlreadyStreaming)
    } else {
        played
    }
}

/// The session after a request to start streaming.
pub open spec fn after_start_streaming(
    m: SessionModel,
    played: Result<(), ClientError>,
) -> SessionModel {
    if streaming_outcome(m, played) is Ok {
        SessionModel { pipeline: PipelineState::Playing, streaming: true, ..m }
    } else {
        m
    }
}

/// A streaming session: the states of its pipeline and of its recording,
/// and the two status flags that its monitor and its owner share.
pub struct StreamerClient {
    address: String,
    port: i32,
    pipeline: PipelineState,
    held: bool,
    is_streaming: bool,
    is_recording: bool,
    branches: u64,
}

impl View for StreamerClient {
    type V = SessionModel;

    closed spec fn view(&self) -> SessionModel {
        SessionModel {
            pipeline: self.pipeline,
            held: self.held,
            streaming: self.is_streaming,
            recording: self.is_recording,
            branches: self.branches as nat,
        }
    }
}

impl StreamerClient {
    /// The address that the session receives on.
    pub closed spec fn address_spec(&self) -> Seq<char> {
        self.address@
    }

    /// The port that the session receives on.
    pub closed spec fn port_spec(&self) -> i32 {
        self.port
    }

    /// A session whose pipeline, receiving on `ip:port`, is built and parked.
    pub fn new(ip: String, port: i32) -> (r: StreamerClient)
        ensures
            r@ == (SessionModel {
                pipeline: PipelineState::Constructed,
                held: true,
                streaming: false,
                recording: false,
                branches: 0,
            }),
            r.address_spec() == ip@,
            r.port_spec() == port,
    {
        StreamerClient {
            address: ip,
            port,
            pipeline: PipelineState::Constructed,
            held: true,
            is_streaming: false,
            is_recording: false,
            branches: 0,
        }
    }

    /// The stages to build, in link order, for this session's pipeline.
    pub fn stages(&self) -> (r: Vec<Stage>)
        ensures
            r@.len() == 8,
            r@[0] matches Stage::UdpSource { address: a, port: p } && a@ == self.address_spec()
                && p == self.port_spec(),
            r@[1] is Queue,
            r@[2] is RtpH264Depay,
            r@[3] is Tee,
            r@[4] is Queue,
            r@[5] is H264Decoder,
            r@[6] is VideoConvert,
            r@[7] is VideoSink,
    {
        receive_chain(self.address.clone(), self.port)
    }

    pub fn get_is_rec(&self) -> (r: bool)
        ensures
            r == self@.recording,
    {
        self.is_recording
    }

    pub fn get_is_streaming(&self) -> (r: bool)
        ensures
            r == self@.streaming,
    {
        self.is_streaming
    }

    /// How many recording branches were attached.
    pub fn branch_count(&self) -> (r: u64)
        ensures
            r == self@.branches,
    {
        self.branches
    }

    pub fn pipeline_state(&self) -> (r: PipelineState)
        ensures
            r == self@.pipeline,
    {
        self.pipeline
    }

    /// Whether the engine may be asked to play: only a pipeline that is
    /// built, held and not yet started.
    pub fn check_start(&self) -> (r: Result<(), ClientError>)
        ensures
            r == streaming_outcome(self@, Ok(())),
    {
        if !self.held {
            Err(ClientError::NoPipeline)
        } else if self.pipeline != PipelineState::Constructed {
            Err(ClientError::AlreadyStreaming)
        } else {
            Ok(())
        }
    }

    /// Starts streaming, `played` being how the engine answered the request
    /// to play. On success the pipeline is playing and the stream is marked
    /// active; the caller then starts one monitor.
    pub fn start_streaming(&mut self, played: Result<(), ClientError>) -> (r: Result<
        (),
        ClientError,
    >)
        ensures
            r == streaming_outcome(old(self)@, played),
            final(self)@ == after_start_streaming(old(self)@, played),
            final(self).address_spec() == old(self).address_spec(),
            final(self).port_spec() == old(self).port_spec(),
    {
        let allowed = self.check_start();
        if allowed.is_err() {
            return allowed;
        }
        if played.is_ok() {
            self.pipeline = PipelineState::Playing;
            self.is_streaming = true;
        }
        played
    }

    /// Stops streaming and releases the pipeline; safe to call again. Tells
    /// whether the pipeline was still held, so that the caller brings it to
    /// the null state.
    pub fn stop_streaming(&mut self) -> (held: bool)
        ensures
            held == old(self)@.held,
            final(self)@ == (SessionModel {
                pipeline: PipelineState::Stopped,
                held: false,
                streaming: false,
                ..old(self)@
            }),
            final(self).address_spec() == old(self).address_spec(),
            final(self).port_spec() == old(self).port_spec(),
    {
        let held = self.held;
        self.pipeline = PipelineState::Stopped;
        self.held = false;
        self.is_streaming = false;
        held
    }

    /// Records that the monitor ended (end of stream, stall or error): the
    /// stream is no longer active and the pipeline is stopped. Tells whether
    /// the pipeline is still held, so that the caller brings it to the null
    /// state; doing so twice is harmless.
    pub fn monitor_finished(&mut self) -> (held: bool)
        ensures
            held == old(self)@.held,
            final(self)@ == (SessionModel {
                pipeline: PipelineState::Stopped,
                streaming: false,
                ..old(self)@
            }),
            final(self).address_spec() == old(self).address_spec(),
            final(self).port_spec() == old(self).port_spec(),
    {
        self.pipeline = PipelineState::Stopped;
        self.is_streaming = false;
        self.held
    }

    /// Whether a recording branch may be built and attached.
    pub fn check_start_recording(&self) -> (r: Result<(), ClientError>)
        ensures
            r == recording_outcome(self@, Ok(())),
    {
        if self.is_recording {
            Err(ClientError::AlreadyRecording)
        } else if !self.held {
            Err(ClientError::NoPipeline)
        } else {
            Ok(())
        }
    }

    /// Starts recording, `attached` being how the attempt to build the
    /// recording branch and link it to the duplication point ended. The
    /// session is marked recording only once the branch is attached; a second
    /// request while recording is refused and attaches nothing.
    pub fn start_recording(&mut self, attached: Result<(), ClientError>) -> (r: Result<
        (),
        ClientError,
    >)
        requires
            old(self)@.branches < u64::MAX,
        ensures
            r == recording_outcome(old(self)@, attached),
            final(self)@ == after_start_recording(old(self)@, attached),
            final(self).address_spec() == old(self).address_spec(),
            final(self).port_spec() == old(self).port_spec(),
    {
        let allowed = self.check_start_recording();
        if allowed.is_err() {
            return allowed;
        }
        if attached.is_ok() {
            self.is_recording = true;
            self.branches = self.branches + 1;
        }
        attached
    }

    /// Ends the recording; refused, with nothing changed, when none is in
    /// progress. The branch stays attached.
    pub fn stop_recording(&mut self) -> (r: Result<(), ClientError>)
        ensures
            old(self)@.recording ==> r is Ok && final(self)@ == (SessionModel {
                recording: false,
                ..old(self)@
            }),
            !old(self)@.recording ==> r == Err::<(), ClientError>(ClientError::NotRecording)
                && final(self)@ == old(self)@,
            final(self).address_spec() == old(self).address_spec(),
            final(self).port_spec() == old(self).port_spec(),
    {
        if !self.is_recording {
            return Err(ClientError::NotRecording);
        }
        self.is_recording = false;
        Ok(())
    }
}

/// A start that succeeded makes every later start fail with
/// `AlreadyRecording` without attaching another branch.
pub proof fn lemma_second_start_recording_refused(
    m: SessionModel,
    first: Result<(), ClientError>,
    second: Result<(), ClientError>,
)
    requires
        recording_outcome(m, first) is Ok,
    ensures
        recording_outcome(after_start_recording(m, first), second) == Err::<(), ClientError>(
            ClientError::AlreadyRecording,
        ),
        after_start_recording(after_start_recording(m, first), second) == after_start_recording(
            m,
            first,
        ),
        after_start_recording(m, first).branches == m.branches + 1,
{
}

} // verus!
