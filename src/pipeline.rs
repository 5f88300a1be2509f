use vstd::prelude::*;

verus! {

/// A processing stage of the media pipeline, with the settings that the
/// session gives it.
#[derive(Clone, Debug, PartialEq, Eq)]
pub enum Stage {
    /// Receives RTP (`application/x-rtp`) over UDP on `address:port`.
    UdpSource { address: String, port: i32 },
    /// A buffering stage.
    Queue,
    /// Takes H.264 out of RTP packets.
    RtpH264Depay,
    /// The duplication point, named `tee`, that every branch hangs from.
    Tee,
    /// Decodes H.264.
    H264Decoder,
    /// Converts the colour space for display.
    VideoConvert,
    /// Displays the video, synchronised to the clock.
    VideoSink,
    /// Normalises the H.264 stream format for muxing.
    H264Parse,
    /// Muxes into an FLV container.
    FlvMux,
    /// Writes to the file at `location`.
    FileSink { location: String },
}

/// The kind of a pipeline stage.
#[derive(Clone, Copy, Debug, PartialEq, Eq, Structural)]
pub enum StageKind {
    UdpSource,
    Queue,
    RtpH264Depay,
    Tee,
    H264Decoder,
    VideoConvert,
    VideoSink,
    H264Parse,
    FlvMux,
    FileSink,
}

/// The kind of each stage.
pub open spec fn kind_of(s: Stage) -> StageKind {
    match s {
        Stage::UdpSource { .. } => StageKind::UdpSource,
        Stage::Queue => StageKind::Queue,
        Stage::RtpH264Depay => StageKind::RtpH264Depay,
        Stage::Tee => StageKind::Tee,
        Stage::H264Decoder => StageKind::H264Decoder,
        Stage::VideoConvert => StageKind::VideoConvert,
        Stage::VideoSink => StageKind::VideoSink,
        Stage::H264Parse => StageKind::H264Parse,
        Stage::FlvMux => StageKind::FlvMux,
        Stage::FileSink { .. } => StageKind::FileSink,
    }
}

/// The engine's factory name of each stage.
pub open spec fn factory_of(s: Stage) -> Seq<char> {
    match s {
        Stage::UdpSource { .. } => "udpsrc"@,
        Stage::Queue => "queue"@,
        Stage::RtpH264Depay => "rtph264depay"@,
        Stage::Tee => "tee"@,
        Stage::H264Decoder => "avdec_h264"@,
        Stage::VideoConvert => "videoconvert"@,
        Stage::VideoSink => "autovideosink"@,
        Stage::H264Parse => "h264parse"@,
        Stage::FlvMux => "flvmux"@,
        Stage::FileSink { .. } => "filesink"@,
    }
}

impl Stage {
    pub fn kind(&self) -> (r: StageKind)
        ensures
            r == kind_of(*self),
    {
        match self {
            Stage::UdpSource { .. } => StageKind::UdpSource,
            Stage::Queue => StageKind::Queue,
            Stage::RtpH264Depay => StageKind::RtpH264Depay,
            Stage::Tee => StageKind::Tee,
            Stage::H264Decoder => StageKind::H264Decoder,
            Stage::VideoConvert => StageKind::VideoConvert,
            Stage::VideoSink => StageKind::VideoSink,
            Stage::H264Parse => StageKind::H264Parse,
            Stage::FlvMux => StageKind::FlvMux,
            Stage::FileSink { .. } => StageKind::FileSink,
        }
    }

    pub fn factory_name(&self) -> (r: &'static str)
        ensures
            r@ == factory_of(*self),
    {
        match self {
            Stage::UdpSource { .. } => "udpsrc",
            Stage::Queue => "queue",
            Stage::RtpH264Depay => "rtph264depay",
            Stage::Tee => "tee",
            Stage::H264Decoder => "avdec_h264",
            Stage::VideoConvert => "videoconvert",
            Stage::VideoSink => "autovideosink",
            Stage::H264Parse => "h264parse",
            Stage::FlvMux => "flvmux",
            Stage::FileSink { .. } => "filesink",
        }
    }
}

/// The chain that a session builds at construction, in link order: ingest,
/// buffer, depacketise, the duplication point, then the display branch
/// (buffer, decode, convert, display).
pub fn receive_chain(address: String, port: i32) -> (r: Vec<Stage>)
    ensures
        r@.len() == 8,
        r@[0] matches Stage::UdpSource { address: a, port: p } && a@ == address@ && p == port,
        r@[1] is Queue,
        r@[2] is RtpH264Depay,
        r@[3] is Tee,
        r@[4] is Queue,
        r@[5] is H264Decoder,
        r@[6] is VideoConvert,
        r@[7] is VideoSink,
{
    let mut r: Vec<Stage> = Vec::new();
    r.push(Stage::UdpSource { address, port });
    r.push(Stage::Queue);
    r.push(Stage::RtpH264Depay);
    r.push(Stage::Tee);
    r.push(Stage::Queue);
    r.push(Stage::H264Decoder);
    r.push(Stage::VideoConvert);
    r.push(Stage::VideoSink);
    r
}

/// The recording branch, in link order: buffer, normalise the stream
/// format, mux, write to `location`. Its first stage is linked to a new
/// output of the duplication point.
pub fn recording_branch(location: String) -> (r: Vec<Stage>)
    ensures
        r@.len() == 4,
        r@[0] is Queue,
        r@[1] is H264Parse,
        r@[2] is FlvMux,
        r@[3] matches Stage::FileSink { location: l } && l@ == location@,
{
    let mut r: Vec<Stage> = Vec::new();
    r.push(Stage::Queue);
    r.push(Stage::H264Parse);
    r.push(Stage::FlvMux);
    r.push(Stage::FileSink { location });
    r
}

/// The file that a recording goes to when no destination was chosen.
pub fn default_recording_location() -> (r: String)
    ensures
        r@ == "output_video.flv"@,
{
    String::from_str("output_video.flv")
}

/// The destination of a recording: the chosen one, else the default.
pub fn recording_location(chosen: Option<String>) -> (r: String)
    ensures
        chosen matches Some(c) ==> r@ == c@,
        chosen is None ==> r@ == "output_video.flv"@,
{
    match chosen {
        Some(c) => c,
        None => default_recording_location(),
    }
}

} // verus!
