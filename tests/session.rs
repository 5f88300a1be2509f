use lanstream::monitor::{BusEvent, MonitorEnd, StreamMonitor};
use lanstream::pipeline::{recording_branch, recording_location, Stage};
use lanstream::session::{ClientError, PipelineState, StreamerClient, MONITOR_TIMEOUT_SECS};

fn client() -> StreamerClient {
    StreamerClient::new("127.0.0.1".to_string(), 5000)
}

#[test]
fn new_session_is_constructed_and_idle() {
    let c = client();
    assert_eq!(c.pipeline_state(), PipelineState::Constructed);
    assert!(!c.get_is_rec());
    assert!(!c.get_is_streaming());
}

#[test]
fn stages_of_the_receive_chain() {
    let stages = client().stages();
    let names: Vec<&str> = stages.iter().map(|s| s.factory_name()).collect();
    assert_eq!(
        names,
        vec!["udpsrc", "queue", "rtph264depay", "tee", "queue", "avdec_h264", "videoconvert", "autovideosink"]
    );
    assert_eq!(stages[0], Stage::UdpSource { address: "127.0.0.1".to_string(), port: 5000 });
}

#[test]
fn stages_of_the_recording_branch() {
    let stages = recording_branch("/tmp/a.flv".to_string());
    let names: Vec<&str> = stages.iter().map(|s| s.factory_name()).collect();
    assert_eq!(names, vec!["queue", "h264parse", "flvmux", "filesink"]);
    assert_eq!(stages[3], Stage::FileSink { location: "/tmp/a.flv".to_string() });
}

#[test]
fn recording_location_falls_back_to_default() {
    assert_eq!(recording_location(None), "output_video.flv");
    assert_eq!(recording_location(Some("x.flv".to_string())), "x.flv");
}

#[test]
fn start_streaming_then_again_is_refused() {
    let mut c = client();
    assert_eq!(c.check_start(), Ok(()));
    assert_eq!(c.start_streaming(Ok(())), Ok(()));
    assert_eq!(c.pipeline_state(), PipelineState::Playing);
    assert!(c.get_is_streaming());
    assert_eq!(c.check_start(), Err(ClientError::AlreadyStreaming));
    assert_eq!(c.start_streaming(Ok(())), Err(ClientError::AlreadyStreaming));
}

#[test]
fn start_streaming_engine_failure_changes_nothing() {
    let mut c = client();
    assert_eq!(c.start_streaming(Err(ClientError::StartPlaying)), Err(ClientError::StartPlaying));
    assert_eq!(c.pipeline_state(), PipelineState::Constructed);
    assert!(!c.get_is_streaming());
}

#[test]
fn stop_streaming_is_idempotent() {
    let mut c = client();
    c.start_streaming(Ok(())).unwrap();
    assert!(c.stop_streaming());
    assert!(!c.stop_streaming());
    assert_eq!(c.pipeline_state(), PipelineState::Stopped);
    assert!(!c.get_is_streaming());
    assert_eq!(c.start_streaming(Ok(())), Err(ClientError::NoPipeline));
}

#[test]
fn second_start_recording_is_refused() {
    let mut c = client();
    assert_eq!(c.start_recording(Ok(())), Ok(()));
    assert!(c.get_is_rec());
    assert_eq!(c.check_start_recording(), Err(ClientError::AlreadyRecording));
    assert_eq!(c.start_recording(Ok(())), Err(ClientError::AlreadyRecording));
    assert!(c.get_is_rec());
}

#[test]
fn failed_attach_leaves_idle() {
    let mut c = client();
    assert_eq!(c.start_recording(Err(ClientError::AttachBranch)), Err(ClientError::AttachBranch));
    assert!(!c.get_is_rec());
    assert_eq!(c.start_recording(Ok(())), Ok(()));
    assert!(c.get_is_rec());
}

#[test]
fn recording_after_release_is_refused() {
    let mut c = client();
    c.stop_streaming();
    assert_eq!(c.start_recording(Ok(())), Err(ClientError::NoPipeline));
    assert!(!c.get_is_rec());
}

#[test]
fn stop_recording_while_idle_is_refused() {
    let mut c = client();
    assert_eq!(c.stop_recording(), Err(ClientError::NotRecording));
    assert!(!c.get_is_rec());
}

#[test]
fn stop_recording_after_start() {
    let mut c = client();
    c.start_recording(Ok(())).unwrap();
    assert_eq!(c.stop_recording(), Ok(()));
    assert!(!c.get_is_rec());
    assert_eq!(c.stop_recording(), Err(ClientError::NotRecording));
}

#[test]
fn monitor_error_stops_stream_without_explicit_stop() {
    let mut c = client();
    c.start_streaming(Ok(())).unwrap();
    let mut m = StreamMonitor::new(MONITOR_TIMEOUT_SECS, 0);
    assert_eq!(m.step(BusEvent::Other, 3), None);
    let end = m.step(
        BusEvent::Error { source: Some("/pipeline0/udpsrc0".to_string()), message: "boom".to_string() },
        4,
    );
    assert_eq!(
        end,
        Some(MonitorEnd::Failed { source: Some("/pipeline0/udpsrc0".to_string()), message: "boom".to_string() })
    );
    assert!(c.monitor_finished());
    assert!(!c.get_is_streaming());
    assert_eq!(c.pipeline_state(), PipelineState::Stopped);
}

#[test]
fn monitor_end_of_stream() {
    let mut m = StreamMonitor::new(10, 0);
    assert_eq!(m.step(BusEvent::EndOfStream, 1), Some(MonitorEnd::EndOfStream));
}

#[test]
fn monitor_stalls_after_timeout() {
    let mut m = StreamMonitor::new(10, 100);
    assert_eq!(m.step(BusEvent::NoEvent, 109), None);
    assert_eq!(m.step(BusEvent::Other, 109), None);
    assert_eq!(m.step(BusEvent::NoEvent, 118), None);
    assert_eq!(m.step(BusEvent::NoEvent, 119), Some(MonitorEnd::Stalled));
    assert_eq!(m.step(BusEvent::NoEvent, 50), None);
}

#[test]
fn monitor_default_timeout() {
    assert_eq!(MONITOR_TIMEOUT_SECS, 30000);
}
