use vstd::prelude::*;

use crate::device::{valid_device_index, CaptureBackend, CaptureRequest, DeviceError};
use crate::frame_loop::LoopConfig;
use crate::sink::{Codec, SinkMode, SinkOpenPolicy, StreamTarget};

verus! {

/// One run of the program: which device to open and how, where the frames
/// go, and what to do when the writer does not open.
#[derive(Clone, Debug)]
pub struct PipelineConfig {
    pub request: CaptureRequest,
    pub sink: SinkMode,
    pub on_sink_failure: SinkOpenPolicy,
}

/// Width, height and frame rate asked of the device.
pub const REQUESTED_WIDTH: i32 = 640;

pub const REQUESTED_HEIGHT: i32 = 480;

pub const REQUESTED_FPS: i32 = 10;

/// Seconds that the file recording runs.
pub const RECORDING_SECS: u64 = 10;

/// Port that frames are streamed to.
pub const STREAM_PORT: u16 = 5200;

/// The streaming run on `device`.
pub open spec fn is_streaming(c: PipelineConfig, device: i32) -> bool {
    &&& c.request == CaptureRequest {
        index: device,
        width: REQUESTED_WIDTH,
        height: REQUESTED_HEIGHT,
        fps: REQUESTED_FPS,
        backend: CaptureBackend::UEye,
    }
    &&& c.sink is Stream
    &&& c.sink->target.host@ == "192.168.86.108"@
    &&& c.sink->target.port == STREAM_PORT
    &&& c.on_sink_failure == SinkOpenPolicy::Continue
}

/// The file recording run on `device`.
pub open spec fn is_recording(c: PipelineConfig, device: i32) -> bool {
    &&& c.request == CaptureRequest {
        index: device,
        width: REQUESTED_WIDTH,
        height: REQUESTED_HEIGHT,
        fps: REQUESTED_FPS,
        backend: CaptureBackend::Any,
    }
    &&& c.sink is File
    &&& c.sink->path@ == "video.mp4"@
    &&& c.sink->codec == Codec::Mp4v
    &&& c.sink->time_limit_secs == RECORDING_SECS
    &&& c.on_sink_failure == SinkOpenPolicy::FailFast
}

impl PipelineConfig {
    /// Streams from `device` (640x480 at 10 frames per second through the
    /// uEye driver) as RTP/JPEG over UDP to 192.168.86.108:5200, until an
    /// error; a writer that does not open is reported and the loop runs.
    pub fn streaming(device: i32) -> (r: Result<PipelineConfig, DeviceError>)
        ensures
            !valid_device_index(device as int) ==> r == Err::<PipelineConfig, DeviceError>(
                DeviceError::InvalidIndex { index: device },
            ),
            valid_device_index(device as int) ==> (r matches Ok(c) && is_streaming(c, device)),
    {
        match CaptureRequest::new(
            device,
            REQUESTED_WIDTH,
            REQUESTED_HEIGHT,
            REQUESTED_FPS,
            CaptureBackend::UEye,
        ) {
            Err(e) => Err(e),
            Ok(request) => Ok(
                PipelineConfig {
                    request,
                    sink: SinkMode::Stream {
                        target: StreamTarget {
                            host: String::from_str("192.168.86.108"),
                            port: STREAM_PORT,
                        },
                    },
                    on_sink_failure: SinkOpenPolicy::Continue,
                },
            ),
        }
    }

    /// Records from `device` (640x480 at 10 frames per second, any driver)
    /// into `video.mp4` with the MP4V codec for ten seconds; a writer that
    /// does not open stops the run.
    pub fn file_recording(device: i32) -> (r: Result<PipelineConfig, DeviceError>)
        ensures
            !valid_device_index(device as int) ==> r == Err::<PipelineConfig, DeviceError>(
                DeviceError::InvalidIndex { index: device },
            ),
            valid_device_index(device as int) ==> (r matches Ok(c) && is_recording(c, device)),
    {
        match CaptureRequest::new(
            device,
            REQUESTED_WIDTH,
            REQUESTED_HEIGHT,
            REQUESTED_FPS,
            CaptureBackend::Any,
        ) {
            Err(e) => Err(e),
            Ok(request) => Ok(
                PipelineConfig {
                    request,
                    sink: SinkMode::File {
                        path: String::from_str("video.mp4"),
                        codec: Codec::Mp4v,
                        time_limit_secs: RECORDING_SECS,
                    },
                    on_sink_failure: SinkOpenPolicy::FailFast,
                },
            ),
        }
    }

    /// The loop settings of this run: a file recording stops at its time
    /// limit, a stream runs until an error.
    pub fn loop_config(&self) -> (r: LoopConfig)
        ensures
            self.sink matches SinkMode::File { time_limit_secs, .. } ==> r.time_limit_secs
                == Some(time_limit_secs),
            self.sink is Stream ==> r.time_limit_secs is None,
    {
        match &self.sink {
            SinkMode::File { time_limit_secs, .. } => LoopConfig {
                time_limit_secs: Some(*time_limit_secs),
            },
            SinkMode::Stream { .. } => LoopConfig { time_limit_secs: None },
        }
    }
}

} // verus!
