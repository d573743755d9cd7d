use vstd::prelude::*;

use crate::device::DeviceProps;
use crate::text::{append_decimal, decimal};

verus! {

/// Codecs that the file writer can be asked for.
#[derive(Clone, Copy, Debug, PartialEq, Eq, Structural)]
pub enum Codec {
    Mjpg,
    Xvid,
    Mp4v,
    H264,
}

/// The four characters of a codec's tag.
pub open spec fn codec_tag(c: Codec) -> (char, char, char, char) {
    match c {
        Codec::Mjpg => ('M', 'J', 'P', 'G'),
        Codec::Xvid => ('X', 'V', 'I', 'D'),
        Codec::Mp4v => ('m', 'p', '4', 'v'),
        Codec::H264 => ('H', '2', '6', '4'),
    }
}

/// A four-character code packed little-endian into one integer, first
/// character in the lowest byte.
pub open spec fn fourcc_code(t: (char, char, char, char)) -> int {
    t.0 as int + 256 * (t.1 as int) + 65536 * (t.2 as int) + 16777216 * (t.3 as int)
}

impl Codec {
    /// The tag characters of this codec.
    pub fn tag(&self) -> (r: (char, char, char, char))
        ensures
            r == codec_tag(*self),
    {
        match self {
            Codec::Mjpg => ('M', 'J', 'P', 'G'),
            Codec::Xvid => ('X', 'V', 'I', 'D'),
            Codec::Mp4v => ('m', 'p', '4', 'v'),
            Codec::H264 => ('H', '2', '6', '4'),
        }
    }

    /// The packed four-character code of this codec.
    pub fn fourcc(&self) -> (r: i32)
        ensures
            r as int == fourcc_code(codec_tag(*self)),
    {
        let t = self.tag();
        let a: i32 = t.0 as u8 as i32;
        let b: i32 = t.1 as u8 as i32;
        let c: i32 = t.2 as u8 as i32;
        let d: i32 = t.3 as u8 as i32;
        a + 256 * b + 65536 * c + 16777216 * d
    }
}

/// A network destination for the streaming sink.
#[derive(Clone, Debug)]
pub struct StreamTarget {
    pub host: String,
    pub port: u16,
}

/// Where frames go.
#[derive(Clone, Debug)]
pub enum SinkMode {
    /// A container file at `path`, written for `time_limit_secs` seconds.
    File { path: String, codec: Codec, time_limit_secs: u64 },
    /// An RTP/JPEG stream sent over UDP to `target`.
    Stream { target: StreamTarget },
}

/// The description of the streaming pipeline: convert, scale and
/// rate-adjust to the device's size and rate, encode as JPEG, packetize as
/// RTP and send over UDP to `host:port`.
pub open spec fn pipeline_text(
    width: int,
    height: int,
    fps: int,
    host: Seq<char>,
    port: int,
) -> Seq<char> {
    "appsrc ! videoconvert ! videoscale ! videorate ! video/x-raw,width="@ + decimal(width)
        + ",height="@ + decimal(height) + ",framerate="@ + decimal(fps)
        + "/1,format=YV12 ! jpegenc ! rtpjpegpay ! udpsink host="@ + host + " port="@ + decimal(
        port,
    )
}

/// Builds the streaming pipeline description for a device reporting `props`.
pub fn stream_pipeline(props: &DeviceProps, target: &StreamTarget) -> (r: String)
    ensures
        r@ == pipeline_text(
            props.width as int,
            props.height as int,
            props.fps as int,
            target.host@,
            target.port as int,
        ),
{
    let mut s = String::new();
    s.append("appsrc ! videoconvert ! videoscale ! videorate ! video/x-raw,width=");
    append_decimal(&mut s, props.width as i64);
    s.append(",height=");
    append_decimal(&mut s, props.height as i64);
    s.append(",framerate=");
    append_decimal(&mut s, props.fps as i64);
    s.append("/1,format=YV12 ! jpegenc ! rtpjpegpay ! udpsink host=");
    s.append(target.host.as_str());
    s.append(" port=");
    append_decimal(&mut s, target.port as i64);
    proof {
        assert(s@ =~= pipeline_text(
            props.width as int,
            props.height as int,
            props.fps as int,
            target.host@,
            target.port as int,
        ));
    }
    s
}

/// What the writer is opened on.
#[derive(Clone, Debug)]
pub enum WriterTarget {
    /// A container file, encoded with the codec `fourcc`.
    File { path: String, fourcc: i32 },
    /// A pipeline description, opened through the GStreamer backend.
    Pipeline { description: String },
}

/// Everything the writer is opened with.
#[derive(Clone, Debug)]
pub struct SinkPlan {
    pub target: WriterTarget,
    pub fps: i32,
    pub width: i32,
    pub height: i32,
    pub is_color: bool,
}

/// The writer target that `mode` calls for on a device reporting `props`.
pub open spec fn target_matches(t: WriterTarget, mode: SinkMode, props: DeviceProps) -> bool {
    match mode {
        SinkMode::File { path, codec, .. } => t matches WriterTarget::File { path: p, fourcc }
            && p@ == path@ && fourcc as int == fourcc_code(codec_tag(codec)),
        SinkMode::Stream { target } => t matches WriterTarget::Pipeline { description }
            && description@ == pipeline_text(
            props.width as int,
            props.height as int,
            props.fps as int,
            target.host@,
            target.port as int,
        ),
    }
}

/// Plans the sink for a device reporting `props`: the writer gets the
/// device's own size and rate, never the requested ones, and colour frames.
pub fn plan_sink(mode: &SinkMode, props: &DeviceProps) -> (r: SinkPlan)
    ensures
        r.width == props.width,
        r.height == props.height,
        r.fps == props.fps,
        r.is_color,
        target_matches(r.target, *mode, *props),
{
    let target = match mode {
        SinkMode::File { path, codec, .. } => WriterTarget::File {
            path: path.clone(),
            fourcc: codec.fourcc(),
        },
        SinkMode::Stream { target } => WriterTarget::Pipeline {
            description: stream_pipeline(props, target),
        },
    };
    SinkPlan { target, fps: props.fps, width: props.width, height: props.height, is_color: true }
}

} // verus!

verus! {

/// What to do when the writer does not open.
#[derive(Clone, Copy, Debug, PartialEq, Eq, Structural)]
pub enum SinkOpenPolicy {
    /// Report it and run the loop anyway; every write then fails.
    Continue,
    /// Stop before the loop.
    FailFast,
}

/// The outcome of opening the writer.
#[derive(Clone, Copy, Debug, PartialEq, Eq, Structural)]
pub enum SinkCheck {
    /// The writer is open.
    Ready,
    /// The writer is not open: report it and go on.
    ReportAndContinue,
    /// The writer is not open: stop.
    Stop,
}

/// Decides what follows the attempt to open the writer.
pub fn check_sink_opened(opened: bool, policy: SinkOpenPolicy) -> (r: SinkCheck)
    ensures
        opened ==> r == SinkCheck::Ready,
        !opened && policy == SinkOpenPolicy::Continue ==> r == SinkCheck::ReportAndContinue,
        !opened && policy == SinkOpenPolicy::FailFast ==> r == SinkCheck::Stop,
{
    if opened {
        SinkCheck::Ready
    } else {
        match policy {
            SinkOpenPolicy::Continue => SinkCheck::ReportAndContinue,
            SinkOpenPolicy::FailFast => SinkCheck::Stop,
        }
    }
}

/// The report made when the writer is not open.
pub fn sink_not_open_message() -> (r: String)
    ensures
        r@ == "videowriter is not open"@,
{
    String::from_str("videowriter is not open")
}

} // verus!
