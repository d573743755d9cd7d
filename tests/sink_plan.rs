use camera_stream::device::DeviceProps;
use camera_stream::sink::{
    check_sink_opened, plan_sink, sink_not_open_message, stream_pipeline, Codec, SinkCheck,
    SinkMode, SinkOpenPolicy, StreamTarget, WriterTarget,
};

fn target() -> StreamTarget {
    StreamTarget { host: "192.168.86.108".to_string(), port: 5200 }
}

#[test]
fn codec_fourcc_values() {
    assert_eq!(Codec::Mp4v.tag(), ('m', 'p', '4', 'v'));
    assert_eq!(Codec::Mp4v.fourcc(), 0x7634706d);
    assert_eq!(Codec::Mjpg.fourcc(), 0x47504a4d);
    assert_eq!(Codec::Xvid.fourcc(), 0x44495658);
    assert_eq!(Codec::H264.fourcc(), 0x34363248);
}

#[test]
fn stream_pipeline_for_vga_device() {
    let props = DeviceProps { width: 640, height: 480, fps: 10 };
    assert_eq!(
        stream_pipeline(&props, &target()),
        "appsrc ! videoconvert ! videoscale ! videorate ! \
         video/x-raw,width=640,height=480,framerate=10/1,format=YV12 ! \
         jpegenc ! rtpjpegpay ! udpsink host=192.168.86.108 port=5200"
    );
}

#[test]
fn stream_pipeline_uses_reported_values() {
    let props = DeviceProps { width: 1280, height: 720, fps: 30 };
    let s = stream_pipeline(&props, &target());
    assert!(s.contains("width=1280,height=720,framerate=30/1"));
    assert!(!s.contains("640"));
    assert!(s.ends_with("udpsink host=192.168.86.108 port=5200"));
}

#[test]
fn plan_takes_device_values() {
    let props = DeviceProps { width: 800, height: 600, fps: 15 };
    let plan = plan_sink(&SinkMode::Stream { target: target() }, &props);
    assert_eq!((plan.width, plan.height, plan.fps), (800, 600, 15));
    assert!(plan.is_color);
    match plan.target {
        WriterTarget::Pipeline { description } => {
            assert_eq!(description, stream_pipeline(&props, &target()))
        }
        WriterTarget::File { .. } => panic!("expected a pipeline"),
    }
}

#[test]
fn plan_for_file() {
    let props = DeviceProps { width: 320, height: 240, fps: 25 };
    let mode = SinkMode::File {
        path: "video.mp4".to_string(),
        codec: Codec::Mp4v,
        time_limit_secs: 10,
    };
    let plan = plan_sink(&mode, &props);
    assert_eq!((plan.width, plan.height, plan.fps), (320, 240, 25));
    match plan.target {
        WriterTarget::File { path, fourcc } => {
            assert_eq!(path, "video.mp4");
            assert_eq!(fourcc, Codec::Mp4v.fourcc());
        }
        WriterTarget::Pipeline { .. } => panic!("expected a file"),
    }
}

#[test]
fn sink_not_open_is_reported() {
    assert_eq!(sink_not_open_message(), "videowriter is not open");
    assert_eq!(check_sink_opened(false, SinkOpenPolicy::Continue), SinkCheck::ReportAndContinue);
    assert_eq!(check_sink_opened(false, SinkOpenPolicy::FailFast), SinkCheck::Stop);
    assert_eq!(check_sink_opened(true, SinkOpenPolicy::Continue), SinkCheck::Ready);
    assert_eq!(check_sink_opened(true, SinkOpenPolicy::FailFast), SinkCheck::Ready);
}
