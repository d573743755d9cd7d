use camera_stream::device::{
    check_device_opened, CaptureBackend, CaptureProperty, CaptureRequest, DeviceError,
};

#[test]
fn request_accepts_valid_values() {
    let r = CaptureRequest::new(0, 640, 480, 10, CaptureBackend::UEye).unwrap();
    assert_eq!(r.index, 0);
    assert_eq!((r.width, r.height, r.fps), (640, 480, 10));
    assert_eq!(r.backend, CaptureBackend::UEye);
    assert!(CaptureRequest::new(-1, 1, 1, 1, CaptureBackend::Any).is_ok());
    assert!(CaptureRequest::new(99, 1, 1, 1, CaptureBackend::Any).is_ok());
}

#[test]
fn request_rejects_bad_index_and_format() {
    assert_eq!(
        CaptureRequest::new(100, 640, 480, 10, CaptureBackend::Any),
        Err(DeviceError::InvalidIndex { index: 100 })
    );
    assert_eq!(
        CaptureRequest::new(-2, 0, 480, 10, CaptureBackend::Any),
        Err(DeviceError::InvalidIndex { index: -2 })
    );
    assert_eq!(
        CaptureRequest::new(0, 0, 480, 10, CaptureBackend::Any),
        Err(DeviceError::InvalidFormat)
    );
    assert_eq!(
        CaptureRequest::new(0, 640, -480, 10, CaptureBackend::Any),
        Err(DeviceError::InvalidFormat)
    );
    assert_eq!(
        CaptureRequest::new(0, 640, 480, 0, CaptureBackend::Any),
        Err(DeviceError::InvalidFormat)
    );
}

#[test]
fn request_property_pairs() {
    let r = CaptureRequest::new(2, 1280, 720, 30, CaptureBackend::V4l2).unwrap();
    assert_eq!(
        r.property_pairs(),
        vec![
            (CaptureProperty::FrameWidth, 1280),
            (CaptureProperty::FrameHeight, 720),
            (CaptureProperty::Fps, 30)
        ]
    );
}

#[test]
fn unopenable_device_is_fatal() {
    assert_eq!(check_device_opened(0, true), Ok(()));
    let e = check_device_opened(0, false).unwrap_err();
    assert_eq!(e, DeviceError::DeviceUnavailable { index: 0 });
    assert!(e.message().contains("Unable to open default camera"));
}

#[test]
fn device_error_messages() {
    assert_eq!(DeviceError::InvalidIndex { index: 120 }.message(), "invalid device index 120");
    assert_eq!(
        DeviceError::InvalidFormat.message(),
        "width, height and frame rate must be positive"
    );
    assert_eq!(
        DeviceError::DeviceUnavailable { index: 0 }.message(),
        "Unable to open default camera!"
    );
}
