use camera_stream::cli::{
    backend_listing, listing_entry, listing_heading, lists_to_print, Args, BackendList, CliError,
    Command,
};

fn args(device: i32, camera: bool, all: bool) -> Args {
    Args {
        disable_recognition: false,
        video_device: device,
        list_camera_backends: camera,
        list_backends: all,
    }
}

#[test]
fn default_args() {
    let a = Args::default();
    assert_eq!(a, args(0, false, false));
    assert_eq!(a.command(), Ok(Command::Run { device: 0 }));
}

#[test]
fn video_device_bounds_accepted() {
    assert_eq!(args(-1, false, false).command(), Ok(Command::Run { device: -1 }));
    assert_eq!(args(99, false, false).command(), Ok(Command::Run { device: 99 }));
    assert_eq!(args(0, false, false).validate(), Ok(()));
}

#[test]
fn video_device_out_of_range_rejected() {
    assert_eq!(
        args(-2, false, false).command(),
        Err(CliError::VideoDeviceOutOfRange { value: -2 })
    );
    assert_eq!(
        args(100, false, false).command(),
        Err(CliError::VideoDeviceOutOfRange { value: 100 })
    );
    assert_eq!(
        args(100, true, true).command(),
        Err(CliError::VideoDeviceOutOfRange { value: 100 })
    );
    assert!(args(i32::MIN, false, false).validate().is_err());
}

#[test]
fn cli_error_message() {
    let e = CliError::VideoDeviceOutOfRange { value: 100 };
    assert_eq!(e.message(), "invalid value 100 for --video-device: must lie in -1..=99");
    let e = CliError::VideoDeviceOutOfRange { value: -7 };
    assert_eq!(e.message(), "invalid value -7 for --video-device: must lie in -1..=99");
}

#[test]
fn list_flags_never_run() {
    assert_eq!(
        args(0, true, false).command(),
        Ok(Command::ListBackends { camera: true, all: false })
    );
    assert_eq!(
        args(3, false, true).command(),
        Ok(Command::ListBackends { camera: false, all: true })
    );
    assert_eq!(
        args(-1, true, true).command(),
        Ok(Command::ListBackends { camera: true, all: true })
    );
}

#[test]
fn lists_in_order() {
    assert_eq!(lists_to_print(true, true), vec![BackendList::Camera, BackendList::All]);
    assert_eq!(lists_to_print(false, true), vec![BackendList::All]);
    assert_eq!(lists_to_print(true, false), vec![BackendList::Camera]);
    assert!(lists_to_print(false, false).is_empty());
}

#[test]
fn listing_text_with_names() {
    let names = vec!["V4L2_UEYE".to_string(), "GSTREAMER".to_string()];
    assert_eq!(
        backend_listing(BackendList::Camera, &names),
        "Availabe Camera Backends\n----------\n\tV4L2_UEYE\n\tGSTREAMER\n\n"
    );
}

#[test]
fn listing_text_without_names() {
    let names: Vec<String> = Vec::new();
    let first = backend_listing(BackendList::All, &names);
    assert_eq!(first, "All Backends\n----------\n\n");
    assert_eq!(backend_listing(BackendList::All, &names), first);
}

#[test]
fn listing_pieces() {
    assert_eq!(listing_heading(BackendList::Camera), "Availabe Camera Backends\n----------\n");
    assert_eq!(listing_heading(BackendList::All), "All Backends\n----------\n");
    assert_eq!(listing_entry("V4L2"), "\tV4L2\n");
    assert_eq!(listing_entry(""), "\t\n");
}
