use vstd::prelude::*;

use crate::text::{append_decimal, decimal};

verus! {

/// Capture drivers that a device can be opened through.
#[derive(Clone, Copy, Debug, PartialEq, Eq, Structural)]
pub enum CaptureBackend {
    Any,
    V4l2,
    UEye,
    GStreamer,
    Ffmpeg,
}

/// Capture properties that are requested when a device is opened.
#[derive(Clone, Copy, Debug, PartialEq, Eq, Structural)]
pub enum CaptureProperty {
    FrameWidth,
    FrameHeight,
    Fps,
}

/// Device index that selects whatever device the driver picks first.
pub const ANY_DEVICE: i32 = -1;

/// Largest device index accepted.
pub const MAX_DEVICE: i32 = 99;

/// A device index is `-1` (any device) or one of `0..=99`.
pub open spec fn valid_device_index(index: int) -> bool {
    ANY_DEVICE <= index <= MAX_DEVICE
}

/// What is asked of the capture library when a device is opened.  The
/// values actually negotiated may differ and are read back as
/// [`DeviceProps`].
#[derive(Clone, Copy, Debug, PartialEq, Eq, Structural)]
pub struct CaptureRequest {
    pub index: i32,
    pub width: i32,
    pub height: i32,
    pub fps: i32,
    pub backend: CaptureBackend,
}

/// Why a capture request or an opened device was refused.
#[derive(Clone, Copy, Debug, PartialEq, Eq, Structural)]
pub enum DeviceError {
    /// The device index lies outside `-1..=99`.
    InvalidIndex { index: i32 },
    /// A requested width, height or frame rate is not positive.
    InvalidFormat,
    /// The capture library could not open the device.
    DeviceUnavailable { index: i32 },
}

impl CaptureRequest {
    pub open spec fn wf(&self) -> bool {
        &&& valid_device_index(self.index as int)
        &&& self.width > 0
        &&& self.height > 0
        &&& self.fps > 0
    }

    /// A request for `index` at the given size and rate through `backend`.
    pub fn new(index: i32, width: i32, height: i32, fps: i32, backend: CaptureBackend) -> (r:
        Result<CaptureRequest, DeviceError>)
        ensures
            !valid_device_index(index as int) ==> r == Err::<CaptureRequest, DeviceError>(
                DeviceError::InvalidIndex { index },
            ),
            valid_device_index(index as int) && (width <= 0 || height <= 0 || fps <= 0) ==> r
                == Err::<CaptureRequest, DeviceError>(DeviceError::InvalidFormat),
            valid_device_index(index as int) && width > 0 && height > 0 && fps > 0 ==> r == Ok::<
                CaptureRequest,
                DeviceError,
            >(CaptureRequest { index, width, height, fps, backend }),
            r is Ok ==> r->Ok_0.wf(),
    {
        if index < ANY_DEVICE || index > MAX_DEVICE {
            Err(DeviceError::InvalidIndex { index })
        } else if width <= 0 || height <= 0 || fps <= 0 {
            Err(DeviceError::InvalidFormat)
        } else {
            Ok(CaptureRequest { index, width, height, fps, backend })
        }
    }

    /// The properties to hand to the capture library, as (property, value)
    /// pairs in the order width, height, frame rate.
    pub fn property_pairs(&self) -> (r: Vec<(CaptureProperty, i32)>)
        ensures
            r@ == seq![
                (CaptureProperty::FrameWidth, self.width),
                (CaptureProperty::FrameHeight, self.height),
                (CaptureProperty::Fps, self.fps),
            ],
    {
        let mut r: Vec<(CaptureProperty, i32)> = Vec::new();
        r.push((CaptureProperty::FrameWidth, self.width));
        r.push((CaptureProperty::FrameHeight, self.height));
        r.push((CaptureProperty::Fps, self.fps));
        proof {
            assert(r@ =~= seq![
                (CaptureProperty::FrameWidth, self.width),
                (CaptureProperty::FrameHeight, self.height),
                (CaptureProperty::Fps, self.fps),
            ]);
        }
        r
    }
}

/// The size and frame rate that an opened device reports, in whole units.
#[derive(Clone, Copy, Debug, PartialEq, Eq, Structural)]
pub struct DeviceProps {
    pub width: i32,
    pub height: i32,
    pub fps: i32,
}

/// The text of a device error.
pub open spec fn device_error_text(e: DeviceError) -> Seq<char> {
    match e {
        DeviceError::InvalidIndex { index } => "invalid device index "@ + decimal(index as int),
        DeviceError::InvalidFormat => "width, height and frame rate must be positive"@,
        DeviceError::DeviceUnavailable { .. } => "Unable to open default camera!"@,
    }
}

impl DeviceError {
    /// A message for the user.
    pub fn message(&self) -> (r: String)
        ensures
            r@ == device_error_text(*self),
    {
        match self {
            DeviceError::InvalidIndex { index } => {
                let mut s = String::from_str("invalid device index ");
                append_decimal(&mut s, *index as i64);
                s
            },
            DeviceError::InvalidFormat => String::from_str(
                "width, height and frame rate must be positive",
            ),
            DeviceError::DeviceUnavailable { .. } => String::from_str(
                "Unable to open default camera!",
            ),
        }
    }
}

/// Decides what follows the attempt to open device `index`: a device that
/// did not open is fatal and is not retried.
pub fn check_device_opened(index: i32, opened: bool) -> (r: Result<(), DeviceError>)
    ensures
        opened ==> r == Ok::<(), DeviceError>(()),
        !opened ==> r == Err::<(), DeviceError>(DeviceError::DeviceUnavailable { index }),
{
    if opened {
        Ok(())
    } else {
        Err(DeviceError::DeviceUnavailable { index })
    }
}

} // verus!
