//! What the camera driver's status codes mean for the caller.

use vstd::prelude::*;

verus! {

/// Status the camera driver returns on success.
pub const CAMERA_OK: i32 = 0;

/// A sensor setting that can be changed at run time.
#[derive(Debug, Clone, Copy, PartialEq, Eq, Structural)]
pub enum SensorSetting {
    Resolution,
    Quality,
    Brightness,
    Contrast,
    Saturation,
}

/// Why a camera operation failed.
#[derive(Debug, Clone, Copy, PartialEq, Eq, Structural)]
pub enum CameraError {
    /// The driver could not be initialized; the driver's error code.
    InitFailed(i32),
    /// No frame buffer was available.
    CaptureFailed,
    /// The driver has no sensor.
    SensorUnavailable,
    /// The sensor refused the setting; its return code, or -1 when the sensor
    /// does not offer the setting at all.
    SettingFailed { setting: SensorSetting, code: i32 },
}

/// Accepts the status of driver initialization.
pub fn check_init(status: i32) -> (r: Result<(), CameraError>)
    ensures
        r is Ok <==> status == CAMERA_OK,
        status != CAMERA_OK ==> r == Err::<(), CameraError>(CameraError::InitFailed(status)),
{
    if status != CAMERA_OK {
        Err(CameraError::InitFailed(status))
    } else {
        Ok(())
    }
}

/// The outcome of changing `setting`: `sensor_found` tells whether the driver
/// had a sensor, and `ret` what the sensor's setter returned (`None` when the
/// sensor has no setter for it).
pub fn check_setting(setting: SensorSetting, sensor_found: bool, ret: Option<i32>) -> (r: Result<(), CameraError>)
    ensures
        !sensor_found ==> r == Err::<(), CameraError>(CameraError::SensorUnavailable),
        sensor_found && ret is None ==> r == Err::<(), CameraError>(
            CameraError::SettingFailed { setting, code: -1i32 },
        ),
        sensor_found && (ret matches Some(c) && c != 0) ==> r == Err::<(), CameraError>(
            CameraError::SettingFailed { setting, code: ret->Some_0 },
        ),
        r is Ok <==> sensor_found && ret == Some(0i32),
{
    if !sensor_found {
        return Err(CameraError::SensorUnavailable);
    }
    let code = match ret {
        Some(c) => c,
        None => -1,
    };
    if code != 0 {
        Err(CameraError::SettingFailed { setting, code })
    } else {
        Ok(())
    }
}

} // verus!
