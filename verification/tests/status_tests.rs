use espcam::camera::{check_init, check_setting, CameraError, SensorSetting};
use espcam::tensor::{tensor_len, TensorError, TensorKind};

#[test]
fn tensor_len_counts_elements() {
    assert_eq!(tensor_len(TensorKind::Input, 0, Some(49152), 1), Ok(49152));
    assert_eq!(tensor_len(TensorKind::Output, 1, Some(57344), 4), Ok(14336));
    assert_eq!(tensor_len(TensorKind::Output, 0, Some(0), 4), Ok(0));
}

#[test]
fn tensor_len_errors() {
    assert_eq!(
        tensor_len(TensorKind::Input, 2, None, 1),
        Err(TensorError::NotFound { kind: TensorKind::Input, index: 2 })
    );
    assert_eq!(
        tensor_len(TensorKind::Output, 1, Some(-4), 4),
        Err(TensorError::SizeUnavailable { kind: TensorKind::Output, index: 1 })
    );
    assert_eq!(tensor_len(TensorKind::Output, 1, Some(8), 0), Err(TensorError::ZeroSizedElement));
    assert_eq!(
        tensor_len(TensorKind::Output, 0, Some(10), 4),
        Err(TensorError::Misaligned { kind: TensorKind::Output, index: 0, bytes: 10, elem_size: 4 })
    );
}

#[test]
fn camera_statuses() {
    assert_eq!(check_init(0), Ok(()));
    assert_eq!(check_init(259), Err(CameraError::InitFailed(259)));
    assert_eq!(check_setting(SensorSetting::Quality, true, Some(0)), Ok(()));
    assert_eq!(
        check_setting(SensorSetting::Quality, false, Some(0)),
        Err(CameraError::SensorUnavailable)
    );
    assert_eq!(
        check_setting(SensorSetting::Brightness, true, None),
        Err(CameraError::SettingFailed { setting: SensorSetting::Brightness, code: -1 })
    );
    assert_eq!(
        check_setting(SensorSetting::Resolution, true, Some(2)),
        Err(CameraError::SettingFailed { setting: SensorSetting::Resolution, code: 2 })
    );
}
