use rk3588_rs::rknn::{RknnError, RKNN_ERR_TARGET_PLATFORM_UNMATCH, RKNN_ERR_TIMEOUT};

#[test]
fn from_code_known_and_unknown() {
    assert_eq!(RknnError::from_code(0), RknnError::Success);
    assert_eq!(RknnError::from_code(-1), RknnError::Fail);
    assert_eq!(RknnError::from_code(RKNN_ERR_TIMEOUT), RknnError::Timeout);
    assert_eq!(RknnError::from_code(-5), RknnError::ParamInvalid);
    assert_eq!(RknnError::from_code(-13), RknnError::TargetPlatformUnmatch);
    assert_eq!(RknnError::from_code(-14), RknnError::Unknown(-14));
    assert_eq!(RknnError::from_code(1), RknnError::Unknown(1));
}

#[test]
fn codes_round_trip() {
    for code in -40..40 {
        assert_eq!(RknnError::from_code(code).to_code(), code);
    }
    assert_eq!(RknnError::from_code(i32::MIN).to_code(), i32::MIN);
    assert_eq!(RknnError::TargetPlatformUnmatch.to_code(), RKNN_ERR_TARGET_PLATFORM_UNMATCH);
}

#[test]
fn errors_round_trip_when_canonical() {
    let e = RknnError::IncompatibleOptimizationLevelVersion;
    assert_eq!(RknnError::from_code(e.to_code()), e);
    let u = RknnError::Unknown(-99);
    assert_eq!(RknnError::from_code(u.to_code()), u);
    // Unknown of a code that has a variant comes back as that variant
    assert_eq!(RknnError::from_code(RknnError::Unknown(-2).to_code()), RknnError::Timeout);
}

#[test]
fn success_and_error() {
    assert!(RknnError::Success.is_success());
    assert!(!RknnError::Success.is_error());
    assert!(RknnError::Fail.is_error());
    assert!(!RknnError::Unknown(0).is_success());
    assert!(RknnError::Unknown(0).is_error());
}

#[test]
fn messages() {
    assert_eq!(RknnError::Success.message(), "Execute succeed");
    assert_eq!(RknnError::Timeout.message(), "Execute timeout");
    assert_eq!(
        RknnError::DeviceUnmatch.message(),
        "The device is unmatch, please update rknn sdk and npu driver/firmware"
    );
    assert_eq!(RknnError::Unknown(-42).message(), "Unknown error code: -42");
    assert_eq!(RknnError::Unknown(7).message(), "Unknown error code: 7");
    assert_eq!(RknnError::Unknown(0).message(), "Unknown error code: 0");
}

#[test]
fn quantization_types() {
    assert_eq!(rk3588_rs::rknn::is_quantized(0), Some(false));
    assert_eq!(rk3588_rs::rknn::is_quantized(1), Some(true));
    assert_eq!(rk3588_rs::rknn::is_quantized(2), Some(true));
    assert_eq!(rk3588_rs::rknn::is_quantized(3), Some(true));
    assert_eq!(rk3588_rs::rknn::is_quantized(4), None);
}

#[test]
fn tensor_shapes() {
    let mut dims = [0u32; 16];
    dims[..4].copy_from_slice(&[1, 224, 224, 3]);
    assert_eq!(rk3588_rs::rknn::tensor_shape(&dims, 4), vec![1, 224, 224, 3]);
    assert_eq!(rk3588_rs::rknn::tensor_shape(&dims, 0), Vec::<u32>::new());
    assert_eq!(rk3588_rs::rknn::tensor_shape(&dims, 16).len(), 16);
}
