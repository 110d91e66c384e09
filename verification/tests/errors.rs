use rdma_session::error::{DeviceError, Error, IoError, IoErrorKind, WcStatus};

#[test]
fn test_error_display() {
    let e = Error::NoDevices;
    assert_eq!(e.to_string(), "no RDMA devices found");

    let e = Error::DeviceNotFound("mlx5_0".into());
    assert!(e.to_string().contains("mlx5_0"));

    let e = Error::InvalidConfig("bad param".into());
    assert!(e.to_string().contains("bad param"));

    let e = Error::WouldBlock;
    assert_eq!(e.to_string(), "operation would block");
}

#[test]
fn test_from_crate_error() {
    let e = Error::from_v1(DeviceError::NoDevices);
    assert!(matches!(e, Error::NoDevices));

    let e = Error::from_v1(DeviceError::DeviceNotFound("test".into()));
    assert!(matches!(e, Error::DeviceNotFound(_)));

    let e = Error::from_v1(DeviceError::WouldBlock);
    assert!(matches!(e, Error::WouldBlock));
}

#[test]
fn test_error_source() {
    let io_err = IoError::other("test".into());
    let e = Error::Verbs(io_err);
    assert!(e.source().is_some());

    let e = Error::NoDevices;
    assert!(e.source().is_none());
}

#[test]
fn cloning_contextual_io_error_preserves_its_message() {
    let original = IoError::new(
        IoErrorKind::ConnectionRefused,
        "connect 192.0.2.1:7471: provider rejected route".into(),
    );
    let cloned = original.clone();
    assert_eq!(cloned.kind, original.kind);
    assert_eq!(cloned.message, original.message);

    let original = IoError {
        kind: IoErrorKind::OutOfMemory,
        raw_os_error: Some(12),
        message: "Cannot allocate memory (os error 12)".into(),
    };
    let cloned = original.clone();
    assert_eq!(cloned.raw_os_error, original.raw_os_error);
    assert_eq!(cloned.message, original.message);
}

#[test]
fn every_device_error_keeps_what_it_says() {
    assert!(matches!(
        Error::from_v1(DeviceError::Verbs(IoError::other("verbs".into()))),
        Error::Verbs(error) if error.message == "verbs"
    ));
    assert!(matches!(
        Error::from_v1(DeviceError::InvalidArg("depth".into())),
        Error::InvalidConfig(message) if message == "depth"
    ));
    assert!(matches!(
        Error::from_v1(DeviceError::WorkCompletion { status: 5, vendor_err: 9 }),
        Error::CompletionError { status: WcStatus::WrFlushErr, vendor_err: 9 }
    ));
    assert!(matches!(
        Error::from_v1(DeviceError::WorkCompletion { status: 77, vendor_err: 0 }),
        Error::CompletionError { status: WcStatus::Unknown(77), vendor_err: 0 }
    ));
    assert!(matches!(
        Error::from_v1(DeviceError::Timeout("late".into())),
        Error::Verbs(error) if error.kind == IoErrorKind::Other && error.message == "late"
    ));
}

#[test]
fn io_errors_become_verbs_errors() {
    let error = Error::from(IoError::new(IoErrorKind::NotConnected, "gone".into()));
    assert!(matches!(
        error,
        Error::Verbs(ref io) if io.kind == IoErrorKind::NotConnected && io.message == "gone"
    ));
}
