use mvs_sdk_rs::codes::{
    MV_E_HANDLE, MV_E_SUPPORT, MV_E_BUFOVER, MV_E_CALLORDER, MV_E_PARAMETER, MV_E_RESOURCE,
    MV_E_NODATA, MV_E_PRECONDITION, MV_E_VERSION, MV_E_NOENOUGH_BUF, MV_E_ABNORMAL_IMAGE,
    MV_E_LOAD_LIBRARY, MV_E_NOOUTBUF, MV_E_ENCRYPT, MV_E_OPENFILE, MV_E_BUF_IN_USE,
    MV_E_BUF_INVALID, MV_E_NOALIGN_BUF, MV_E_NOENOUGH_BUF_NUM, MV_E_PORT_IN_USE,
    MV_E_IMAGE_DECODEC, MV_E_UINT32_LIMIT, MV_E_IMAGE_HEIGHT, MV_E_NOENOUGH_DDR,
    MV_E_NOENOUGH_STREAM, MV_E_NORESPONSE, MV_E_UNKNOW, MV_E_GC_GENERIC, MV_E_GC_ARGUMENT,
    MV_E_GC_RANGE, MV_E_GC_PROPERTY, MV_E_GC_RUNTIME, MV_E_GC_LOGICAL, MV_E_GC_ACCESS,
    MV_E_GC_TIMEOUT, MV_E_GC_DYNAMICCAST, MV_E_GC_UNKNOW, MV_E_NOT_IMPLEMENTED,
    MV_E_INVALID_ADDRESS, MV_E_WRITE_PROTECT, MV_E_ACCESS_DENIED, MV_E_BUSY, MV_E_PACKET,
    MV_E_NETER, MV_E_SUPPORT_MODIFY_DEVICE_IP, MV_E_KEY_VERIFICATION, MV_E_IP_CONFLICT,
    MV_E_USB_READ, MV_E_USB_WRITE, MV_E_USB_DEVICE, MV_E_USB_GENICAM, MV_E_USB_BANDWIDTH,
    MV_E_USB_DRIVER, MV_E_USB_UNKNOW, MV_E_UPG_FILE_MISMATCH, MV_E_UPG_LANGUSGE_MISMATCH,
    MV_E_UPG_CONFLICT, MV_E_UPG_INNER_ERR, MV_E_UPG_UNKNOW, MV_OK,
};
use mvs_sdk_rs::error::{check, CleanupFailure, CleanupStep, ShutdownError};
use mvs_sdk_rs::{CleanupError, MvsError, Sdk, SdkText};

#[test]
fn every_known_sdk_error_round_trips() {
    let codes = [
        MV_E_HANDLE, MV_E_SUPPORT, MV_E_BUFOVER, MV_E_CALLORDER, MV_E_PARAMETER, MV_E_RESOURCE,
        MV_E_NODATA, MV_E_PRECONDITION, MV_E_VERSION, MV_E_NOENOUGH_BUF, MV_E_ABNORMAL_IMAGE,
        MV_E_LOAD_LIBRARY, MV_E_NOOUTBUF, MV_E_ENCRYPT, MV_E_OPENFILE, MV_E_BUF_IN_USE,
        MV_E_BUF_INVALID, MV_E_NOALIGN_BUF, MV_E_NOENOUGH_BUF_NUM, MV_E_PORT_IN_USE,
        MV_E_IMAGE_DECODEC, MV_E_UINT32_LIMIT, MV_E_IMAGE_HEIGHT, MV_E_NOENOUGH_DDR,
        MV_E_NOENOUGH_STREAM, MV_E_NORESPONSE, MV_E_UNKNOW, MV_E_GC_GENERIC, MV_E_GC_ARGUMENT,
        MV_E_GC_RANGE, MV_E_GC_PROPERTY, MV_E_GC_RUNTIME, MV_E_GC_LOGICAL, MV_E_GC_ACCESS,
        MV_E_GC_TIMEOUT, MV_E_GC_DYNAMICCAST, MV_E_GC_UNKNOW, MV_E_NOT_IMPLEMENTED,
        MV_E_INVALID_ADDRESS, MV_E_WRITE_PROTECT, MV_E_ACCESS_DENIED, MV_E_BUSY, MV_E_PACKET,
        MV_E_NETER, MV_E_SUPPORT_MODIFY_DEVICE_IP, MV_E_KEY_VERIFICATION, MV_E_IP_CONFLICT,
        MV_E_USB_READ, MV_E_USB_WRITE, MV_E_USB_DEVICE, MV_E_USB_GENICAM, MV_E_USB_BANDWIDTH,
        MV_E_USB_DRIVER, MV_E_USB_UNKNOW, MV_E_UPG_FILE_MISMATCH, MV_E_UPG_LANGUSGE_MISMATCH,
        MV_E_UPG_CONFLICT, MV_E_UPG_INNER_ERR, MV_E_UPG_UNKNOW,
    ];

    for code in codes {
        let error = MvsError::from(code);
        assert!(
            !matches!(&error, MvsError::Unknown(_)),
            "known SDK code was not decoded: 0x{code:08X}"
        );
        assert_eq!(error.raw_code(), Some(code));
    }
}

#[test]
fn unknown_and_platform_errors_preserve_their_origin() {
    let code = 0xDEAD_BEEF;
    assert_eq!(MvsError::from(code).raw_code(), Some(code));
    assert_eq!(MvsError::UnsupportedPlatform.raw_code(), None);
}

#[test]
fn cleanup_error_preserves_order_and_selects_the_first_error() {
    let error = CleanupError::new(vec![
        CleanupFailure {
            step: CleanupStep::StopGrabbing,
            error: MvsError::Resource,
        },
        CleanupFailure {
            step: CleanupStep::CloseDevice,
            error: MvsError::CallOrder,
        },
    ]);

    assert_eq!(
        error
            .errors()
            .into_iter()
            .map(MvsError::raw_code)
            .collect::<Vec<_>>(),
        [Some(MV_E_RESOURCE), Some(MV_E_CALLORDER)]
    );
    assert!(error.native_handle_destroyed());
    assert_eq!(error.into_first_error().raw_code(), Some(MV_E_RESOURCE));

    let destroy_error = CleanupError::new(vec![CleanupFailure {
        step: CleanupStep::DestroyHandle,
        error: MvsError::Resource,
    }]);
    assert!(!destroy_error.native_handle_destroyed());
}

#[test]
fn check_accepts_zero_only() {
    assert!(check(MV_OK as i32).is_ok());
    assert!(matches!(
        check(MV_E_HANDLE as i32),
        Err(MvsError::Handle)
    ));
    assert!(matches!(check(1), Err(MvsError::Unknown(1))));
    assert!(matches!(check(-1), Err(MvsError::Unknown(0xFFFF_FFFF))));
    assert_eq!(
        MvsError::from(MV_E_BUSY as i32).raw_code(),
        MvsError::from(MV_E_BUSY).raw_code()
    );
}

#[test]
fn local_errors_have_no_code() {
    let nul = SdkText::new(b"a\0b").err().unwrap();
    let rollback = MvsError::OpenRollback {
        open: Box::new(MvsError::AccessDenied),
        destroy: Box::new(MvsError::Handle),
    };
    let locals = [
        nul,
        rollback,
        MvsError::UnsupportedPlatform,
        MvsError::InvalidState("reason"),
        MvsError::NullHandleAfterCreate,
        MvsError::NativeHandlesLive,
    ];
    for error in locals {
        assert_eq!(error.raw_code(), None);
    }
}

#[test]
fn cleanup_error_separates_destruction_from_what_came_before() {
    let error = CleanupError::new(vec![
        CleanupFailure {
            step: CleanupStep::UnregisterImageCallback,
            error: MvsError::Resource,
        },
        CleanupFailure {
            step: CleanupStep::DestroyHandle,
            error: MvsError::Busy,
        },
    ]);
    assert_eq!(
        error.first_prior_failure().unwrap().step,
        CleanupStep::UnregisterImageCallback
    );
    assert_eq!(error.destroy_error().unwrap().raw_code(), Some(MV_E_BUSY));
    assert!(!error.native_handle_destroyed());
    assert_eq!(error.failures().len(), 2);

    let refused = CleanupError::new(vec![CleanupFailure {
        step: CleanupStep::DrainCallbacks,
        error: MvsError::InvalidState("reason"),
    }]);
    assert!(!refused.native_handle_destroyed());
    assert!(refused.destroy_error().is_none());
}

#[test]
fn shutdown_error_hands_the_entry_back_only_when_recoverable() {
    let sdk = Sdk::initialize_done(0).unwrap();
    let recoverable = ShutdownError::recoverable(sdk, MvsError::InvalidState("reason"));
    assert!(matches!(
        recoverable.source(),
        Some(MvsError::InvalidState("reason"))
    ));
    assert!(recoverable.into_sdk().is_some());
    let terminal = ShutdownError::terminal(MvsError::NativeHandlesLive);
    assert!(matches!(
        terminal.source(),
        Some(MvsError::NativeHandlesLive)
    ));
    assert!(terminal.into_sdk().is_none());
}

#[test]
fn messages_are_exact() {
    assert_eq!(MvsError::Handle.message(), "invalid handle");
    assert_eq!(
        MvsError::Unknown(0xDEAD_BEEF).message(),
        "unknown MVS error code: 0xDEADBEEF"
    );
    assert_eq!(
        MvsError::Unknown(0x1A).message(),
        "unknown MVS error code: 0x0000001A"
    );
    assert_eq!(
        MvsError::InvalidState("camera must be stopped").message(),
        "invalid state: camera must be stopped"
    );
    assert_eq!(
        SdkText::new(b"a\0b").err().unwrap().message(),
        "string contains interior NUL byte: nul byte found in provided data at position: 1"
    );
    let rollback = MvsError::OpenRollback {
        open: Box::new(MvsError::AccessDenied),
        destroy: Box::new(MvsError::Handle),
    };
    assert_eq!(
        rollback.message(),
        "camera open failed (GigE: access denied); rollback handle destruction also failed \
         (invalid handle)"
    );
    let cleanup = CleanupError::new(vec![
        CleanupFailure {
            step: CleanupStep::CloseDevice,
            error: MvsError::Net,
        },
        CleanupFailure {
            step: CleanupStep::DestroyHandle,
            error: MvsError::Handle,
        },
    ]);
    assert_eq!(
        cleanup.message(),
        "camera cleanup failed in 2 step(s); close device: GigE: network error; destroy handle: \
         invalid handle"
    );
    assert_eq!(CleanupStep::StopGrabbing.operation(), "MV_CC_StopGrabbing");
    let in_use = ShutdownError::InUse {
        live_cameras: 12,
        active_callbacks: 0,
    };
    assert_eq!(
        in_use.message(),
        "MVS SDK is still in use by 12 camera(s) and 0 callback(s)"
    );
    let orphaned = ShutdownError::UnresolvedResources {
        orphaned_handles: 1,
    };
    assert_eq!(
        orphaned.message(),
        "MVS SDK cannot be finalized because 1 native handle(s) could not be destroyed"
    );
    let unknown = ShutdownError::StateUnknown {
        finalize_code: Some(MV_E_BUSY),
    };
    assert_eq!(
        unknown.message(),
        "MVS SDK state is unknown after finalization failed with 0x80000204"
    );
    let finalize = ShutdownError::Finalize(MvsError::Busy);
    assert_eq!(
        finalize.message(),
        "MVS SDK finalization failed: GigE: device busy or network disconnected"
    );
}
