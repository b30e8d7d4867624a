use cuda_error::status::{to_drop_result, ToResult};
use cuda_error::{CudaError, CudaResult, DropResult};

fn driver_table() -> Vec<(u32, CudaError)> {
    vec![
        (1, CudaError::InvalidValue),
        (2, CudaError::OutOfMemory),
        (3, CudaError::NotInitialized),
        (4, CudaError::Deinitialized),
        (5, CudaError::ProfilerDisabled),
        (6, CudaError::ProfilerNotInitialized),
        (7, CudaError::ProfilerAlreadyStarted),
        (8, CudaError::ProfilerAlreadyStopped),
        (100, CudaError::NoDevice),
        (101, CudaError::InvalidDevice),
        (200, CudaError::InvalidImage),
        (201, CudaError::InvalidContext),
        (202, CudaError::ContextAlreadyCurrent),
        (205, CudaError::MapFailed),
        (206, CudaError::UnmapFailed),
        (207, CudaError::ArrayIsMapped),
        (208, CudaError::AlreadyMapped),
        (209, CudaError::NoBinaryForGpu),
        (210, CudaError::AlreadyAcquired),
        (211, CudaError::NotMapped),
        (212, CudaError::NotMappedAsArray),
        (213, CudaError::NotMappedAsPointer),
        (214, CudaError::EccUncorrectable),
        (215, CudaError::UnsupportedLimit),
        (216, CudaError::ContextAlreadyInUse),
        (217, CudaError::PeerAccessUnsupported),
        (218, CudaError::InvalidPtx),
        (219, CudaError::InvalidGraphicsContext),
        (220, CudaError::NvlinkUncorrectable),
        (300, CudaError::InvalidSource),
        (301, CudaError::FileNotFound),
        (302, CudaError::SharedObjectSymbolNotFound),
        (303, CudaError::SharedObjectInitFailed),
        (304, CudaError::OperatingSystemError),
        (400, CudaError::InvalidHandle),
        (500, CudaError::NotFound),
        (600, CudaError::NotReady),
        (700, CudaError::IllegalAddress),
        (701, CudaError::LaunchOutOfResources),
        (702, CudaError::LaunchTimeout),
        (703, CudaError::LaunchIncompatibleTexturing),
        (704, CudaError::PeerAccessAlreadyEnabled),
        (705, CudaError::PeerAccessNotEnabled),
        (708, CudaError::PrimaryContextActive),
        (709, CudaError::ContextIsDestroyed),
        (710, CudaError::AssertError),
        (711, CudaError::TooManyPeers),
        (712, CudaError::HostMemoryAlreadyRegistered),
        (713, CudaError::HostMemoryNotRegistered),
        (714, CudaError::HardwareStackError),
        (715, CudaError::IllegalInstruction),
        (716, CudaError::MisalignedAddress),
        (717, CudaError::InvalidAddressSpace),
        (718, CudaError::InvalidProgramCounter),
        (719, CudaError::LaunchFailed),
        (800, CudaError::NotPermitted),
        (801, CudaError::NotSupported),
        (802, CudaError::SystemNotReady),
        (803, CudaError::SystemDriverMismatch),
        (804, CudaError::CompatNotSupportedOnDevice),
        (900, CudaError::StreamCaptureUnsupported),
        (901, CudaError::StreamCaptureInvalidated),
        (902, CudaError::StreamCaptureMerge),
        (903, CudaError::StreamCaptureUnmatched),
        (904, CudaError::StreamCaptureUnjoined),
        (905, CudaError::StreamCaptureIsolation),
        (906, CudaError::StreamCaptureImplicit),
        (907, CudaError::CapturedEvent),
        (908, CudaError::StreamCaptureWrongThread),
        (909, CudaError::Timeout),
        (910, CudaError::GraphExecUpdateFailure),
        (999, CudaError::UnknownError),
    ]
}

#[test]
fn success_status_converts_to_ok() {
    let r: CudaResult<()> = 0u32.to_result();
    assert_eq!(r, Ok(()));
}

#[test]
fn out_of_memory_status_converts_to_its_kind() {
    assert_eq!(2u32.to_result(), Err(CudaError::OutOfMemory));
}

#[test]
fn illegal_address_status_converts_to_its_kind() {
    assert_eq!(700u32.to_result(), Err(CudaError::IllegalAddress));
}

#[test]
fn status_outside_the_table_converts_to_unknown() {
    assert_eq!(12345u32.to_result(), Err(CudaError::UnknownError));
}

#[test]
fn unknown_status_of_the_driver_converts_to_unknown() {
    assert_eq!(999u32.to_result(), Err(CudaError::UnknownError));
}

#[test]
fn every_status_in_the_table_converts_to_the_kind_that_carries_it() {
    let table = driver_table();
    assert_eq!(table.len(), 72);
    for (code, kind) in table {
        assert_eq!(code.to_result(), Err(kind));
        assert_eq!(kind.code(), code);
        assert!(kind.is_driver_origin());
    }
}

#[test]
fn only_the_success_status_converts_to_ok() {
    for code in 0u32..=2000 {
        assert_eq!(code.to_result().is_ok(), code == 0);
    }
    assert!(u32::MAX.to_result().is_err());
    assert!(100_100u32.to_result().is_err());
}

#[test]
fn statuses_in_the_gaps_of_the_table_collapse_to_unknown() {
    let table = driver_table();
    for code in 1u32..=2000 {
        if !table.iter().any(|(c, _)| *c == code) {
            assert_eq!(code.to_result(), Err(CudaError::UnknownError));
        }
    }
    for code in [9u32, 99, 102, 203, 204, 221, 305, 706, 707, 720, 805, 911, 998, 1000] {
        assert_eq!(code.to_result(), Err(CudaError::UnknownError));
    }
    assert_eq!(u32::MAX.to_result(), Err(CudaError::UnknownError));
}

#[test]
fn conversion_never_yields_a_kind_of_the_binding() {
    assert_eq!(100_100u32.to_result(), Err(CudaError::UnknownError));
    assert_eq!(100_000u32.to_result(), Err(CudaError::UnknownError));
    for code in 0u32..=2000 {
        if let Err(kind) = code.to_result() {
            assert!(kind.is_driver_origin());
            assert!(!kind.is_binding_origin());
        }
    }
}

#[test]
fn produced_kind_carries_the_status_it_came_from() {
    for (code, _) in driver_table() {
        match code.to_result() {
            Err(kind) => assert_eq!(kind.code(), code),
            Ok(()) => panic!("status {} is a failure", code),
        }
    }
}

#[test]
fn conversion_is_repeatable() {
    for code in [0u32, 2, 400, 700, 910, 999, 12345] {
        assert_eq!(code.to_result(), code.to_result());
    }
}

#[test]
fn later_driver_statuses_have_kinds_of_their_own() {
    assert_eq!(802u32.to_result(), Err(CudaError::SystemNotReady));
    assert_eq!(804u32.to_result(), Err(CudaError::CompatNotSupportedOnDevice));
    assert_eq!(900u32.to_result(), Err(CudaError::StreamCaptureUnsupported));
    assert_eq!(909u32.to_result(), Err(CudaError::Timeout));
    assert_eq!(910u32.to_result(), Err(CudaError::GraphExecUpdateFailure));
    assert_eq!(300u32.to_result(), Err(CudaError::InvalidSource));
}

#[derive(Debug, PartialEq)]
struct Handle {
    id: u64,
    label: String,
}

#[test]
fn failed_release_returns_the_resource() {
    let handle = Handle { id: 42, label: String::from("stream") };
    let r: DropResult<Handle> = to_drop_result(400u32, handle);
    match r {
        Err((kind, back)) => {
            assert_eq!(kind, CudaError::InvalidHandle);
            assert_eq!(back, Handle { id: 42, label: String::from("stream") });
        }
        Ok(()) => panic!("a release that failed must not report success"),
    }
}

#[test]
fn failed_release_returns_the_same_allocation() {
    let resource: std::rc::Rc<u64> = std::rc::Rc::new(7);
    let witness = std::rc::Rc::clone(&resource);
    match to_drop_result(400u32, resource) {
        Err((kind, back)) => {
            assert_eq!(kind, CudaError::InvalidHandle);
            assert!(std::rc::Rc::ptr_eq(&back, &witness));
            assert_eq!(*back, 7);
        }
        Ok(()) => panic!("a release that failed must not report success"),
    }
}

#[test]
fn successful_release_consumes_the_resource() {
    let r: DropResult<Vec<u8>> = to_drop_result(0u32, vec![1, 2, 3]);
    assert_eq!(r, Ok(()));
}

#[test]
fn release_with_unlisted_status_reports_unknown() {
    let r: DropResult<u8> = to_drop_result(12345u32, 5);
    assert_eq!(r, Err((CudaError::UnknownError, 5)));
}
