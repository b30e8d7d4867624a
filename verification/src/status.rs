//! The one place where the driver's status numbers are interpreted.
//!
//! Every status that a driver entry point returns goes through
//! [`ToResult::to_result`] before anything else looks at it. Success becomes
//! `Ok(())`; a status from the driver's table becomes the kind that carries the
//! same number; any other number becomes [`CudaError::UnknownError`].

use vstd::prelude::*;
use crate::error::{CudaError, CudaResult, DropResult, SUCCESS_CODE};

verus! {

/// Whether `code` is a failure status in the driver's table, that is, whether some
/// kind mirrored from the driver carries it.
pub open spec fn is_documented(code: u32) -> bool {
    exists|k: CudaError| #[trigger] k.spec_is_driver_origin() && k.spec_code() == code
}

/// The kind that a failure status turns into: the one that carries the status's
/// number if there is one, the unknown kind otherwise.
pub open spec fn kind_of_status(code: u32) -> CudaError {
    if is_documented(code) {
        choose|k: CudaError| #[trigger] k.spec_is_driver_origin() && k.spec_code() == code
    } else {
        CudaError::UnknownError
    }
}

/// What a status number converts to.
pub open spec fn status_outcome(code: u32) -> CudaResult<()> {
    if code == SUCCESS_CODE {
        Ok(())
    } else {
        Err(kind_of_status(code))
    }
}

/// The driver's table read status by status: the kind that mirrors `code`, if
/// there is one. This is [`kind_of_status`] in closed form, for reasoning about a
/// given status.
pub open spec fn documented_kind(code: u32) -> Option<CudaError> {
    match code {
        1 => Some(CudaError::InvalidValue),
        2 => Some(CudaError::OutOfMemory),
        3 => Some(CudaError::NotInitialized),
        4 => Some(CudaError::Deinitialized),
        5 => Some(CudaError::ProfilerDisabled),
        6 => Some(CudaError::ProfilerNotInitialized),
        7 => Some(CudaError::ProfilerAlreadyStarted),
        8 => Some(CudaError::ProfilerAlreadyStopped),
        100 => Some(CudaError::NoDevice),
        101 => Some(CudaError::InvalidDevice),
        200 => Some(CudaError::InvalidImage),
        201 => Some(CudaError::InvalidContext),
        202 => Some(CudaError::ContextAlreadyCurrent),
        205 => Some(CudaError::MapFailed),
        206 => Some(CudaError::UnmapFailed),
        207 => Some(CudaError::ArrayIsMapped),
        208 => Some(CudaError::AlreadyMapped),
        209 => Some(CudaError::NoBinaryForGpu),
        210 => Some(CudaError::AlreadyAcquired),
        211 => Some(CudaError::NotMapped),
        212 => Some(CudaError::NotMappedAsArray),
        213 => Some(CudaError::NotMappedAsPointer),
        214 => Some(CudaError::EccUncorrectable),
        215 => Some(CudaError::UnsupportedLimit),
        216 => Some(CudaError::ContextAlreadyInUse),
        217 => Some(CudaError::PeerAccessUnsupported),
        218 => Some(CudaError::InvalidPtx),
        219 => Some(CudaError::InvalidGraphicsContext),
        220 => Some(CudaError::NvlinkUncorrectable),
        300 => Some(CudaError::InvalidSource),
        301 => Some(CudaError::FileNotFound),
        302 => Some(CudaError::SharedObjectSymbolNotFound),
        303 => Some(CudaError::SharedObjectInitFailed),
        304 => Some(CudaError::OperatingSystemError),
        400 => Some(CudaError::InvalidHandle),
        500 => Some(CudaError::NotFound),
        600 => Some(CudaError::NotReady),
        700 => Some(CudaError::IllegalAddress),
        701 => Some(CudaError::LaunchOutOfResources),
        702 => Some(CudaError::LaunchTimeout),
        703 => Some(CudaError::LaunchIncompatibleTexturing),
        704 => Some(CudaError::PeerAccessAlreadyEnabled),
        705 => Some(CudaError::PeerAccessNotEnabled),
        708 => Some(CudaError::PrimaryContextActive),
        709 => Some(CudaError::ContextIsDestroyed),
        710 => Some(CudaError::AssertError),
        711 => Some(CudaError::TooManyPeers),
        712 => Some(CudaError::HostMemoryAlreadyRegistered),
        713 => Some(CudaError::HostMemoryNotRegistered),
        714 => Some(CudaError::HardwareStackError),
        715 => Some(CudaError::IllegalInstruction),
        716 => Some(CudaError::MisalignedAddress),
        717 => Some(CudaError::InvalidAddressSpace),
        718 => Some(CudaError::InvalidProgramCounter),
        719 => Some(CudaError::LaunchFailed),
        800 => Some(CudaError::NotPermitted),
        801 => Some(CudaError::NotSupported),
        802 => Some(CudaError::SystemNotReady),
        803 => Some(CudaError::SystemDriverMismatch),
        804 => Some(CudaError::CompatNotSupportedOnDevice),
        900 => Some(CudaError::StreamCaptureUnsupported),
        901 => Some(CudaError::StreamCaptureInvalidated),
        902 => Some(CudaError::StreamCaptureMerge),
        903 => Some(CudaError::StreamCaptureUnmatched),
        904 => Some(CudaError::StreamCaptureUnjoined),
        905 => Some(CudaError::StreamCaptureIsolation),
        906 => Some(CudaError::StreamCaptureImplicit),
        907 => Some(CudaError::CapturedEvent),
        908 => Some(CudaError::StreamCaptureWrongThread),
        909 => Some(CudaError::Timeout),
        910 => Some(CudaError::GraphExecUpdateFailure),
        999 => Some(CudaError::UnknownError),
        _ => None,
    }
}

/// Conversion of a driver status into a result.
pub trait ToResult: Sized {
    /// The number that this status stands for.
    spec fn status_code(self) -> u32;

    /// `Ok(())` for the success status, otherwise the kind for the failure. The
    /// conversion is total, and a failure is always a kind mirrored from the
    /// driver.
    fn to_result(self) -> (r: CudaResult<()>)
        ensures
            r == status_outcome(self.status_code()),
            r is Ok <==> self.status_code() == SUCCESS_CODE,
            r matches Err(kind) ==> kind.spec_is_driver_origin(),
            documented_kind(self.status_code()) matches Some(kind) ==> r == Err::<(), CudaError>(
                kind,
            ),
    ;
}

impl ToResult for u32 {
    open spec fn status_code(self) -> u32 {
        self
    }

    fn to_result(self) -> (r: CudaResult<()>) {
        let r = match self {
            0 => Ok(()),
            1 => Err(CudaError::InvalidValue),
            2 => Err(CudaError::OutOfMemory),
            3 => Err(CudaError::NotInitialized),
            4 => Err(CudaError::Deinitialized),
            5 => Err(CudaError::ProfilerDisabled),
            6 => Err(CudaError::ProfilerNotInitialized),
            7 => Err(CudaError::ProfilerAlreadyStarted),
            8 => Err(CudaError::ProfilerAlreadyStopped),
            100 => Err(CudaError::NoDevice),
            101 => Err(CudaError::InvalidDevice),
            200 => Err(CudaError::InvalidImage),
            201 => Err(CudaError::InvalidContext),
            202 => Err(CudaError::ContextAlreadyCurrent),
            205 => Err(CudaError::MapFailed),
            206 => Err(CudaError::UnmapFailed),
            207 => Err(CudaError::ArrayIsMapped),
            208 => Err(CudaError::AlreadyMapped),
            209 => Err(CudaError::NoBinaryForGpu),
            210 => Err(CudaError::AlreadyAcquired),
            211 => Err(CudaError::NotMapped),
            212 => Err(CudaError::NotMappedAsArray),
            213 => Err(CudaError::NotMappedAsPointer),
            214 => Err(CudaError::EccUncorrectable),
            215 => Err(CudaError::UnsupportedLimit),
            216 => Err(CudaError::ContextAlreadyInUse),
            217 => Err(CudaError::PeerAccessUnsupported),
            218 => Err(CudaError::InvalidPtx),
            219 => Err(CudaError::InvalidGraphicsContext),
            220 => Err(CudaError::NvlinkUncorrectable),
            300 => Err(CudaError::InvalidSource),
            301 => Err(CudaError::FileNotFound),
            302 => Err(CudaError::SharedObjectSymbolNotFound),
            303 => Err(CudaError::SharedObjectInitFailed),
            304 => Err(CudaError::OperatingSystemError),
            400 => Err(CudaError::InvalidHandle),
            500 => Err(CudaError::NotFound),
            600 => Err(CudaError::NotReady),
            700 => Err(CudaError::IllegalAddress),
            701 => Err(CudaError::LaunchOutOfResources),
            702 => Err(CudaError::LaunchTimeout),
            703 => Err(CudaError::LaunchIncompatibleTexturing),
            704 => Err(CudaError::PeerAccessAlreadyEnabled),
            705 => Err(CudaError::PeerAccessNotEnabled),
            708 => Err(CudaError::PrimaryContextActive),
            709 => Err(CudaError::ContextIsDestroyed),
            710 => Err(CudaError::AssertError),
            711 => Err(CudaError::TooManyPeers),
            712 => Err(CudaError::HostMemoryAlreadyRegistered),
            713 => Err(CudaError::HostMemoryNotRegistered),
            714 => Err(CudaError::HardwareStackError),
            715 => Err(CudaError::IllegalInstruction),
            716 => Err(CudaError::MisalignedAddress),
            717 => Err(CudaError::InvalidAddressSpace),
            718 => Err(CudaError::InvalidProgramCounter),
            719 => Err(CudaError::LaunchFailed),
            800 => Err(CudaError::NotPermitted),
            801 => Err(CudaError::NotSupported),
            802 => Err(CudaError::SystemNotReady),
            803 => Err(CudaError::SystemDriverMismatch),
            804 => Err(CudaError::CompatNotSupportedOnDevice),
            900 => Err(CudaError::StreamCaptureUnsupported),
            901 => Err(CudaError::StreamCaptureInvalidated),
            902 => Err(CudaError::StreamCaptureMerge),
            903 => Err(CudaError::StreamCaptureUnmatched),
            904 => Err(CudaError::StreamCaptureUnjoined),
            905 => Err(CudaError::StreamCaptureIsolation),
            906 => Err(CudaError::StreamCaptureImplicit),
            907 => Err(CudaError::CapturedEvent),
            908 => Err(CudaError::StreamCaptureWrongThread),
            909 => Err(CudaError::Timeout),
            910 => Err(CudaError::GraphExecUpdateFailure),
            _ => Err(CudaError::UnknownError),
        };
        proof {
            // The kind found carries this very status, so it is the witness that the
            // status is in the table; no other kind carries the same number.
            if let Err(kind) = r {
                if kind != CudaError::UnknownError || self == 999 {
                    assert(kind.spec_is_driver_origin() && kind.spec_code() == self);
                }
            }
        }
        r
    }
}

/// What a release that ended with status `code` returns for `resource`.
pub open spec fn drop_outcome<T>(code: u32, resource: T) -> DropResult<T> {
    match status_outcome(code) {
        Ok(_) => Ok(()),
        Err(kind) => Err((kind, resource)),
    }
}

/// Pairs the outcome of a release with the resource that was to be released: a
/// failed release hands the resource back beside the kind, a successful one
/// consumes it.
pub fn to_drop_result<S: ToResult, T>(status: S, resource: T) -> (r: DropResult<T>)
    ensures
        r == drop_outcome(status.status_code(), resource),
        r is Ok <==> status.status_code() == SUCCESS_CODE,
        documented_kind(status.status_code()) matches Some(kind) ==> r == Err::<
            (),
            (CudaError, T),
        >((kind, resource)),
{
    match status.to_result() {
        Ok(()) => Ok(()),
        Err(kind) => Err((kind, resource)),
    }
}

} // verus!
