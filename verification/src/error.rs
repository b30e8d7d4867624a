//! The closed set of failure kinds, and the number behind each of them.
//!
//! A kind either mirrors a status of the driver, or is minted by the binding for a
//! condition that the driver has no status for. The two groups live in disjoint
//! numeric ranges: the driver's statuses are at most [`DRIVER_CODE_MAX`], the
//! binding's own start at [`BINDING_CODE_MIN`].

use vstd::prelude::*;

verus! {

/// The largest numeric identity that a kind mirrored from the driver carries.
pub const DRIVER_CODE_MAX: u32 = 999;

/// The smallest numeric identity that a kind minted by the binding carries.
pub const BINDING_CODE_MIN: u32 = 100_000;

/// The driver's status for a call that succeeded. No kind carries it.
pub const SUCCESS_CODE: u32 = 0;

/// Every failure that the binding can surface.
///
/// New driver releases add statuses, so the set may grow: code outside this crate
/// has to match with a catch-all arm.
#[non_exhaustive]
#[allow(missing_docs)]
#[derive(Clone, Copy, Debug, PartialEq, Eq, Hash, Structural)]
pub enum CudaError {
    // Mirrored from the driver.
    InvalidValue,
    OutOfMemory,
    NotInitialized,
    Deinitialized,
    ProfilerDisabled,
    ProfilerNotInitialized,
    ProfilerAlreadyStarted,
    ProfilerAlreadyStopped,
    NoDevice,
    InvalidDevice,
    InvalidImage,
    InvalidContext,
    ContextAlreadyCurrent,
    MapFailed,
    UnmapFailed,
    ArrayIsMapped,
    AlreadyMapped,
    NoBinaryForGpu,
    AlreadyAcquired,
    NotMapped,
    NotMappedAsArray,
    NotMappedAsPointer,
    EccUncorrectable,
    UnsupportedLimit,
    ContextAlreadyInUse,
    PeerAccessUnsupported,
    InvalidPtx,
    InvalidGraphicsContext,
    NvlinkUncorrectable,
    InvalidSource,
    FileNotFound,
    SharedObjectSymbolNotFound,
    SharedObjectInitFailed,
    OperatingSystemError,
    InvalidHandle,
    NotFound,
    NotReady,
    IllegalAddress,
    LaunchOutOfResources,
    LaunchTimeout,
    LaunchIncompatibleTexturing,
    PeerAccessAlreadyEnabled,
    PeerAccessNotEnabled,
    PrimaryContextActive,
    ContextIsDestroyed,
    AssertError,
    TooManyPeers,
    HostMemoryAlreadyRegistered,
    HostMemoryNotRegistered,
    HardwareStackError,
    IllegalInstruction,
    MisalignedAddress,
    InvalidAddressSpace,
    InvalidProgramCounter,
    LaunchFailed,
    NotPermitted,
    NotSupported,
    SystemNotReady,
    SystemDriverMismatch,
    CompatNotSupportedOnDevice,
    StreamCaptureUnsupported,
    StreamCaptureInvalidated,
    StreamCaptureMerge,
    StreamCaptureUnmatched,
    StreamCaptureUnjoined,
    StreamCaptureIsolation,
    StreamCaptureImplicit,
    CapturedEvent,
    StreamCaptureWrongThread,
    Timeout,
    GraphExecUpdateFailure,
    UnknownError,
    // Minted by the binding.
    InvalidMemoryAllocation,
}

/// Result of a fallible operation of the binding.
pub type CudaResult<T> = Result<T, CudaError>;

/// Result of an explicit release: on failure the resource that was not released
/// comes back beside the kind, so that the caller can retry or keep it.
pub type DropResult<T> = Result<(), (CudaError, T)>;

impl CudaError {
    /// The numeric identity of a kind. For a kind mirrored from the driver this is
    /// the driver's own status code.
    pub open spec fn spec_code(self) -> u32 {
        match self {
            CudaError::InvalidValue => 1,
            CudaError::OutOfMemory => 2,
            CudaError::NotInitialized => 3,
            CudaError::Deinitialized => 4,
            CudaError::ProfilerDisabled => 5,
            CudaError::ProfilerNotInitialized => 6,
            CudaError::ProfilerAlreadyStarted => 7,
            CudaError::ProfilerAlreadyStopped => 8,
            CudaError::NoDevice => 100,
            CudaError::InvalidDevice => 101,
            CudaError::InvalidImage => 200,
            CudaError::InvalidContext => 201,
            CudaError::ContextAlreadyCurrent => 202,
            CudaError::MapFailed => 205,
            CudaError::UnmapFailed => 206,
            CudaError::ArrayIsMapped => 207,
            CudaError::AlreadyMapped => 208,
            CudaError::NoBinaryForGpu => 209,
            CudaError::AlreadyAcquired => 210,
            CudaError::NotMapped => 211,
            CudaError::NotMappedAsArray => 212,
            CudaError::NotMappedAsPointer => 213,
            CudaError::EccUncorrectable => 214,
            CudaError::UnsupportedLimit => 215,
            CudaError::ContextAlreadyInUse => 216,
            CudaError::PeerAccessUnsupported => 217,
            CudaError::InvalidPtx => 218,
            CudaError::InvalidGraphicsContext => 219,
            CudaError::NvlinkUncorrectable => 220,
            CudaError::InvalidSource => 300,
            CudaError::FileNotFound => 301,
            CudaError::SharedObjectSymbolNotFound => 302,
            CudaError::SharedObjectInitFailed => 303,
            CudaError::OperatingSystemError => 304,
            CudaError::InvalidHandle => 400,
            CudaError::NotFound => 500,
            CudaError::NotReady => 600,
            CudaError::IllegalAddress => 700,
            CudaError::LaunchOutOfResources => 701,
            CudaError::LaunchTimeout => 702,
            CudaError::LaunchIncompatibleTexturing => 703,
            CudaError::PeerAccessAlreadyEnabled => 704,
            CudaError::PeerAccessNotEnabled => 705,
            CudaError::PrimaryContextActive => 708,
            CudaError::ContextIsDestroyed => 709,
            CudaError::AssertError => 710,
            CudaError::TooManyPeers => 711,
            CudaError::HostMemoryAlreadyRegistered => 712,
            CudaError::HostMemoryNotRegistered => 713,
            CudaError::HardwareStackError => 714,
            CudaError::IllegalInstruction => 715,
            CudaError::MisalignedAddress => 716,
            CudaError::InvalidAddressSpace => 717,
            CudaError::InvalidProgramCounter => 718,
            CudaError::LaunchFailed => 719,
            CudaError::NotPermitted => 800,
            CudaError::NotSupported => 801,
            CudaError::SystemNotReady => 802,
            CudaError::SystemDriverMismatch => 803,
            CudaError::CompatNotSupportedOnDevice => 804,
            CudaError::StreamCaptureUnsupported => 900,
            CudaError::StreamCaptureInvalidated => 901,
            CudaError::StreamCaptureMerge => 902,
            CudaError::StreamCaptureUnmatched => 903,
            CudaError::StreamCaptureUnjoined => 904,
            CudaError::StreamCaptureIsolation => 905,
            CudaError::StreamCaptureImplicit => 906,
            CudaError::CapturedEvent => 907,
            CudaError::StreamCaptureWrongThread => 908,
            CudaError::Timeout => 909,
            CudaError::GraphExecUpdateFailure => 910,
            CudaError::UnknownError => 999,
            CudaError::InvalidMemoryAllocation => 100100,
        }
    }

    /// Whether the binding itself, and not the driver, detects this kind.
    pub open spec fn spec_is_binding_origin(self) -> bool {
        self == CudaError::InvalidMemoryAllocation
    }

    /// Whether this kind mirrors a status of the driver.
    pub open spec fn spec_is_driver_origin(self) -> bool {
        !self.spec_is_binding_origin()
    }

    /// The numeric identity of this kind.
    #[verifier::when_used_as_spec(spec_code)]
    pub fn code(self) -> (c: u32)
        ensures
            c == self.spec_code(),
            self.is_driver_origin() ==> 1 <= c <= DRIVER_CODE_MAX,
            self.is_binding_origin() ==> c >= BINDING_CODE_MIN,
    {
        match self {
            CudaError::InvalidValue => 1,
            CudaError::OutOfMemory => 2,
            CudaError::NotInitialized => 3,
            CudaError::Deinitialized => 4,
            CudaError::ProfilerDisabled => 5,
            CudaError::ProfilerNotInitialized => 6,
            CudaError::ProfilerAlreadyStarted => 7,
            CudaError::ProfilerAlreadyStopped => 8,
            CudaError::NoDevice => 100,
            CudaError::InvalidDevice => 101,
            CudaError::InvalidImage => 200,
            CudaError::InvalidContext => 201,
            CudaError::ContextAlreadyCurrent => 202,
            CudaError::MapFailed => 205,
            CudaError::UnmapFailed => 206,
            CudaError::ArrayIsMapped => 207,
            CudaError::AlreadyMapped => 208,
            CudaError::NoBinaryForGpu => 209,
            CudaError::AlreadyAcquired => 210,
            CudaError::NotMapped => 211,
            CudaError::NotMappedAsArray => 212,
            CudaError::NotMappedAsPointer => 213,
            CudaError::EccUncorrectable => 214,
            CudaError::UnsupportedLimit => 215,
            CudaError::ContextAlreadyInUse => 216,
            CudaError::PeerAccessUnsupported => 217,
            CudaError::InvalidPtx => 218,
            CudaError::InvalidGraphicsContext => 219,
            CudaError::NvlinkUncorrectable => 220,
            CudaError::InvalidSource => 300,
            CudaError::FileNotFound => 301,
            CudaError::SharedObjectSymbolNotFound => 302,
            CudaError::SharedObjectInitFailed => 303,
            CudaError::OperatingSystemError => 304,
            CudaError::InvalidHandle => 400,
            CudaError::NotFound => 500,
            CudaError::NotReady => 600,
            CudaError::IllegalAddress => 700,
            CudaError::LaunchOutOfResources => 701,
            CudaError::LaunchTimeout => 702,
            CudaError::LaunchIncompatibleTexturing => 703,
            CudaError::PeerAccessAlreadyEnabled => 704,
            CudaError::PeerAccessNotEnabled => 705,
            CudaError::PrimaryContextActive => 708,
            CudaError::ContextIsDestroyed => 709,
            CudaError::AssertError => 710,
            CudaError::TooManyPeers => 711,
            CudaError::HostMemoryAlreadyRegistered => 712,
            CudaError::HostMemoryNotRegistered => 713,
            CudaError::HardwareStackError => 714,
            CudaError::IllegalInstruction => 715,
            CudaError::MisalignedAddress => 716,
            CudaError::InvalidAddressSpace => 717,
            CudaError::InvalidProgramCounter => 718,
            CudaError::LaunchFailed => 719,
            CudaError::NotPermitted => 800,
            CudaError::NotSupported => 801,
            CudaError::SystemNotReady => 802,
            CudaError::SystemDriverMismatch => 803,
            CudaError::CompatNotSupportedOnDevice => 804,
            CudaError::StreamCaptureUnsupported => 900,
            CudaError::StreamCaptureInvalidated => 901,
            CudaError::StreamCaptureMerge => 902,
            CudaError::StreamCaptureUnmatched => 903,
            CudaError::StreamCaptureUnjoined => 904,
            CudaError::StreamCaptureIsolation => 905,
            CudaError::StreamCaptureImplicit => 906,
            CudaError::CapturedEvent => 907,
            CudaError::StreamCaptureWrongThread => 908,
            CudaError::Timeout => 909,
            CudaError::GraphExecUpdateFailure => 910,
            CudaError::UnknownError => 999,
            CudaError::InvalidMemoryAllocation => 100100,
        }
    }

    /// Whether the binding itself, and not the driver, detects this kind.
    #[verifier::when_used_as_spec(spec_is_binding_origin)]
    pub fn is_binding_origin(self) -> (b: bool)
        ensures
            b == self.spec_is_binding_origin(),
    {
        match self {
            CudaError::InvalidMemoryAllocation => true,
            _ => false,
        }
    }

    /// Whether this kind mirrors a status of the driver.
    #[verifier::when_used_as_spec(spec_is_driver_origin)]
    pub fn is_driver_origin(self) -> (b: bool)
        ensures
            b == self.spec_is_driver_origin(),
    {
        !self.is_binding_origin()
    }
}

} // verus!
