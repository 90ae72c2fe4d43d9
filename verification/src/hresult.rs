//! COM/platform result codes.
//!
//! An `HRESULT` packs a severity bit (the topmost bit) and an error code in
//! one 32-bit value: values with the severity bit clear are success or
//! status codes, values with it set are failures. This module carries the
//! generic codes the wrappers use plus the result codes of the graphics
//! infrastructure subsystem.

use vstd::prelude::*;

verus! {

/// The generic success code.
pub const S_OK: u32 = 0x0000_0000;

/// The unspecified-failure code the wrappers translate sentinel returns
/// into.
pub const E_FAIL: u32 = 0x8000_4005;

pub const DXGI_STATUS_OCCLUDED: u32 = 0x087a_0001;

pub const DXGI_STATUS_CLIPPED: u32 = 0x087a_0002;

pub const DXGI_STATUS_NO_REDIRECTION: u32 = 0x087a_0004;

pub const DXGI_STATUS_NO_DESKTOP_ACCESS: u32 = 0x087a_0005;

pub const DXGI_STATUS_GRAPHICS_VIDPN_SOURCE_IN_USE: u32 = 0x087a_0006;

pub const DXGI_STATUS_MODE_CHANGED: u32 = 0x087a_0007;

pub const DXGI_STATUS_MODE_CHANGE_IN_PROGRESS: u32 = 0x087a_0008;

pub const DXGI_STATUS_UNOCCLUDED: u32 = 0x087a_0009;

pub const DXGI_STATUS_DDA_WAS_STILL_DRAWING: u32 = 0x087a_000a;

pub const DXGI_STATUS_PRESENT_REQUIRED: u32 = 0x087a_002f;

pub const DXGI_ERROR_INVALID_CALL: u32 = 0x887a_0001;

pub const DXGI_ERROR_NOT_FOUND: u32 = 0x887a_0002;

pub const DXGI_ERROR_MORE_DATA: u32 = 0x887a_0003;

pub const DXGI_ERROR_UNSUPPORTED: u32 = 0x887a_0004;

pub const DXGI_ERROR_DEVICE_REMOVED: u32 = 0x887a_0005;

pub const DXGI_ERROR_DEVICE_HUNG: u32 = 0x887a_0006;

pub const DXGI_ERROR_DEVICE_RESET: u32 = 0x887a_0007;

pub const DXGI_ERROR_WAS_STILL_DRAWING: u32 = 0x887a_000a;

pub const DXGI_ERROR_FRAME_STATISTICS_DISJOINT: u32 = 0x887a_000b;

pub const DXGI_ERROR_GRAPHICS_VIDPN_SOURCE_IN_USE: u32 = 0x887a_000c;

pub const DXGI_ERROR_DRIVER_INTERNAL_ERROR: u32 = 0x887a_0020;

pub const DXGI_ERROR_NONEXCLUSIVE: u32 = 0x887a_0021;

pub const DXGI_ERROR_NOT_CURRENTLY_AVAILABLE: u32 = 0x887a_0022;

pub const DXGI_ERROR_REMOTE_CLIENT_DISCONNECTED: u32 = 0x887a_0023;

pub const DXGI_ERROR_REMOTE_OUTOFMEMORY: u32 = 0x887a_0024;

pub const DXGI_ERROR_MODE_CHANGE_IN_PROGRESS: u32 = 0x887a_0025;

pub const DXGI_ERROR_ACCESS_LOST: u32 = 0x887a_0026;

pub const DXGI_ERROR_WAIT_TIMEOUT: u32 = 0x887a_0027;

pub const DXGI_ERROR_SESSION_DISCONNECTED: u32 = 0x887a_0028;

pub const DXGI_ERROR_RESTRICT_TO_OUTPUT_STALE: u32 = 0x887a_0029;

pub const DXGI_ERROR_CANNOT_PROTECT_CONTENT: u32 = 0x887a_002a;

pub const DXGI_ERROR_ACCESS_DENIED: u32 = 0x887a_002b;

pub const DXGI_ERROR_NAME_ALREADY_EXISTS: u32 = 0x887a_002c;

pub const DXGI_ERROR_SDK_COMPONENT_MISSING: u32 = 0x887a_002d;

pub const DXGI_ERROR_NOT_CURRENT: u32 = 0x887a_002e;

pub const DXGI_ERROR_HW_PROTECTION_OUTOFMEMORY: u32 = 0x887a_0030;

pub const DXGI_ERROR_DYNAMIC_CODE_POLICY_VIOLATION: u32 = 0x887a_0031;

pub const DXGI_ERROR_NON_COMPOSITED_UI: u32 = 0x887a_0032;

pub const DXGI_ERROR_CACHE_CORRUPT: u32 = 0x887a_0033;

pub const DXGI_ERROR_CACHE_FULL: u32 = 0x887a_0034;

pub const DXGI_ERROR_CACHE_HASH_COLLISION: u32 = 0x887a_0035;

pub const DXGI_ERROR_ALREADY_EXISTS: u32 = 0x887a_0036;

pub const DXGI_DDI_ERR_WASSTILLDRAWING: u32 = 0x887b_0001;

pub const DXGI_DDI_ERR_UNSUPPORTED: u32 = 0x887b_0002;

pub const DXGI_DDI_ERR_NONEXCLUSIVE: u32 = 0x887b_0003;

/// A platform result code: severity bit plus error code in one value.
#[derive(Clone, Copy, PartialEq, Eq, Structural, Debug)]
pub struct HRESULT(pub u32);

impl HRESULT {
    /// The underlying 32-bit value.
    pub open spec fn spec_raw(self) -> u32 {
        self.0
    }

    /// A code is a failure exactly when its severity bit, the topmost bit,
    /// is set.
    pub open spec fn spec_is_error(self) -> bool {
        self.0 >= 0x8000_0000
    }

    /// Wraps a raw 32-bit result code.
    pub fn from_raw(raw: u32) -> (r: HRESULT)
        ensures
            r.spec_raw() == raw,
    {
        HRESULT(raw)
    }

    /// The underlying 32-bit value.
    pub fn raw(self) -> (r: u32)
        ensures
            r == self.spec_raw(),
    {
        self.0
    }

    /// Whether this code signals failure (severity bit set).
    pub fn is_error(self) -> (b: bool)
        ensures
            b == self.spec_is_error(),
    {
        self.0 >= 0x8000_0000
    }
}

/// Translates a native boolean status into a result: the native calls
/// report failure as zero and success as any other value.
pub fn zero_as_fail(status: i32) -> (r: Result<(), HRESULT>)
    ensures
        status == 0 ==> (r matches Err(e) && e == (HRESULT(E_FAIL))),
        status != 0 ==> r is Ok,
{
    if status == 0 {
        Err(HRESULT::from_raw(E_FAIL))
    } else {
        Ok(())
    }
}

/// Result of an operation whose failures are reported as an [`HRESULT`].
pub type HrResult<T> = Result<T, HRESULT>;

/// Result of an operation whose failures are reported as a plain platform
/// error code.
pub type SysResult<T> = Result<T, u32>;

} // verus!
