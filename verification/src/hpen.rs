//! The pen handle and its method surface.
//!
//! Pens are drawing objects owned by the native API. The creation entry
//! points return a handle with null as their failure sentinel; on failure
//! the platform error code is read at the call site. A created pen must be
//! deleted again, so the creation methods hand back an armed [`Guard`]
//! bound to the object-delete entry point. Stock pens are owned by the
//! system and must never be deleted, so the stock-object lookup returns a
//! bare handle without a guard.

#![allow(non_camel_case_types)]
#![allow(non_snake_case)]

use vstd::prelude::*;

use crate::guard::{Guard, GuardView, ResourceKind};
use crate::hresult::SysResult;

verus! {

/// Handle to a native pen, with null standing for "no pen".
#[derive(Clone, Copy, PartialEq, Eq, Structural, Debug)]
pub struct HPEN(pub usize);

impl gdi_Hpen for HPEN {
    open spec fn spec_ptr(&self) -> usize {
        self.0
    }

    fn ptr(&self) -> usize {
        self.0
    }
}

/// Methods of the pen handle. Each one translates what the native entry
/// point of the same name returned.
pub trait gdi_Hpen: Sized {
    /// The raw handle value.
    spec fn spec_ptr(&self) -> usize;

    /// The raw handle value.
    fn ptr(&self) -> (p: usize)
        ensures
            p == self.spec_ptr(),
    ;

    /// Outcome of the native pen-creation call: `raw` is the handle of
    /// the new pen, with null signaling failure, and `last_error` is the
    /// platform error code read after the call. The new pen is owned by
    /// the returned guard, bound to the object-delete entry point.
    fn CreatePen(raw: usize, last_error: u32) -> (r: SysResult<Guard>)
        ensures
            raw == 0 ==> (r matches Err(e) && e == last_error),
            raw != 0 ==> (r matches Ok(g) && g@ == (GuardView {
                kind: ResourceKind::GdiObjectDelete,
                handle: raw,
            })),
    {
        delete_guard_or_last_error(raw, last_error)
    }

    /// Outcome of the native indirect pen-creation call, which creates a
    /// pen from a parameter block: the same translation as
    /// [`Self::CreatePen`].
    fn CreatePenIndirect(raw: usize, last_error: u32) -> (r: SysResult<Guard>)
        ensures
            raw == 0 ==> (r matches Err(e) && e == last_error),
            raw != 0 ==> (r matches Ok(g) && g@ == (GuardView {
                kind: ResourceKind::GdiObjectDelete,
                handle: raw,
            })),
    {
        delete_guard_or_last_error(raw, last_error)
    }

    /// Outcome of the native stock-object lookup: `raw` is the handle of
    /// a system-owned pen, with null signaling failure, and `last_error`
    /// is the platform error code read after the call. Stock objects are
    /// never deleted, so no guard is produced.
    fn GetStockObject(raw: usize, last_error: u32) -> (r: SysResult<HPEN>)
        ensures
            raw == 0 ==> (r matches Err(e) && e == last_error),
            raw != 0 ==> (r matches Ok(h) && h == (HPEN(raw))),
    {
        if raw == 0 {
            Err(last_error)
        } else {
            Ok(HPEN(raw))
        }
    }
}

/// Translates a native handle return with null as its failure sentinel
/// into a guard bound to the object-delete entry point.
fn delete_guard_or_last_error(raw: usize, last_error: u32) -> (r: SysResult<Guard>)
    ensures
        raw == 0 ==> (r matches Err(e) && e == last_error),
        raw != 0 ==> (r matches Ok(g) && g@ == (GuardView {
            kind: ResourceKind::GdiObjectDelete,
            handle: raw,
        })),
{
    match Guard::acquire(ResourceKind::GdiObjectDelete, raw, last_error) {
        Ok(g) => Ok(g),
        Err(_) => Err(last_error),
    }
}

} // verus!
