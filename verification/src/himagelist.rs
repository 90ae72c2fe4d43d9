//! The image-list handle and its method surface.
//!
//! An image list lives entirely inside the native API; this module holds
//! the typed decision layer around its calls. Each method receives the raw
//! value the corresponding native entry point returned — a handle with null
//! as its failure sentinel, an index with `-1` as its sentinel, or a
//! boolean status with zero as its sentinel — and translates it into a
//! typed result. Calls that create a resource of their own hand back an
//! armed [`Guard`] bound to the matching release entry point.

#![allow(non_camel_case_types)]
#![allow(non_snake_case)]

use vstd::prelude::*;

use crate::decl::{COLORREF, CLR_NONE, SIZE};
use crate::guard::{Guard, GuardView, ResourceKind};
use crate::hresult::{zero_as_fail, HrResult, E_FAIL, HRESULT};

verus! {

/// Handle to a native image list, with null standing for "no image list".
#[derive(Clone, Copy, PartialEq, Eq, Structural, Debug)]
pub struct HIMAGELIST(pub usize);

impl comctl_Himagelist for HIMAGELIST {
    open spec fn spec_ptr(&self) -> usize {
        self.0
    }

    fn ptr(&self) -> usize {
        self.0
    }
}

/// The native argument standing for an optional index: `-1` means "no
/// index" (the whole list, or "append").
pub fn index_arg(index: Option<u32>) -> (raw: i32)
    ensures
        index is None ==> raw == -1,
        index matches Some(i) ==> (i <= i32::MAX ==> raw == i),
{
    match index {
        None => -1,
        Some(i) =>
        #[verifier::truncate]
        (i as i32),
    }
}

/// The native argument standing for an optional background color: the
/// default (zero) color when none is given.
pub fn bk_color_arg(bk_color: Option<COLORREF>) -> (raw: u32)
    ensures
        bk_color is None ==> raw == 0,
        bk_color matches Some(c) ==> raw == c.spec_raw(),
{
    match bk_color {
        None => 0,
        Some(c) => c.raw(),
    }
}

/// The portion of each image that a draw call renders: the zero size — the
/// whole image — when none is given.
pub fn draw_portion(img_portion: Option<SIZE>) -> (s: SIZE)
    ensures
        img_portion is None ==> s == (SIZE { cx: 0, cy: 0 }),
        img_portion matches Some(p) ==> s == p,
{
    match img_portion {
        None => SIZE { cx: 0, cy: 0 },
        Some(p) => p,
    }
}

/// Methods of the image-list handle. Each one translates what the native
/// entry point of the same name returned.
pub trait comctl_Himagelist: Sized {
    /// The raw handle value.
    spec fn spec_ptr(&self) -> usize;

    /// The raw handle value.
    fn ptr(&self) -> (p: usize)
        ensures
            p == self.spec_ptr(),
    ;

    /// Outcome of the native add call: `raw` is the index the new image
    /// was stored at, with `-1` signaling failure.
    fn Add(&self, raw: i32) -> (r: HrResult<u32>)
        ensures
            raw == -1 ==> (r matches Err(e) && e == (HRESULT(E_FAIL))),
            raw != -1 ==> r is Ok,
            raw >= 0 ==> (r matches Ok(idx) && idx == raw),
    {
        index_or_fail(raw)
    }

    /// Outcome of the native add-icon call (a replace at index `-1`):
    /// `raw` is the index the copied icon was stored at, with `-1`
    /// signaling failure.
    fn AddIcon(&self, raw: i32) -> (r: HrResult<u32>)
        ensures
            raw == -1 ==> (r matches Err(e) && e == (HRESULT(E_FAIL))),
            raw != -1 ==> r is Ok,
            raw >= 0 ==> (r matches Ok(idx) && idx == raw),
    {
        index_or_fail(raw)
    }

    /// Outcome of the native add-masked call: `raw` is the index the new
    /// image was stored at, with `-1` signaling failure.
    fn AddMasked(&self, raw: i32) -> (r: HrResult<u32>)
        ensures
            raw == -1 ==> (r matches Err(e) && e == (HRESULT(E_FAIL))),
            raw != -1 ==> r is Ok,
            raw >= 0 ==> (r matches Ok(idx) && idx == raw),
    {
        index_or_fail(raw)
    }

    /// Outcome of the native begin-drag call, a status with zero as its
    /// failure sentinel. A successful begin-drag must be ended again: the
    /// returned guard is bound to the end-drag entry point and carries
    /// this image list's handle.
    fn BeginDrag(&self, raw_status: i32) -> (r: HrResult<Guard>)
        requires
            self.spec_ptr() != 0,
        ensures
            raw_status == 0 ==> (r matches Err(e) && e == (HRESULT(E_FAIL))),
            raw_status != 0 ==> (r matches Ok(g) && g@ == (GuardView {
                kind: ResourceKind::ImageListEndDrag,
                handle: self.spec_ptr(),
            })),
    {
        if raw_status == 0 {
            Err(HRESULT::from_raw(E_FAIL))
        } else {
            match Guard::acquire(ResourceKind::ImageListEndDrag, self.ptr(), 0) {
                Ok(g) => Ok(g),
                Err(_) => Err(HRESULT::from_raw(E_FAIL)),
            }
        }
    }

    /// Outcome of the native create call: `raw` is the handle of the new
    /// image list, with null signaling failure. The new list is owned by
    /// the returned guard, bound to the image-list destroy entry point.
    fn Create(raw: usize) -> (r: HrResult<Guard>)
        ensures
            raw == 0 ==> (r matches Err(e) && e == (HRESULT(E_FAIL))),
            raw != 0 ==> (r matches Ok(g) && g@ == (GuardView {
                kind: ResourceKind::ImageListDestroy,
                handle: raw,
            })),
    {
        destroy_guard_or_fail(raw)
    }

    /// Outcome of the native drag-move call, a status with zero as its
    /// failure sentinel.
    fn DragMove(&self, raw_status: i32) -> (r: HrResult<()>)
        ensures
            raw_status == 0 ==> (r matches Err(e) && e == (HRESULT(E_FAIL))),
            raw_status != 0 ==> r is Ok,
    {
        zero_as_fail(raw_status)
    }

    /// Outcome of the native drag-show call, a status with zero as its
    /// failure sentinel.
    fn DragShowNolock(raw_status: i32) -> (r: HrResult<()>)
        ensures
            raw_status == 0 ==> (r matches Err(e) && e == (HRESULT(E_FAIL))),
            raw_status != 0 ==> r is Ok,
    {
        zero_as_fail(raw_status)
    }

    /// Outcome of the native draw call, a status with zero as its failure
    /// sentinel.
    fn Draw(&self, raw_status: i32) -> (r: HrResult<()>)
        ensures
            raw_status == 0 ==> (r matches Err(e) && e == (HRESULT(E_FAIL))),
            raw_status != 0 ==> r is Ok,
    {
        zero_as_fail(raw_status)
    }

    /// Outcome of the native extended draw call, a status with zero as its
    /// failure sentinel. The image portion handed to the call is computed
    /// by [`draw_portion`].
    fn DrawEx(&self, raw_status: i32) -> (r: HrResult<()>)
        ensures
            raw_status == 0 ==> (r matches Err(e) && e == (HRESULT(E_FAIL))),
            raw_status != 0 ==> r is Ok,
    {
        zero_as_fail(raw_status)
    }

    /// Outcome of the native duplicate call: `raw` is the handle of the
    /// copied image list, with null signaling failure. The copy is owned
    /// by the returned guard, bound to the image-list destroy entry point.
    fn Duplicate(&self, raw: usize) -> (r: HrResult<Guard>)
        ensures
            raw == 0 ==> (r matches Err(e) && e == (HRESULT(E_FAIL))),
            raw != 0 ==> (r matches Ok(g) && g@ == (GuardView {
                kind: ResourceKind::ImageListDestroy,
                handle: raw,
            })),
    {
        destroy_guard_or_fail(raw)
    }

    /// Outcome of the native extract-icon call, which copies the icon
    /// stored at an index: the same translation as [`Self::GetIcon`].
    fn ExtractIcon(&self, raw: usize) -> (r: HrResult<Guard>)
        ensures
            raw == 0 ==> (r matches Err(e) && e == (HRESULT(E_FAIL))),
            raw != 0 ==> (r matches Ok(g) && g@ == (GuardView {
                kind: ResourceKind::IconDestroy,
                handle: raw,
            })),
    {
        self.GetIcon(raw)
    }

    /// Outcome of the native background-color query: the encoded color
    /// value, taken verbatim.
    fn GetBkColor(&self, raw: u32) -> (c: COLORREF)
        ensures
            c.spec_raw() == raw,
    {
        COLORREF::from_raw(raw)
    }

    /// Outcome of the native get-icon call: `raw` is the handle of a
    /// fresh copy of the stored icon, with null signaling failure. The
    /// copy is owned by the returned guard, bound to the icon destroy
    /// entry point.
    fn GetIcon(&self, raw: usize) -> (r: HrResult<Guard>)
        ensures
            raw == 0 ==> (r matches Err(e) && e == (HRESULT(E_FAIL))),
            raw != 0 ==> (r matches Ok(g) && g@ == (GuardView {
                kind: ResourceKind::IconDestroy,
                handle: raw,
            })),
    {
        match Guard::acquire(ResourceKind::IconDestroy, raw, 0) {
            Ok(g) => Ok(g),
            Err(_) => Err(HRESULT::from_raw(E_FAIL)),
        }
    }

    /// Outcome of the native icon-size query: a status with zero as its
    /// failure sentinel, and the two extents the call filled in.
    fn GetIconSize(&self, raw_status: i32, cx: i32, cy: i32) -> (r: HrResult<SIZE>)
        ensures
            raw_status == 0 ==> (r matches Err(e) && e == (HRESULT(E_FAIL))),
            raw_status != 0 ==> (r matches Ok(s) && s == (SIZE { cx, cy })),
    {
        if raw_status == 0 {
            Err(HRESULT::from_raw(E_FAIL))
        } else {
            Ok(SIZE { cx, cy })
        }
    }

    /// Outcome of the native image-count query, taken verbatim.
    fn GetImageCount(&self, raw: i32) -> (n: u32)
        ensures
            raw >= 0 ==> n == raw,
    {
        #[verifier::truncate]
        (raw as u32)
    }

    /// Outcome of the native remove call, a status with zero as its
    /// failure sentinel. The index handed to the call is computed by
    /// [`index_arg`].
    fn Remove(&self, raw_status: i32) -> (r: HrResult<()>)
        ensures
            raw_status == 0 ==> (r matches Err(e) && e == (HRESULT(E_FAIL))),
            raw_status != 0 ==> r is Ok,
    {
        zero_as_fail(raw_status)
    }

    /// Outcome of the native replace-icon call: `raw` is the index the
    /// copied icon was stored at, with `-1` signaling failure.
    fn ReplaceIcon(&self, raw: i32) -> (r: HrResult<u32>)
        ensures
            raw == -1 ==> (r matches Err(e) && e == (HRESULT(E_FAIL))),
            raw != -1 ==> r is Ok,
            raw >= 0 ==> (r matches Ok(idx) && idx == raw),
    {
        index_or_fail(raw)
    }

    /// Outcome of the native background-color set call: the previously
    /// set color, with the no-color sentinel meaning none was set. The
    /// argument handed to the call is computed by [`bk_color_arg`].
    fn SetBkColor(&self, raw_prev: u32) -> (r: Option<COLORREF>)
        ensures
            raw_prev == CLR_NONE ==> r is None,
            raw_prev != CLR_NONE ==> (r matches Some(c) && c.spec_raw() == raw_prev),
    {
        if raw_prev == CLR_NONE {
            None
        } else {
            Some(COLORREF::from_raw(raw_prev))
        }
    }

    /// Outcome of the native image-count set call, a status with zero as
    /// its failure sentinel.
    fn SetImageCount(&self, raw_status: i32) -> (r: HrResult<()>)
        ensures
            raw_status == 0 ==> (r matches Err(e) && e == (HRESULT(E_FAIL))),
            raw_status != 0 ==> r is Ok,
    {
        zero_as_fail(raw_status)
    }

    /// Outcome of the native write-to-stream call, a status with zero as
    /// its failure sentinel.
    fn Write(&self, raw_status: i32) -> (r: HrResult<()>)
        ensures
            raw_status == 0 ==> (r matches Err(e) && e == (HRESULT(E_FAIL))),
            raw_status != 0 ==> r is Ok,
    {
        zero_as_fail(raw_status)
    }
}

/// Translates a native index return with `-1` as its failure sentinel.
fn index_or_fail(raw: i32) -> (r: HrResult<u32>)
    ensures
        raw == -1 ==> (r matches Err(e) && e == (HRESULT(E_FAIL))),
        raw != -1 ==> r is Ok,
        raw >= 0 ==> (r matches Ok(idx) && idx == raw),
{
    if raw == -1 {
        Err(HRESULT::from_raw(E_FAIL))
    } else {
        Ok(
            #[verifier::truncate]
            (raw as u32),
        )
    }
}

/// Translates a native handle return with null as its failure sentinel
/// into a guard bound to the image-list destroy entry point.
fn destroy_guard_or_fail(raw: usize) -> (r: HrResult<Guard>)
    ensures
        raw == 0 ==> (r matches Err(e) && e == (HRESULT(E_FAIL))),
        raw != 0 ==> (r matches Ok(g) && g@ == (GuardView {
            kind: ResourceKind::ImageListDestroy,
            handle: raw,
        })),
{
    match Guard::acquire(ResourceKind::ImageListDestroy, raw, 0) {
        Ok(g) => Ok(g),
        Err(_) => Err(HRESULT::from_raw(E_FAIL)),
    }
}

} // verus!
