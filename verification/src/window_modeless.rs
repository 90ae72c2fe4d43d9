//! Modeless child windows.
//!
//! A modeless window always belongs to a parent window and must be set up
//! before that parent is physically created: its creation is deferred
//! until the parent's own creation runs. Both constructors therefore
//! reject a parent that already has a live window handle.

use vstd::pervasive::unreached;
use vstd::prelude::*;

verus! {

/// Options a programmatically created modeless window is built from.
#[derive(Debug)]
pub struct WindowModelessOpts {
    /// The window title.
    pub title: String,
    /// Position of the top-left corner, in pixels, relative to the
    /// parent's client area.
    pub position: (i32, i32),
}

struct RawModeless {
    opts: WindowModelessOpts,
}

struct DlgModeless {
    dlg_id: u16,
    position: (i32, i32),
}

enum RawDlg {
    Raw(RawModeless),
    Dlg(DlgModeless),
}

/// A user modeless window, which can handle events. It is either created
/// programmatically or loaded from a dialog resource.
pub struct WindowModeless(RawDlg);

impl WindowModeless {
    /// Whether this window will be loaded from a dialog resource.
    pub closed spec fn spec_is_dlg(&self) -> bool {
        self.0 is Dlg
    }

    /// The options a programmatic window will be created from.
    pub closed spec fn spec_opts(&self) -> WindowModelessOpts
        recommends
            !self.spec_is_dlg(),
    {
        self.0->Raw_0.opts
    }

    /// The dialog-resource id and position a dialog window will be loaded
    /// with.
    pub closed spec fn spec_dlg_params(&self) -> (u16, (i32, i32))
        recommends
            self.spec_is_dlg(),
    {
        (self.0->Dlg_0.dlg_id, self.0->Dlg_0.position)
    }

    /// A modeless window to be created programmatically from the given
    /// options, as a child of the parent whose window handle is
    /// `parent_hwnd`. The parent must not have been created yet — its
    /// handle must still be null — since the modeless window is created
    /// along with it.
    pub fn new(parent_hwnd: usize, opts: WindowModelessOpts) -> (w: WindowModeless)
        requires
            parent_hwnd == 0,
        ensures
            !w.spec_is_dlg(),
            w.spec_opts() == opts,
    {
        WindowModeless(RawDlg::Raw(RawModeless { opts }))
    }

    /// A modeless window to be loaded from the dialog resource with id
    /// `dlg_id` and shown at `position`, as a child of the parent whose
    /// window handle is `parent_hwnd`. The parent must not have been
    /// created yet — its handle must still be null — since the modeless
    /// window is created along with it.
    pub fn new_dlg(parent_hwnd: usize, dlg_id: u16, position: (i32, i32)) -> (w: WindowModeless)
        requires
            parent_hwnd == 0,
        ensures
            w.spec_is_dlg(),
            w.spec_dlg_params() == (dlg_id, position),
    {
        WindowModeless(RawDlg::Dlg(DlgModeless { dlg_id, position }))
    }

    /// Whether this window will be loaded from a dialog resource.
    pub fn is_dlg(&self) -> (b: bool)
        ensures
            b == self.spec_is_dlg(),
    {
        match &self.0 {
            RawDlg::Raw(_) => false,
            RawDlg::Dlg(_) => true,
        }
    }

    /// The options a programmatic window will be created from.
    pub fn opts(&self) -> (o: &WindowModelessOpts)
        requires
            !self.spec_is_dlg(),
        ensures
            *o == self.spec_opts(),
    {
        match &self.0 {
            RawDlg::Raw(r) => &r.opts,
            RawDlg::Dlg(_) => unreached(),
        }
    }

    /// The dialog-resource id and position a dialog window will be loaded
    /// with.
    pub fn dlg_params(&self) -> (params: (u16, (i32, i32)))
        requires
            self.spec_is_dlg(),
        ensures
            params == self.spec_dlg_params(),
    {
        match &self.0 {
            RawDlg::Raw(_) => unreached(),
            RawDlg::Dlg(d) => (d.dlg_id, d.position),
        }
    }
}

} // verus!
