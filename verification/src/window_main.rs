//! The main window of an application.
//!
//! A main window is either created programmatically from a set of options
//! or loaded from a dialog resource; the two constructors record which of
//! the two it is going to be, together with everything the later creation
//! call needs. Running the window starts with a fixed platform
//! preparation sequence — computed by [`startup_plan`] from the platform
//! version — and ends, after the message loop has drained, with the
//! release of the shared interface font through its object-delete guard.

use vstd::pervasive::unreached;
use vstd::prelude::*;

use crate::decl::SIZE;
use crate::hresult::SysResult;
use crate::messages::Close;

verus! {

/// The platform error code for a rejected parameter; the code the timer
/// suppression call answers with on hosts that emulate the platform
/// without supporting it.
pub const ERROR_INVALID_PARAMETER: u32 = 87;

/// Options a programmatically created main window is built from.
#[derive(Debug)]
pub struct WindowMainOpts {
    /// The window title.
    pub title: String,
    /// The window size, in pixels.
    pub size: SIZE,
}

struct RawMain {
    opts: WindowMainOpts,
}

struct DlgMain {
    dlg_id: u16,
    icon_id: Option<u16>,
    accel_tbl_id: Option<u16>,
}

enum RawDlg {
    Raw(RawMain),
    Dlg(DlgMain),
}

/// A user main window, which can handle events. Usually this is the first
/// window of the application. It is either created programmatically or
/// loaded from a dialog resource.
pub struct WindowMain(RawDlg);

impl WindowMain {
    /// Whether this window will be loaded from a dialog resource.
    pub closed spec fn spec_is_dlg(&self) -> bool {
        self.0 is Dlg
    }

    /// The options a programmatic window will be created from.
    pub closed spec fn spec_opts(&self) -> WindowMainOpts
        recommends
            !self.spec_is_dlg(),
    {
        self.0->Raw_0.opts
    }

    /// The resource ids a dialog window will be loaded from: the dialog
    /// id, the optional icon id and the optional accelerator-table id.
    pub closed spec fn spec_dlg_ids(&self) -> (u16, Option<u16>, Option<u16>)
        recommends
            self.spec_is_dlg(),
    {
        (self.0->Dlg_0.dlg_id, self.0->Dlg_0.icon_id, self.0->Dlg_0.accel_tbl_id)
    }

    /// A main window to be created programmatically from the given
    /// options.
    pub fn new(opts: WindowMainOpts) -> (w: WindowMain)
        ensures
            !w.spec_is_dlg(),
            w.spec_opts() == opts,
    {
        WindowMain(RawDlg::Raw(RawMain { opts }))
    }

    /// A main window to be loaded from the dialog resource with id
    /// `dlg_id`, optionally with an icon and an accelerator table from
    /// the resources with the given ids.
    pub fn new_dlg(dlg_id: u16, icon_id: Option<u16>, accel_tbl_id: Option<u16>) -> (w: WindowMain)
        ensures
            w.spec_is_dlg(),
            w.spec_dlg_ids() == (dlg_id, icon_id, accel_tbl_id),
    {
        WindowMain(RawDlg::Dlg(DlgMain { dlg_id, icon_id, accel_tbl_id }))
    }

    /// Whether this window will be loaded from a dialog resource.
    pub fn is_dlg(&self) -> (b: bool)
        ensures
            b == self.spec_is_dlg(),
    {
        match &self.0 {
            RawDlg::Raw(_) => false,
            RawDlg::Dlg(_) => true,
        }
    }

    /// The options a programmatic window will be created from.
    pub fn opts(&self) -> (o: &WindowMainOpts)
        requires
            !self.spec_is_dlg(),
        ensures
            *o == self.spec_opts(),
    {
        match &self.0 {
            RawDlg::Raw(r) => &r.opts,
            RawDlg::Dlg(_) => unreached(),
        }
    }

    /// The resource ids a dialog window will be loaded from.
    pub fn dlg_ids(&self) -> (ids: (u16, Option<u16>, Option<u16>))
        requires
            self.spec_is_dlg(),
        ensures
            ids == self.spec_dlg_ids(),
    {
        match &self.0 {
            RawDlg::Raw(_) => unreached(),
            RawDlg::Dlg(d) => (d.dlg_id, d.icon_id, d.accel_tbl_id),
        }
    }

    /// The message that closes the window: posting it lets the close
    /// event be handled exactly as if the close button had been clicked.
    pub fn close(&self) -> (m: Close)
        ensures
            m == (Close {  }),
    {
        Close {  }
    }
}

/// The platform preparation steps run before the main window is created,
/// decided by the platform version.
#[derive(Clone, Copy, PartialEq, Eq, Structural, Debug)]
pub struct StartupPlan {
    /// Declare the process aware of display scaling; available from the
    /// first version that supports it.
    pub set_dpi_aware: bool,
    /// Initialize the common-controls library; always done.
    pub init_common_controls: bool,
    /// Suppress exceptions in timer callbacks, so that a timer procedure
    /// cannot be silently skipped; available from the version that added
    /// the setting.
    pub suppress_timer_exceptions: bool,
}

/// Which preparation steps to run on a platform of the given capabilities.
pub fn startup_plan(is_vista_or_greater: bool, is_windows8_or_greater: bool) -> (p: StartupPlan)
    ensures
        p.set_dpi_aware == is_vista_or_greater,
        p.init_common_controls,
        p.suppress_timer_exceptions == is_windows8_or_greater,
{
    StartupPlan {
        set_dpi_aware: is_vista_or_greater,
        init_common_controls: true,
        suppress_timer_exceptions: is_windows8_or_greater,
    }
}

/// How the outcome of the timer-suppression setting is treated.
#[derive(Clone, Copy, PartialEq, Eq, Structural, Debug)]
pub enum TimerSuppression {
    /// The setting was applied.
    Applied,
    /// The host emulates the platform without supporting the setting;
    /// this is tolerated and startup goes on without it.
    SkippedUnsupported,
    /// The setting failed with an unexpected platform error code.
    Failed(u32),
}

/// Classifies the outcome of the timer-suppression call: success is
/// applied, the rejected-parameter code means the setting is unsupported
/// on an emulating host and is tolerated, and every other error code is
/// surfaced unchanged.
pub fn classify_timer_suppression(outcome: SysResult<()>) -> (d: TimerSuppression)
    ensures
        outcome is Ok ==> d == TimerSuppression::Applied,
        outcome matches Err(e) ==> (e == ERROR_INVALID_PARAMETER ==> d
            == TimerSuppression::SkippedUnsupported),
        outcome matches Err(e) ==> (e != ERROR_INVALID_PARAMETER ==> d == (TimerSuppression::Failed(
            e,
        ))),
{
    match outcome {
        Ok(()) => TimerSuppression::Applied,
        Err(e) => {
            if e == ERROR_INVALID_PARAMETER {
                TimerSuppression::SkippedUnsupported
            } else {
                TimerSuppression::Failed(e)
            }
        },
    }
}

} // verus!
