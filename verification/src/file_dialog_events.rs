//! Event sink of the native file dialog.
//!
//! The file dialog reports its progress — file accepted, folder changing,
//! selection changed, and so on — through a callback interface the caller
//! registers. For every event the dialog calls one method of the sink;
//! the sink runs the caller's handler for that event, if one is
//! installed, and answers with a result code, defaulting to success when
//! no handler is installed. Two of the events additionally answer through
//! an out-parameter, which is written only when a response was produced.
//!
//! The handlers themselves are native closures living behind the
//! interface boundary; here an event's dispatch is modeled on its
//! outcome: `None` stands for "no handler installed", `Some(r)` for "the
//! installed handler returned `r`".

use vstd::prelude::*;

use crate::hresult::{HrResult, S_OK};

verus! {

/// The default response to a share-violation event: let the dialog decide.
pub const FDESVR_DEFAULT: u32 = 0;

/// The default response to an overwrite event: let the dialog decide.
pub const FDEOR_DEFAULT: u32 = 0;

/// The state behind the event-sink interface, as the dialog sees it.
pub struct IFileDialogEventsImpl {
    counter: u32,
}

impl IFileDialogEventsImpl {
    /// The sink's reference count.
    pub closed spec fn spec_counter(&self) -> u32 {
        self.counter
    }

    /// A fresh sink: referenced once, by its creator, with no handler
    /// installed for any event.
    pub fn new() -> (s: IFileDialogEventsImpl)
        ensures
            s.spec_counter() == 1,
    {
        IFileDialogEventsImpl { counter: 1 }
    }

    /// The sink's reference count.
    pub fn counter(&self) -> (n: u32)
        ensures
            n == self.spec_counter(),
    {
        self.counter
    }
}

/// The result code an event's answer is reported as: success stays the
/// success code, a failure is reported as its own code.
pub fn hrresult_to_hres(r: &HrResult<()>) -> (hres: u32)
    ensures
        r is Ok ==> hres == S_OK,
        r matches Err(e) ==> hres == e.spec_raw(),
{
    match r {
        Ok(()) => S_OK,
        Err(e) => e.raw(),
    }
}

/// Dispatch of an event that answers with a bare result code: with no
/// handler installed the event succeeds, otherwise the handler's outcome
/// is reported as its result code.
pub fn on_event_hres(handler_outcome: Option<HrResult<()>>) -> (hres: u32)
    ensures
        handler_outcome is None ==> hres == S_OK,
        handler_outcome matches Some(r) ==> (r is Ok ==> hres == S_OK),
        handler_outcome matches Some(r) ==> (r matches Err(e) ==> hres == e.spec_raw()),
{
    match handler_outcome {
        None => S_OK,
        Some(r) => hrresult_to_hres(&r),
    }
}

/// Dispatch of an event that answers with a result code and a response
/// out-parameter: with no handler installed the event succeeds with the
/// given default response; a handler's successful outcome becomes the
/// response; a handler's failure is reported as its result code and
/// writes no response.
pub fn on_event_with_response(handler_outcome: Option<HrResult<u32>>, default_response: u32) -> (r:
    (u32, Option<u32>))
    ensures
        handler_outcome is None ==> r == (S_OK, Some(default_response)),
        handler_outcome matches Some(h) ==> (h matches Ok(resp) ==> r == (S_OK, Some(resp))),
        handler_outcome matches Some(h) ==> (h matches Err(e) ==> r == (e.spec_raw(), None::<u32>)),
{
    match handler_outcome {
        None => (S_OK, Some(default_response)),
        Some(h) => match h {
            Ok(resp) => (S_OK, Some(resp)),
            Err(e) => (e.raw(), None),
        },
    }
}

} // verus!
