//! One-shot guards for opaque native resource handles.
//!
//! A [`Guard`] owns exactly one opaque handle returned by a native
//! acquisition call and is responsible for releasing it exactly once, by
//! invoking the teardown entry point bound to its [`ResourceKind`]. A guard
//! is *armed* while it still owes that teardown call and *unarmed* once the
//! call has been made (or once responsibility has been handed away with
//! [`Guard::leak`]). The unarmed state is stored as the null handle, the
//! same sentinel the native API itself uses for "no resource".
//!
//! The native release entry points are modeled by [`TeardownLog`]: it
//! receives every teardown call together with the kind and handle it was
//! made with, so callers (and tests) can observe how often each resource
//! was released. A teardown call has no result: release runs during
//! unconditional cleanup, where no recovery is possible, so whatever the
//! native side thinks of the call is never surfaced as an error.

use vstd::prelude::*;

verus! {

/// Which native release entry point a guard is bound to. Each resource
/// kind of the wrapped API exposes exactly one such entry point.
#[derive(Clone, Copy, PartialEq, Eq, Structural, Debug)]
pub enum ResourceKind {
    /// An image list, released through the image-list destroy call.
    ImageListDestroy,
    /// A drawing object (pen, brush, ...), released through the
    /// object-delete call.
    GdiObjectDelete,
    /// An icon, released through the icon destroy call.
    IconDestroy,
    /// A stream object, released through its release call.
    StreamRelease,
    /// A drag operation of an image list, ended through the end-drag call.
    ImageListEndDrag,
}

/// One teardown call as received by the native API: the entry point it was
/// made through and the handle that was passed to it.
#[derive(Clone, Copy, PartialEq, Eq, Structural, Debug)]
pub struct TeardownCall {
    pub kind: ResourceKind,
    pub handle: usize,
}

/// The only error this layer surfaces: the native acquisition call signaled
/// failure, so no guard was produced. The attached value is the platform
/// error code read at the failed call site (zero when none was available).
#[derive(Clone, Copy, PartialEq, Eq, Structural, Debug)]
pub enum ErrorKind {
    AcquisitionFailed(u32),
}

/// How often the calls of `s` hit the given entry point with the given
/// handle.
pub open spec fn count_calls(s: Seq<TeardownCall>, kind: ResourceKind, handle: usize) -> nat
    decreases s.len(),
{
    if s.len() == 0 {
        0
    } else {
        count_calls(s.drop_last(), kind, handle) + (if s.last() == (TeardownCall {
            kind,
            handle,
        }) {
            1nat
        } else {
            0nat
        })
    }
}

/// Appending one call raises exactly the matching count by one and leaves
/// every other count unchanged.
pub proof fn lemma_count_calls_push(
    s: Seq<TeardownCall>,
    c: TeardownCall,
    kind: ResourceKind,
    handle: usize,
)
    ensures
        count_calls(s.push(c), kind, handle) == count_calls(s, kind, handle) + (if c
            == (TeardownCall { kind, handle }) {
            1nat
        } else {
            0nat
        }),
{
    assert(s.push(c).drop_last() =~= s);
    assert(s.push(c).last() == c);
}

/// Stand-in for the release side of the native API: every teardown call a
/// guard makes is delivered here, in order.
pub struct TeardownLog {
    calls: Vec<TeardownCall>,
}

impl View for TeardownLog {
    type V = Seq<TeardownCall>;

    closed spec fn view(&self) -> Seq<TeardownCall> {
        self.calls@
    }
}

impl TeardownLog {
    /// A log that has received no teardown call yet.
    pub fn new() -> (log: TeardownLog)
        ensures
            log@ == Seq::<TeardownCall>::empty(),
    {
        TeardownLog { calls: Vec::new() }
    }

    /// How many teardown calls have been received in total.
    pub fn len(&self) -> (n: usize)
        ensures
            n == self@.len(),
    {
        self.calls.len()
    }

    /// The `i`-th teardown call received.
    pub fn call_at(&self, i: usize) -> (c: TeardownCall)
        requires
            i < self@.len(),
        ensures
            c == self@[i as int],
    {
        self.calls[i]
    }

    /// The teardown entry point itself: releasing `handle` through the
    /// entry point of `kind` appends exactly one call to the log.
    pub fn teardown(&mut self, kind: ResourceKind, handle: usize)
        ensures
            final(self)@ == old(self)@.push(TeardownCall { kind, handle }),
    {
        self.calls.push(TeardownCall { kind, handle });
    }

    /// How often the entry point of `kind` has been called with `handle`.
    pub fn count_for(&self, kind: ResourceKind, handle: usize) -> (n: usize)
        ensures
            n == count_calls(self@, kind, handle),
    {
        let mut n: usize = 0;
        let mut i: usize = 0;
        while i < self.calls.len()
            invariant
                i <= self@.len(),
                n <= i,
                n == count_calls(self@.take(i as int), kind, handle),
            decreases self@.len() - i,
        {
            let c = self.calls[i];
            proof {
                assert(self@.take(i as int + 1).drop_last() =~= self@.take(i as int));
                assert(self@.take(i as int + 1) =~= self@.take(i as int).push(self@[i as int]));
                lemma_count_calls_push(self@.take(i as int), self@[i as int], kind, handle);
            }
            if c.kind == kind && c.handle == handle {
                n = n + 1;
            }
            i = i + 1;
        }
        proof {
            assert(self@.take(self@.len() as int) =~= self@);
        }
        n
    }
}

/// The mathematical value of a guard: what entry point it is bound to and
/// which handle it holds. The null handle stands for the unarmed state.
pub struct GuardView {
    pub kind: ResourceKind,
    pub handle: usize,
}

impl GuardView {
    /// Whether the guard still owes a teardown call.
    pub open spec fn armed(self) -> bool {
        self.handle != 0
    }

    /// The one teardown call an armed guard will make.
    pub open spec fn as_call(self) -> TeardownCall {
        TeardownCall { kind: self.kind, handle: self.handle }
    }
}

/// Owns one live native handle and performs its teardown call exactly once.
///
/// A guard is produced only by a successful [`Guard::acquire`]; a failed
/// acquisition produces an [`ErrorKind`] instead, and no teardown ever
/// happens for it. The guard is deliberately neither cloneable nor
/// copyable: duplicating it would duplicate the release obligation and
/// release the same handle twice.
#[derive(Debug)]
pub struct Guard {
    kind: ResourceKind,
    handle: usize,
}

impl View for Guard {
    type V = GuardView;

    closed spec fn view(&self) -> GuardView {
        GuardView { kind: self.kind, handle: self.handle }
    }
}

impl Guard {
    /// Wraps the outcome of a native acquisition call.
    ///
    /// `raw` is the handle the call returned, with null (zero) as its
    /// failure sentinel, and `last_error` is the platform error code read
    /// after the call. A null `raw` yields `AcquisitionFailed` carrying
    /// that code and constructs no guard; any other value yields an armed
    /// guard holding exactly that handle.
    pub fn acquire(kind: ResourceKind, raw: usize, last_error: u32) -> (r: Result<Guard, ErrorKind>)
        ensures
            raw == 0 ==> (r matches Err(e) && e == ErrorKind::AcquisitionFailed(last_error)),
            raw != 0 ==> (r matches Ok(g) && g@ == (GuardView { kind, handle: raw })),
    {
        if raw == 0 {
            Err(ErrorKind::AcquisitionFailed(last_error))
        } else {
            Ok(Guard { kind, handle: raw })
        }
    }

    /// Read-only access to the held handle, for use in further native
    /// calls. Does not affect ownership; must not be called once the guard
    /// has been released.
    pub fn as_handle(&self) -> (h: usize)
        requires
            self@.armed(),
        ensures
            h == self@.handle,
            h != 0,
    {
        self.handle
    }

    /// Which release entry point this guard is bound to.
    pub fn kind(&self) -> (k: ResourceKind)
        ensures
            k == self@.kind,
    {
        self.kind
    }

    /// Whether the guard still owes its teardown call.
    pub fn is_armed(&self) -> (b: bool)
        ensures
            b == self@.armed(),
    {
        self.handle != 0
    }

    /// Performs the teardown call now, if it is still owed, and disarms the
    /// guard, so that the scope-exit teardown becomes a no-op. Calling this
    /// on an already unarmed guard makes no further call.
    pub fn release_now(&mut self, api: &mut TeardownLog)
        ensures
            old(self)@.armed() ==> final(api)@ == old(api)@.push(old(self)@.as_call()),
            !old(self)@.armed() ==> final(api)@ == old(api)@,
            !final(self)@.armed(),
            final(self)@.kind == old(self)@.kind,
    {
        if self.handle != 0 {
            api.teardown(self.kind, self.handle);
            self.handle = 0;
        }
    }

    /// The scope-exit teardown: consumes the guard and performs the
    /// teardown call if — and only if — it is still owed. Together with
    /// [`Guard::release_now`] this makes teardown one-shot: over the whole
    /// lifetime of a guard the call happens exactly once.
    pub fn finish(self, api: &mut TeardownLog)
        ensures
            self@.armed() ==> final(api)@ == old(api)@.push(self@.as_call()),
            !self@.armed() ==> final(api)@ == old(api)@,
    {
        if self.handle != 0 {
            api.teardown(self.kind, self.handle);
        }
    }

    /// Consumes the guard without any teardown call, handing the release
    /// responsibility to the caller together with the returned handle.
    pub fn leak(self) -> (h: usize)
        ensures
            h == self@.handle,
    {
        self.handle
    }
}

/// Scoped acquisition: runs `body` on the freshly acquired handle and
/// unconditionally performs the teardown call afterwards.
///
/// This is the whole guard discipline in one contract: a failed acquisition
/// (`raw == 0`) returns `AcquisitionFailed` and makes no teardown call at
/// all, while a successful one runs `body` on exactly the returned handle
/// and makes exactly one teardown call for it.
pub fn with_resource<T, F: FnOnce(usize) -> T>(
    api: &mut TeardownLog,
    kind: ResourceKind,
    raw: usize,
    last_error: u32,
    body: F,
) -> (r: Result<T, ErrorKind>)
    requires
        raw != 0 ==> call_requires(body, (raw,)),
    ensures
        raw == 0 ==> (r matches Err(e) && e == ErrorKind::AcquisitionFailed(last_error))
            && final(api)@ == old(api)@,
        raw != 0 ==> (r matches Ok(t) && call_ensures(body, (raw,), t))
            && final(api)@ == old(api)@.push(TeardownCall { kind, handle: raw }),
{
    match Guard::acquire(kind, raw, last_error) {
        Err(e) => Err(e),
        Ok(g) => {
            let h = g.as_handle();
            let t = body(h);
            g.finish(api);
            Ok(t)
        },
    }
}

/// An explicit early release followed by the scope-exit teardown performs
/// exactly one teardown call in total, at the early-release point: the
/// scope-exit path finds the guard unarmed and is a no-op.
pub fn release_now_then_finish(g: Guard, api: &mut TeardownLog)
    ensures
        g@.armed() ==> final(api)@ == old(api)@.push(g@.as_call()),
        !g@.armed() ==> final(api)@ == old(api)@,
{
    let mut owned = g;
    owned.release_now(api);
    owned.finish(api);
}

/// Moving a guard to a new exclusive owner and then ending that owner's
/// scope still performs exactly one teardown call: relocation transfers the
/// release obligation, it does not duplicate it.
pub fn transfer_then_finish(g: Guard, api: &mut TeardownLog)
    ensures
        g@.armed() ==> final(api)@ == old(api)@.push(g@.as_call()),
        !g@.armed() ==> final(api)@ == old(api)@,
{
    adopt(g, api)
}

/// The new owner of a relocated guard; ends its scope with the ordinary
/// scope-exit teardown.
fn adopt(owned: Guard, api: &mut TeardownLog)
    ensures
        owned@.armed() ==> final(api)@ == old(api)@.push(owned@.as_call()),
        !owned@.armed() ==> final(api)@ == old(api)@,
{
    owned.finish(api)
}

} // verus!
