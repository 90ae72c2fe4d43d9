//! Traits for typed window-message parameters.
//!
//! Every native window message travels as one generic triple — message id,
//! first parameter, second parameter — and answers with one machine word.
//! A typed message parameter struct knows how to lay itself out as that
//! generic triple and how to read the answer back into its own reply type.

use vstd::prelude::*;

verus! {

/// The generic form of a window message: what the native send call
/// actually transports.
#[derive(Clone, Copy, PartialEq, Eq, Structural, Debug)]
pub struct WndMsg {
    pub msg_id: u32,
    pub wparam: usize,
    pub lparam: isize,
}

impl WndMsg {
    /// A message with the given id and both parameters.
    pub fn new(msg_id: u32, wparam: usize, lparam: isize) -> (m: WndMsg)
        ensures
            m == (WndMsg { msg_id, wparam, lparam }),
    {
        WndMsg { msg_id, wparam, lparam }
    }
}

/// Parameters of a message that can be sent: they convert into the generic
/// triple, and they give the raw reply its typed meaning.
pub trait MsgSend: Sized {
    /// The typed reply of this message.
    type RetType;

    /// The generic triple this message lays itself out as.
    spec fn spec_wm(&self) -> WndMsg;

    /// The typed meaning of the raw reply `v`.
    spec fn spec_ret(&self, v: isize) -> Self::RetType;

    /// Reads the raw reply of the native send call back into the typed
    /// reply.
    fn convert_ret(&self, v: isize) -> (r: Self::RetType)
        ensures
            r == self.spec_ret(v),
    ;

    /// Lays the message out as the generic triple the native send call
    /// transports.
    fn as_generic_wm(&mut self) -> (m: WndMsg)
        ensures
            m == old(self).spec_wm(),
            *final(self) == *old(self),
    ;
}

/// Parameters of a message that can also be received: on top of
/// [`MsgSend`], they convert back from the generic triple a window
/// procedure is handed.
pub trait MsgSendRecv: MsgSend {
    /// The typed message that the generic triple `parm` carries.
    spec fn spec_from_wm(parm: WndMsg) -> Self;

    /// Reads the generic triple back into the typed message.
    fn from_generic_wm(parm: WndMsg) -> (r: Self)
        ensures
            r == Self::spec_from_wm(parm),
    ;
}

impl MsgSend for WndMsg {
    type RetType = isize;

    open spec fn spec_wm(&self) -> WndMsg {
        *self
    }

    open spec fn spec_ret(&self, v: isize) -> isize {
        v
    }

    fn convert_ret(&self, v: isize) -> isize {
        v
    }

    fn as_generic_wm(&mut self) -> WndMsg {
        *self
    }
}

impl MsgSendRecv for WndMsg {
    open spec fn spec_from_wm(parm: WndMsg) -> WndMsg {
        parm
    }

    fn from_generic_wm(parm: WndMsg) -> WndMsg {
        parm
    }
}

} // verus!
