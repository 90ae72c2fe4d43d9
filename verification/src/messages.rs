//! Typed parameters of the window messages the wrappers send.

use vstd::prelude::*;

use crate::hresult::SysResult;
use crate::msg_traits::{MsgSend, MsgSendRecv, WndMsg};

verus! {

/// Message id of the close request sent to a window.
pub const WM_CLOSE: u32 = 0x0010;

/// First message id of the range reserved for control-specific messages.
pub const WM_USER: u32 = 0x0400;

/// First message id of the header-control message range.
pub const HDM_FIRST: u32 = 0x1200;

/// Message id of the header-control item-delete message.
pub const HDM_DELETEITEM: u32 = HDM_FIRST + 2;

/// Message id of the header-control focus-item message.
pub const HDM_SETFOCUSEDITEM: u32 = HDM_FIRST + 24;

/// Message id of the status-bar text-length query.
pub const SB_GETTEXTLENGTH: u32 = WM_USER + 12;

/// The platform error code for a rejected message argument; the reply the
/// header control gives to a message that names no valid item.
pub const ERROR_BAD_ARGUMENTS: u32 = 160;

/// The close request: no parameters, no meaningful reply.
#[derive(Clone, Copy, PartialEq, Eq, Structural, Debug)]
pub struct Close {}

impl MsgSend for Close {
    type RetType = ();

    open spec fn spec_wm(&self) -> WndMsg {
        WndMsg { msg_id: WM_CLOSE, wparam: 0, lparam: 0 }
    }

    open spec fn spec_ret(&self, v: isize) -> () {
        ()
    }

    fn convert_ret(&self, v: isize) -> () {
        ()
    }

    fn as_generic_wm(&mut self) -> WndMsg {
        WndMsg { msg_id: WM_CLOSE, wparam: 0, lparam: 0 }
    }
}

impl MsgSendRecv for Close {
    open spec fn spec_from_wm(parm: WndMsg) -> Close {
        Close {  }
    }

    fn from_generic_wm(parm: WndMsg) -> Close {
        Close {  }
    }
}

/// Asks a header control to delete the item at a zero-based index. The
/// control replies zero when the index names no item.
#[derive(Clone, Copy, PartialEq, Eq, Structural, Debug)]
pub struct DeleteItem {
    pub index: u32,
}

impl MsgSend for DeleteItem {
    type RetType = SysResult<()>;

    open spec fn spec_wm(&self) -> WndMsg {
        WndMsg { msg_id: HDM_DELETEITEM, wparam: self.index as usize, lparam: 0 }
    }

    open spec fn spec_ret(&self, v: isize) -> SysResult<()> {
        if v == 0 {
            Err(ERROR_BAD_ARGUMENTS)
        } else {
            Ok(())
        }
    }

    fn convert_ret(&self, v: isize) -> SysResult<()> {
        if v == 0 {
            Err(ERROR_BAD_ARGUMENTS)
        } else {
            Ok(())
        }
    }

    fn as_generic_wm(&mut self) -> WndMsg {
        WndMsg { msg_id: HDM_DELETEITEM, wparam: self.index as usize, lparam: 0 }
    }
}

/// Asks a header control to focus the item at a zero-based index. The
/// control replies zero when the index names no item.
#[derive(Clone, Copy, PartialEq, Eq, Structural, Debug)]
pub struct SetFocusedItem {
    pub index: u32,
}

impl MsgSend for SetFocusedItem {
    type RetType = SysResult<()>;

    open spec fn spec_wm(&self) -> WndMsg {
        WndMsg { msg_id: HDM_SETFOCUSEDITEM, wparam: 0, lparam: self.index as isize }
    }

    open spec fn spec_ret(&self, v: isize) -> SysResult<()> {
        if v == 0 {
            Err(ERROR_BAD_ARGUMENTS)
        } else {
            Ok(())
        }
    }

    fn convert_ret(&self, v: isize) -> SysResult<()> {
        if v == 0 {
            Err(ERROR_BAD_ARGUMENTS)
        } else {
            Ok(())
        }
    }

    fn as_generic_wm(&mut self) -> WndMsg {
        WndMsg { msg_id: HDM_SETFOCUSEDITEM, wparam: 0, lparam: self.index as isize }
    }
}

/// Asks a status bar for the text length of one of its parts. The reply
/// packs the character count in its low word and the part's draw flags in
/// the word above it; a negative reply carries no information and reads as
/// zero.
#[derive(Clone, Copy, PartialEq, Eq, Structural, Debug)]
pub struct GetTextLength {
    pub part_index: u16,
}

impl MsgSend for GetTextLength {
    type RetType = (u16, u16);

    open spec fn spec_wm(&self) -> WndMsg {
        WndMsg { msg_id: SB_GETTEXTLENGTH, wparam: self.part_index as usize, lparam: 0 }
    }

    open spec fn spec_ret(&self, v: isize) -> (u16, u16) {
        if v >= 0 {
            ((v % 0x1_0000) as u16, ((v / 0x1_0000) % 0x1_0000) as u16)
        } else {
            (0, 0)
        }
    }

    fn convert_ret(&self, v: isize) -> (u16, u16) {
        if v >= 0 {
            ((v % 0x1_0000) as u16, ((v / 0x1_0000) % 0x1_0000) as u16)
        } else {
            (0, 0)
        }
    }

    fn as_generic_wm(&mut self) -> WndMsg {
        WndMsg { msg_id: SB_GETTEXTLENGTH, wparam: self.part_index as usize, lparam: 0 }
    }
}

} // verus!
