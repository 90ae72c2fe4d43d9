//! Items of a header control.
//!
//! A header control is a native control; each of its items is addressed by
//! a zero-based index and carries, among other things, a set of format
//! flags. The arrow state and the text justification of an item are both
//! stored inside those flags, so setting one of them means clearing its
//! group of bits and setting the bit of the wanted state. This module
//! holds that flag arithmetic; the flags themselves travel to and from the
//! control in native item messages.

use vstd::prelude::*;

use crate::messages::{DeleteItem, SetFocusedItem};

verus! {

/// Format flag: the item's text is left-aligned.
pub const HDF_LEFT: u32 = 0x0000;

/// Format flag: the item's text is right-aligned.
pub const HDF_RIGHT: u32 = 0x0001;

/// Format flag: the item's text is centered.
pub const HDF_CENTER: u32 = 0x0002;

/// Format flag: the item shows the ascending sort arrow.
pub const HDF_SORTUP: u32 = 0x0400;

/// Format flag: the item shows the descending sort arrow.
pub const HDF_SORTDOWN: u32 = 0x0200;

/// Possible states of the sort arrow of a [`HeaderItem`].
#[derive(Clone, Copy, PartialEq, Eq, Structural, Debug, Hash)]
pub enum HeaderArrow {
    /// No arrow.
    NoArrow,
    /// An arrow pointing up, indicating sorting in ascending order.
    Asc,
    /// An arrow pointing down, indicating sorting in descending order.
    Desc,
}

/// Text justification of a [`HeaderItem`].
#[derive(Clone, Copy, PartialEq, Eq, Structural, Debug, Hash)]
pub enum HeaderJustify {
    Left,
    Center,
    Right,
}

/// Format flags of a header item, as the native control stores them.
#[derive(Clone, Copy, PartialEq, Eq, Structural, Debug)]
pub struct HDF(pub u32);

impl HDF {
    /// The underlying flag bits.
    pub open spec fn spec_raw(self) -> u32 {
        self.0
    }

    /// Wraps raw flag bits.
    pub fn from_raw(raw: u32) -> (f: HDF)
        ensures
            f.spec_raw() == raw,
    {
        HDF(raw)
    }

    /// The underlying flag bits.
    pub fn raw(self) -> (r: u32)
        ensures
            r == self.spec_raw(),
    {
        self.0
    }

    /// Whether every bit of `flags` is set.
    pub fn has(self, flags: u32) -> (b: bool)
        ensures
            b == (self.spec_raw() & flags == flags),
    {
        self.0 & flags == flags
    }

    /// These flags with the arrow state replaced: both arrow bits are
    /// cleared, then the bit of the wanted state is set.
    pub fn with_arrow(self, arrow_state: HeaderArrow) -> (f: HDF)
        ensures
            f.spec_raw() == (self.spec_raw() & !(HDF_SORTUP | HDF_SORTDOWN)) | arrow_bits(
                arrow_state,
            ),
    {
        let cleared: u32 = self.0 & !(HDF_SORTUP | HDF_SORTDOWN);
        HDF(cleared | HDF::from(arrow_state).raw())
    }

    /// These flags with the text justification replaced: all justification
    /// bits are cleared, then the bits of the wanted justification are
    /// set.
    pub fn with_justify(self, text_justification: HeaderJustify) -> (f: HDF)
        ensures
            f.spec_raw() == (self.spec_raw() & !(HDF_LEFT | HDF_CENTER | HDF_RIGHT)) | justify_bits(
                text_justification,
            ),
    {
        let cleared: u32 = self.0 & !(HDF_LEFT | HDF_CENTER | HDF_RIGHT);
        HDF(cleared | HDF::from(text_justification).raw())
    }
}

/// The format bits that stand for an arrow state.
pub open spec fn arrow_bits(v: HeaderArrow) -> u32 {
    match v {
        HeaderArrow::Asc => HDF_SORTUP,
        HeaderArrow::Desc => HDF_SORTDOWN,
        HeaderArrow::NoArrow => 0,
    }
}

/// The format bits that stand for a text justification.
pub open spec fn justify_bits(v: HeaderJustify) -> u32 {
    match v {
        HeaderJustify::Left => HDF_LEFT,
        HeaderJustify::Center => HDF_CENTER,
        HeaderJustify::Right => HDF_RIGHT,
    }
}

impl From<HeaderArrow> for HDF {
    /// The format flags that show an arrow state, and nothing else.
    fn from(v: HeaderArrow) -> (f: HDF) {
        match v {
            HeaderArrow::Asc => HDF(HDF_SORTUP),
            HeaderArrow::Desc => HDF(HDF_SORTDOWN),
            HeaderArrow::NoArrow => HDF(0),
        }
    }
}

impl vstd::std_specs::convert::FromSpecImpl<HeaderArrow> for HDF {
    open spec fn obeys_from_spec() -> bool {
        true
    }

    open spec fn from_spec(v: HeaderArrow) -> HDF {
        HDF(arrow_bits(v))
    }
}

impl From<HeaderJustify> for HDF {
    /// The format flags that show a text justification, and nothing else.
    fn from(v: HeaderJustify) -> (f: HDF) {
        match v {
            HeaderJustify::Left => HDF(HDF_LEFT),
            HeaderJustify::Center => HDF(HDF_CENTER),
            HeaderJustify::Right => HDF(HDF_RIGHT),
        }
    }
}

impl vstd::std_specs::convert::FromSpecImpl<HeaderJustify> for HDF {
    open spec fn obeys_from_spec() -> bool {
        true
    }

    open spec fn from_spec(v: HeaderJustify) -> HDF {
        HDF(justify_bits(v))
    }
}

/// A single item of a header control.
///
/// Each object keeps the zero-based index of an item. If items are added
/// to or removed from the control, the object may then point to a
/// different item. The item's own state lives inside the native control
/// and travels in messages; see [`crate::messages::DeleteItem`] and
/// [`crate::messages::SetFocusedItem`] for the messages an item sends, and
/// [`HDF`] for the format flags its arrow and justification are stored in.
#[derive(Clone, Copy, PartialEq, Eq, Structural, Debug)]
pub struct HeaderItem {
    index: u32,
}

impl HeaderItem {
    /// The index this item stands for.
    pub closed spec fn spec_index(&self) -> u32 {
        self.index
    }

    /// An item addressing the given zero-based index of its control.
    pub fn new(index: u32) -> (it: HeaderItem)
        ensures
            it.spec_index() == index,
    {
        HeaderItem { index }
    }

    /// The zero-based index of the item.
    pub fn index(&self) -> (i: u32)
        ensures
            i == self.spec_index(),
    {
        self.index
    }

    /// The message that deletes this item from its control.
    pub fn delete_message(&self) -> (m: DeleteItem)
        ensures
            m.index == self.spec_index(),
    {
        DeleteItem { index: self.index }
    }

    /// The message that makes this item the focused one of its control.
    pub fn focus_message(&self) -> (m: SetFocusedItem)
        ensures
            m.index == self.spec_index(),
    {
        SetFocusedItem { index: self.index }
    }
}

} // verus!
