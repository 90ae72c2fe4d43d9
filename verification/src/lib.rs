//! Safe-wrapper layer over a native GUI/COM API surface: typed opaque
//! handles, message parameter types, and a release-exactly-once discipline
//! for native resources.
//!
//! The heart of the crate is [`guard`]: a one-shot resource guard that owns
//! exactly one opaque native handle and guarantees that the teardown entry
//! point of the native API is invoked exactly once over the guard's
//! lifetime. The remaining modules are the typed adapters around it: they
//! translate the raw values a native call returns (sentinel handles, status
//! codes, packed words) into typed results, and build the message parameter
//! blocks that the native calls consume.

pub mod decl;
pub mod file_dialog_events;
pub mod guard;
pub mod header_item;
pub mod himagelist;
pub mod hpen;
pub mod hresult;
pub mod messages;
pub mod msg_traits;
pub mod status_bar_part;
pub mod window_main;
pub mod window_modeless;
