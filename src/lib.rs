//! A loadable bootloader module that greets on load, does nothing on unload,
//! and hands any unrecoverable fault to the host's fatal-error routine.
//!
//! `message` holds the fixed zero-terminated byte strings; `shim` decides
//! which host routine each entry point calls, and states what the host sees.
use vstd::prelude::*;

pub mod message;
pub mod shim;

verus! {

} // verus!
