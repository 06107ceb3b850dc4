//! A modal confirmation or alert dialog that answers OK, Cancel, or nothing,
//! driven by window and gamepad events through a verified state machine.

use vstd::prelude::*;

pub mod dialog;
pub mod gamepad;
pub mod icons;
pub mod laws;
pub mod result;
pub mod session;
pub mod view;

pub use result::DialogResult;

verus! {

} // verus!
