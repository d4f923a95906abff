//! Receipt-printer support for a point-of-sale application: an ESC/POS
//! command encoder, the ranking that picks a printer among attached USB
//! devices, the step machine that drives one claim/write/release session,
//! and the decisions of the plain-text fallback through the host's spooler.
//!
//! Everything here is pure: the caller performs the USB and process I/O and
//! feeds the outcomes back in.

pub mod escpos;
pub mod locator;
pub mod report;
pub mod session;
pub mod dispatch;
