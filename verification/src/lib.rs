//! Discovery of HID-class devices and feature-report exchange.
//!
//! The OS-facing side of the protocol (device-interface enumeration,
//! registry property queries, handle opening, overlapped I/O) is driven
//! through explicit events: every decision the protocol makes is a
//! verified function from the current state and the OS's answer to the
//! next state and action, so an unverified driver loop only performs the
//! calls and feeds the answers back.

pub mod device;
pub mod enumerate;
pub mod error;
pub mod info;
pub mod ps_move;
pub mod report;
pub mod resolve;
pub mod util;
