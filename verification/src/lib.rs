//! Decoder for the control-frame payloads of a low-power wireless MAC
//! (IEEE 802.15.4 / Wi-SUN FAN style command and response frames).
//!
//! A caller holds a [`cursor::Cursor`] over one frame's payload bytes and
//! invokes the decoder of whichever field the frame layout expects next.
//! Each decode call consumes exactly its declared width and returns either a
//! typed value or a typed [`error::Error`]; nothing is retried or recovered
//! here, and no partial value is ever returned.

pub mod cursor;
pub mod error;
pub mod types;
