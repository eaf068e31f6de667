//! Device and conversation synchronisation engine for a desktop companion of
//! paired mobile devices: the data it keeps, and every decision it takes on
//! what the device-link daemon and the notification service report.
//!
//! Bus and process I/O live outside this library; they hand plain values in
//! and carry out the actions that come back.

use vstd::prelude::*;

pub mod device;
pub mod notify;
pub mod pairing;
pub mod payload;
pub mod permissions;
pub mod pool;
pub mod session;
pub mod sms;
pub mod text;
