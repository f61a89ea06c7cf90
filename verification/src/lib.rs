//! Verified core of a small utility that sends a raw command frame to a
//! USB HID endpoint and waits for the device to echo it back.
//!
//! The library holds everything that can be decided without touching the
//! transport: parsing hexadecimal selectors, choosing the endpoint to open,
//! packing the 32-byte command frame, classifying an echoed response, and the
//! retry state machine that schedules writes, reads and backoff sleeps
//! against a fixed deadline. The binary around it performs the actual HID
//! enumeration, opens, writes, reads and sleeps, and feeds every outcome back
//! into the state machine as a plain value.

pub mod frame;
pub mod hex;
pub mod locate;
pub mod response;
pub mod transfer;
