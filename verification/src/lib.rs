//! Verified bring-up sequencing for a wireless network interface.
//!
//! The library models the decisions a bring-up sequence must make — claiming
//! singleton driver state, validating credentials and addressing, bracketing
//! the join attempt with indicator signaling, and polling for readiness — as
//! verified logic over plain values. The surrounding embedded layer performs
//! the hardware calls and feeds their outcomes back in.

pub mod addressing;
pub mod arena;
pub mod bringup;
pub mod credentials;
pub mod errors;
pub mod laws;
