//! A safety layer in front of a TPM 2.0 command interface.
//!
//! The device checks almost none of its own calling conventions, so this crate
//! validates what is handed to it: key templates are built through checked
//! builders, PCR selections keep a uniform width and a fixed bit layout, and
//! every handle obtained through a [`Context`](context::Context) is tracked
//! until it has been released.
pub mod algorithm;
pub mod attributes;
pub mod buffers;
pub mod capabilities;
pub mod constants;
pub mod context;
pub mod error;
pub mod handle_manager;
pub mod handles;
pub mod hierarchy;
pub mod nullauth;
pub mod pcr;
pub mod public;
pub mod saved_context;
pub mod schemes;
pub mod signature;
pub mod symmetric;
pub mod teardown;
pub mod tss2_esys;
