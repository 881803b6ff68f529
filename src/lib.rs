//! Capability masks of streaming receivers, their discovery, and the
//! bootstrap of an encrypted session with one of them.

pub mod bootstrap;
pub mod discovery;
pub mod features;
pub mod session;
