//! What the operations are for, in terms of what goes in and what comes out.
//!
//! Each law speaks of the plain parts of its values: seconds and nanoseconds, bit patterns,
//! characters, fields. It holds of every input that it names.
pub mod dispatch;
pub mod handover;
pub mod numbers;
pub mod prices;
pub mod rewards;
pub mod service;
pub mod settings;
pub mod standard;
pub mod time;
