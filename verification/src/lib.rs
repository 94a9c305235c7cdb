//! NTP client core: wire format, exchange arithmetic, the shared time slot,
//! the text shown to readers and the polling state machine.

pub mod endpoint;
pub mod exchange;
pub mod packet;
pub mod poller;
pub mod query;
pub mod sample;
pub mod state;
pub mod timestamp;
