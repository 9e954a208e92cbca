//! Channel ownership of HTTP/3 streams whose peer sends STOP_SENDING, and the
//! accounting run that shows whether a cancelled stream gives its send capacity
//! back.

pub mod channel;
pub mod deadlock;
pub mod stream;
pub mod text;
pub mod tx_buffered;
pub mod waiting;
