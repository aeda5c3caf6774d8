//! A tracing decorator for packet devices: every frame that crosses the
//! wrapped device is handed to a formatter, inbound frames when they are
//! received and outbound frames when the caller releases the buffer.
pub mod device;
pub mod error;
pub mod loopback;
pub mod pretty_print;
pub mod tracer;
