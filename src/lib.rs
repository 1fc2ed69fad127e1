//! Display monitors as plain values: wrapping and unwrapping monitor handles,
//! gathering the monitors that an enumeration reports, looking one up by its
//! position, and turning a monitor into a screen-capture source.

pub mod monitor;

pub use monitor::{Monitor, MonitorErrors};
