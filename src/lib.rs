//! Typed register access for hardware peripherals: the bit packing of fields, the
//! register and peripheral model the accessors are generated from, and the transport and
//! access-procedure capabilities the accessors call into.
pub use crate::comms::{RegComms, RegCommsAccessProc, RegCommsAddress, RegCommsError};

pub mod bits;
pub mod numeral;
pub mod names;
pub mod field_spec;
pub mod endian;
pub mod comms;
pub mod register_spec;
pub mod peripheral_spec;
pub mod quantum_flux_sensor;
pub mod lsm6dsv;
pub mod example;
pub mod templates;
pub mod render;
