//! Register-level codec for the ICM-20608-G six-axis inertial sensor.
//!
//! The sensor is a bank of eight-bit registers behind a two-wire bus. This
//! library turns named records into register bytes and back, and carries them
//! over a bus one register at a time, in a fixed order, stopping at the first
//! failure.
//!
//! - [`bits`]: bit-fields inside one register byte.
//! - [`word`]: sixteen-bit quantities split over two registers.
//! - [`transport`]: the bus, and the history of what was asked of it.
//! - [`structs`]: the records, with their encodings and the laws they obey.
//! - [`memory`]: a model of the registers, and a simulated device.
//! - [`describe`]: records as tables of named values.

pub mod bits;
pub mod describe;
pub mod memory;
pub mod structs;
pub mod transport;
pub mod word;
