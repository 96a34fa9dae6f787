//! Verified core of a portable vacuum-decay measuring instrument: the codec of
//! the serial pressure transducer and the state machine of the measurement
//! controller.
//!
//! The library does no input or output. The host reads encoder events and
//! sensor samples, hands them to the controller as plain values, and carries
//! out what the controller returns: display commands, timer actions and the
//! position of the valve.
//!
//! Measured quantities are fixed-point integers in millionths of their unit.

pub mod controller;
pub mod display;
pub mod i2c_sensor;
pub mod klapan;
pub mod thyracont_sensor;
