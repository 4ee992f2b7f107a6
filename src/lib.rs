//! Peripheral access for a driver that does not know which board it runs on.
//!
//! Physical resources are named by descriptors; views of them are handed out
//! through scoped ownership tokens and erased handles, and a driver state
//! machine consumes those views to bring up a serial bus.
pub mod board;
pub mod consumer;
pub mod dynamic;
pub mod gpio;
pub mod i2c;
pub mod peripherals;
pub mod schedule;
pub mod uart;
