//! Sensor access over RFID tag memory.
//!
//! A battery-assisted passive sensor tag has no bus of its own: its
//! temperature sensor and its accelerometer are reached only through reads
//! and writes of tag memory words, carried by an RFID reader. This crate
//! holds the protocol layer: which words are read and written, in which
//! order, and what the raw words mean.
//!
//! The crate performs no I/O. Every operation is a small state machine that
//! hands out one [`link::Command`] at a time and takes the reader's
//! [`link::Reply`] back; the caller owns the reader and carries the commands
//! out.

pub mod accel;
pub mod calibration;
pub mod codec;
pub mod fifo;
pub mod hex;
pub mod layout;
pub mod link;
pub mod power;
pub mod pseudo_bap;
pub mod registers;
pub mod script;
pub mod session;
pub mod settings;
pub mod temperature;
pub mod window;
