//! A driver for the flash memory controller of a family of
//! microcontrollers: erase, program and read, under the controller's
//! protocol of unlocking, busy checks, error clearing and locking.
//!
//! The driver decides and the caller acts. An operation of [`flash::Flash`]
//! is a list of steps ([`script`]); the [`sequencer`] carries it out one
//! register access at a time, by handing the caller a request
//! ([`access::Request`]) and taking in the reply. What the sequencer does
//! on each reply is stated by the transition function of [`machine`].
//!
//! The variants differ in geometry, in the bits of their registers and in
//! what they ask for around an erase or a write: [`profile`] holds their
//! constants, [`address`] maps an erase unit to its address, and [`clear`]
//! lists the error bits to clear.
//!
//! [`device`] is a reference model of the hardware, and [`run`] puts
//! sequencer and model together. The laws of the driver are proved of the
//! two: unlocking, locking and the busy check in [`laws`], together with
//! the erase of a unit and of a bank; programming in [`program`]; reading
//! back what was written in [`readback`]; and operations that follow one
//! another in [`compose`].
pub mod access;
pub mod address;
pub mod bank;
pub mod clear;
pub mod compose;
pub mod device;
pub mod error;
pub mod flash;
pub mod laws;
pub mod machine;
pub mod profile;
pub mod program;
pub mod readback;
pub mod run;
pub mod script;
pub mod sequencer;
pub mod status;
