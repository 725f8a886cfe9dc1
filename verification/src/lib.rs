//! A protocol engine for Shure USB microphones and interfaces.
//!
//! The library decides what is sent to a device and what is made of the answers. It performs no
//! I/O: an operation of [`device::ShureDevice`] hands out one action at a time and takes its
//! outcome back as an event, until it is done.

pub mod command;
pub mod device;
pub mod enumerate;
pub mod error;
pub mod exchange;
pub mod laws;
pub mod model;
pub mod plan;
pub mod progress;
pub mod promises;
pub mod run;
pub mod text;
