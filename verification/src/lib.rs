//! A motion- and button-activated dimmable light controller.
//!
//! The crate holds the two pieces of the controller that carry real design
//! decisions: the encoder that turns a brightness value into the exact byte
//! sequence the LED matrix driver chip expects ([`frame`]), and the four-state
//! lifecycle machine that decides, from the current state and the first
//! asynchronous event to complete, what to transmit, what to signal on the
//! indicator line, what to wait on next, and which state follows ([`machine`]).
//! The laws that hold of whole runs of the machine are stated and proved in
//! [`laws`].
//!
//! Driving the hardware itself — arming timers, watching input edges, writing
//! the frame out over the serial bus — is left to the surrounding program,
//! which performs one wait at a time and hands the winning event back to the
//! machine.

pub mod frame;
pub mod laws;
pub mod machine;
