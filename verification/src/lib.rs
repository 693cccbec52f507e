//! The decisions of a screen overlay that borrows the NVIDIA GeForce overlay
//! window: which operating-system call comes next, with which arguments, and
//! what each outcome means. The calls themselves are made by the program that
//! drives this library; every function here works on plain values.
//!
//! An [`Overlay`] is driven in three parts. [`Overlay::init`] finds the window
//! and styles it, [`Overlay::startup_d2d`] sets up the graphics on it: each
//! takes an event, starting with `Start`, and answers with the action to
//! carry out next, until the action is `Finish`. After that the frame calls
//! hand out one command each, `shutdown` the three commands of the last
//! frame, and the drawing calls one primitive each, which
//! [`frame::draw_step`] takes through its steps in the same way. Every
//! number that goes into a call of the platform stands in the action that
//! asks for the call.

pub mod error;
pub mod frame;
pub mod overlay;
pub mod render;
pub mod wide;
pub mod window;

pub use crate::error::OverlayError;
pub use crate::overlay::Overlay;
