//! Decision logic of an audio output chooser.
//!
//! The crate holds everything the chooser decides: how the sinks and ports that
//! the audio server reports become a flat catalog of output targets, which row
//! of that catalog is highlighted while the user navigates, and in which order
//! the requests that apply a choice are issued. It performs no input or output
//! itself; a front end carries out the actions it asks for and hands back what
//! happened.

pub mod source;
pub mod catalog;
pub mod selection;
pub mod bridge;
pub mod commit;
pub mod session;
