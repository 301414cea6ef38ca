//! Keyboard capture lock engine.
//!
//! A keyboard is captured exclusively, so that nothing typed on it reaches
//! the rest of the desktop, until Control plus a chosen letter is pressed on
//! it or the controller asks to unlock.
//!
//! The library decides; the program around it acts.  It holds
//!
//! - [`keymap`]: the unlock letter and its key code,
//! - [`events`]: input events and the detection of the unlock chord,
//! - [`registry`]: which found devices are keyboards, and the selection,
//! - [`session`]: the state machine of one capture session,
//! - [`coordinator`]: the shared state and the commands on it.
//!
//! The program keeps one [`coordinator::Coordinator`] behind a lock, scans for
//! devices and hands the result to `refresh_devices`, and on a lock command
//! starts a driver with the ticket it gets.  The driver opens, grabs, reads
//! and releases the device as the session tells it, one step at a time.

pub mod coordinator;
pub mod events;
pub mod keymap;
pub mod registry;
pub mod session;
