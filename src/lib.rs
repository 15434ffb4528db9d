//! Input acquisition and normalisation for an arcade-style game controller.
//!
//! Raw button levels and oversampled knob bursts go through per-control
//! filters ([`debounce`], [`sampling`], [`knob`], timed by [`timer`]) into an
//! input snapshot that [`reader`] publishes only when it changes; [`encoder`]
//! turns a snapshot and the user's [`keymap`] into gamepad, keyboard and mouse
//! payloads built by [`report`]. [`via`] answers the configuration protocol
//! that edits the keymap kept in [`userdata`]; [`keycode_gen`] merges the
//! keycode definition tables.

pub mod debounce;
pub mod knob;
pub mod sampling;
pub mod timer;
pub mod report;
pub mod keymap;
pub mod encoder;
pub mod reader;
pub mod via;
pub mod userdata;
pub mod keycode_gen;
