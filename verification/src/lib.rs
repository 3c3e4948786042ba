//! Core of a terminal document viewer's interactive front end: the state
//! behind its render/event loop. The library models the input events the
//! terminal delivers, interprets key presses, drives the running flag that
//! the loop checks, and composes each frame as plain data. The asynchronous
//! plumbing that reads real terminal events and paints real frames sits
//! outside, calls in for every decision, and carries the results back out.

pub mod event;
pub mod render;
pub mod state;
