//! Core of a home-automation controller: a deadline scheduler for one-shot
//! and recurring tasks, timer handles with cancel-on-re-arm semantics, a
//! motion-sensor debounce state machine with a time-of-day gate, and the
//! device models (serial and web switches, dimmers, led beams) whose
//! commands the scheduled actions emit.

pub mod debounce;
pub mod devices;
pub mod handler;
pub mod home;
pub mod io;
pub mod runtime;
pub mod sensors;
pub mod text;
pub mod web;
