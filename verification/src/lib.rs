//! A freecam-style camera controller: the decisions that turn one frame of
//! keyboard and mouse input into camera motion, and the cursor-grab gesture
//! that governs when pointer motion drives the camera.
//!
//! Everything here works on plain values and on bevy's input state. What a
//! frame of input means for the camera is returned as a plan of integer
//! steps; applying a plan to a pose is left to the caller.

pub mod camera_controller;
pub mod input;
pub mod rotator;
