//! Hands-free pointing: fusion of head-motion and eye-gaze samples into cursor movement.
//!
//! Every quantity that a sensor reports as a real number is held here as a signed
//! 16.16 fixed-point number: an `i32` that counts units of 1/65536. The frame decoder
//! of the inertial sensor produces such numbers exactly; the controller computes
//! pixels, milliseconds and distances from them in integer arithmetic.

pub mod fixed;
pub mod gyro_input;
pub mod inputs;
pub mod pipeline;
pub mod tobii_input;
