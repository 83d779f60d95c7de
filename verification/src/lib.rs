//! Closed-loop dual-axis turret positioning core.
//!
//! The crate models a two-axis (azimuth/elevation) turret drive: it decodes
//! absolute Hall-effect angle samples into calibrated angles, runs a
//! closed-loop error-to-speed control law per axis, and parses a delimited
//! byte protocol into typed commands that retarget the controller.
//!
//! All angles are fixed-point millidegrees; speeds are pulse frequencies in
//! whole hertz. Hardware access (ADC reads, pulse generation, the serial
//! transport) stays outside: the library consumes raw samples and command
//! values and produces actuation requests.

pub mod actuator;
pub mod angle;
pub mod axis;
pub mod dispatch;
pub mod dual;
pub mod framer;
