//! Decoding of the serial wire protocol of a rotating 2D distance sensor:
//! the initialisation handshake and the compressed extended express-scan
//! frames, turned into angle and distance samples.
pub mod angle;
pub mod cabin;
pub mod error;
pub mod frame;
pub mod handshake;
pub mod pipeline;
pub mod varbit;
