//! Slow-scan television (SSTV) decoding: the integer side of the signal
//! path, the transmission modes and the state of the decoding front end.
//!
//! - `pixel`: the RGBA pixel of a decoded image.
//! - `demod`: phase unwrapping between neighbouring samples and the bin gains
//!   of the analytic-signal filter.
//! - `sstv`: the modes and the placement of the analysis windows.
//! - `frame`: the byte buffer that an image is handed over in.
//! - `scan`: the front end's state and how each message changes it.

pub mod demod;
pub mod frame;
pub mod pixel;
pub mod scan;
pub mod sstv;

pub use pixel::PixelRGBA;
