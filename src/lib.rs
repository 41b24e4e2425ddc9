//! Configuration protocol for the GM4 gaming mouse: the fixed-size raw
//! report exchanged with the device, the codecs that turn its bytes into
//! profiles and LED effects, and the model that keeps both in step.

pub mod config;
pub mod protocol;
pub mod usb;
