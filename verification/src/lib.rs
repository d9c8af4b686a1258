//! Verified core of a small real-time renderer: the store of drawable
//! models and the per-frame packing of their transforms into slots of a
//! shared uniform buffer, together with the draw list that uses those slots.
//!
//! The library never touches a graphics device. Buffers are named by
//! handles, and every operation that needs the device either takes the
//! device's answer as an argument or returns a plain description of what the
//! device is to be asked.

pub mod control;
pub mod render;
