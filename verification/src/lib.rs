//! The discrete core of a small ray tracer: saturating 8-bit colours, a
//! bounds-checked framebuffer, textures and their addressing, the sky's
//! colour stops, the choice of the closest hit and the control of the
//! recursive cast.
//!
//! Everything here works on integers and is proved against its contract.
//! The one exception is `pixels`, which states without proof what the
//! `image` crate returns. The vector geometry that feeds the library lives
//! with the caller, which hands over distances as ordered keys and gets
//! decisions back.

pub mod color;
pub mod framebuffer;
pub mod grid;
pub mod pixels;
pub mod render;
pub mod skybox;
pub mod texture;
