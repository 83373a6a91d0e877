//! Formats and register maps of the AMD-Vi and Intel VT-d IOMMUs.
pub mod amd;
pub mod bitfield;
pub mod bytes;
pub mod intel;
pub mod text;
