//! Core of an image-warping art generator.
//!
//! A source raster is distorted by a per-pixel coordinate remapping driven by
//! two configurable procedural-noise channels, then hue-rotated and packed
//! into a flat RGBA buffer.  This crate holds the decision-making core of that
//! pipeline: the configuration model and its edit state machine, the selection
//! and seeding of noise generators, the planning of the warp passes (including
//! the synced second channel and the optional chained second warp), the
//! row-major pixel layout of the output buffer, and the sizing and naming
//! rules for exported files.
//!
//! Scalar settings such as factors, scales and frequencies are carried as
//! fixed-point values in millionths of a unit (see [`fixed`]), so that every
//! rule about them can be stated and checked exactly.  The floating-point
//! evaluation of the noise fields and the sampling of the warped raster are
//! capability black boxes supplied by the surrounding application.

pub mod controls;
pub mod export;
pub mod fixed;
pub mod noise;
pub mod numeric_input;
pub mod raster;
pub mod render;
