//! Coordinate-frame conversions with exact, machine-checked contracts.
//!
//! Geodetic software passes 3-component vectors between coordinate frames.
//! Most frame changes (spherical, cylindrical, geodetic) are trigonometric
//! and have no exact finite description, but the local tangent-plane frames
//! ENU (east-north-up) and NED (north-east-down) are related by a pure axis
//! exchange together with an IEEE 754 sign flip, which is exact down to the
//! last bit. This library carries double-precision values by their bit
//! patterns, implements the ENU/NED exchange on them, and proves that the
//! exchange is its own inverse for every input.

pub mod geo;
pub mod scalar;
