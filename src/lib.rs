//! A single-arm pendulum advanced by semi-implicit Euler steps, over a generic scalar type.

pub mod pendulum;
pub mod vector;

pub use pendulum::Pendulum;
pub use vector::Vector;
