//! A tuning engine: maps discrete note indices to frequencies under a
//! selectable temperament.
//!
//! Frequencies in Hertz are `f32` values at the host's boundary; inside this
//! crate every frequency and scale ratio is carried as its IEEE 754 binary32
//! bit pattern (`u32`), and a temperament answers a query with the exact
//! integer factors (period exponent and scale index) from which the host
//! assembles the floating-point frequency.

pub mod binary32;
pub mod note;
pub mod temperament;
