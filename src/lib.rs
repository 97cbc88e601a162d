//! An analog clock face: a time-of-day value kept fresh at one-second
//! granularity, and a pure mapping from a time and a surface size to the
//! shapes that draw the face.

pub mod face;
pub mod sampler;
pub mod time;
