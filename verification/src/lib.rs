//! A typed, growable sequence with a reserved capacity, the element types
//! that it holds with the tag of each, and the errors of its operations
//! with the status code that stands for each.

pub mod array;
pub mod bounds;
pub mod equality;
pub mod error;
pub mod model;
pub mod object;
pub mod record;
pub mod scalar;
pub mod tag;
