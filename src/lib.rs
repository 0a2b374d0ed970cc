//! Integer-grid geometry: compass directions, grid points and line tracing.

pub mod direction;
pub mod line;
pub mod point;
pub mod two_dim_direction;

pub use direction::{Direction, DIR8, DIR9};
pub use point::Point;
pub use two_dim_direction::{ConvertError, TwoDimDirection};
