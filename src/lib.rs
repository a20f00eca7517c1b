//! A measured value with its standard uncertainty, first-order propagation
//! of that uncertainty through arithmetic and elementary functions, and the
//! value's text form.
pub mod display;
pub mod ops;
pub mod scalar;
pub mod ufloat;

pub use display::measurement_text;
pub use scalar::Scalar;
pub use ufloat::UFloat;
