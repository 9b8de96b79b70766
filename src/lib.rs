//! Fixed-size square matrices over exact 64-bit integer scalars, with
//! construction, indexed access, equality, addition, subtraction and
//! multiplication, each proved against a mathematical model.

pub mod laws;
pub mod matrix;
pub mod model;
pub mod operation;

pub use matrix::Matrix;
pub use operation::Operation;
