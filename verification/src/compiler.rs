//! The compiler driver.

pub mod c_compiler;
