//! Small verified exercises on algebraic data types and expressions: the
//! minimum and the sum of a vector of `i32`, a "number or nothing" type, and
//! the text in which their results are shown.

pub mod decimal;
pub mod minimum;
pub mod part00;
pub mod part01;
