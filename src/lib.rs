//! A complex-number value type over IEEE-754 binary64 components.
//!
//! Each component is held as its binary64 bit pattern, so that the exact
//! parts of the type (construction, conjugation, numeric equality) are
//! stated and proved over plain integers.
pub mod binary64;
pub mod number;
