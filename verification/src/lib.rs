//! Fixed-limb representations of prime-field elements and short-Weierstrass
//! curve points, with verified admission, serialization and normalization
//! logic, and a trusted boundary to an external curve-arithmetic engine.

pub mod field;
pub mod engine;
pub mod convert;
pub mod points;
