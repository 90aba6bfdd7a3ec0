pub mod bigint;
pub mod curve;
pub mod decode;
pub mod errors;
pub mod ops;
