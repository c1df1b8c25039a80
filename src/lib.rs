pub mod float_bits;
pub mod snapshot;
pub mod event;
pub mod laws;
