pub mod assemble;
pub mod errors;
pub mod horizon;
pub mod slots;
pub mod store;
pub mod tags;
