pub mod carrier;
pub mod hauler;
