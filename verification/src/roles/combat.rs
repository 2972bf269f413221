pub mod defender;
pub mod destroyer;
pub mod guard;
pub mod overseer;
pub mod fighter;
