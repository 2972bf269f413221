pub mod com_d;
pub mod com_h;
pub mod dep_hauler;
pub mod dep_miner;
pub mod pb_a;
pub mod pb_c;
pub mod pb_h;
