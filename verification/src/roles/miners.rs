pub mod miner;
pub mod mineral_miner;
pub mod sk_miner;
