pub mod access;
pub mod bridge;
pub mod converter;
pub mod digest;
pub mod error;
pub mod fee;
pub mod guard;
pub mod kv;
pub mod market;
pub mod msg;
pub mod nft;
pub mod payment;
pub mod staking;
pub mod token;
