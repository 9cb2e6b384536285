pub mod codec;
pub mod counter;
pub mod gateway;
pub mod oracle;
pub mod rates;
pub mod route;
pub mod router;
pub mod staking;
