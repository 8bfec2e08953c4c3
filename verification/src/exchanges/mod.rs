//! The connection lifecycle that serves every exchange, and what is
//! particular to each of them.

pub mod binance;
pub mod books;
pub mod bybit;
pub mod coinbase;
pub mod connection;
pub mod kraken;
pub mod lighter;
pub mod mexc;
pub mod quote;
pub mod subscription;
