//! Decision logic of a pump.fun trading bot: a desktop bot with exit rules, a
//! console sniper and a token feed. Every function is held to its contract; the
//! proofs rest on what is claimed of the outside functions behind `external_body`
//! and `assume_specification`, among them the clocks, which the library reads
//! itself. The programs around it own the sockets, the files and the
//! floating-point unit.

pub mod clock;
pub mod config;
pub mod curve;
pub mod display;
pub mod double;
pub mod env;
pub mod events;
pub mod feed;
pub mod json;
pub mod monitor;
pub mod orders;
pub mod panel;
pub mod pricing;
pub mod risk;
pub mod session;
pub mod sniper;
pub mod state;
pub mod storage;
pub mod text;
pub mod trade;
pub mod wallet;
