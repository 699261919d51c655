//! Rule engines for a confidential blackjack table and a perpetuals exchange.
//!
//! The card engine ([`cards`]) and the margin engine ([`margin`], [`fees`],
//! [`pricing`]) work on values in the clear. The table ([`game`]) and the
//! position record ([`position`]) hold those values encrypted and move
//! through their states as confidential computations are queued and their
//! outputs come back ([`mpc`]).

pub mod admin;
pub mod cards;
pub mod confidential_spl;
pub mod encryption;
pub mod error;
pub mod fees;
pub mod game;
pub mod margin;
pub mod math;
pub mod mpc;
pub mod oracle;
pub mod order_matching;
pub mod pool;
pub mod position;
pub mod pricing;
pub mod public_path;
pub mod state;
pub mod types;
