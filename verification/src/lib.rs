//! Reliable submission of a signed transaction to a ledger network.
//!
//! The heart of the crate is a pure, verified state machine
//! ([`machine`]) that drives lease acquisition, signing, broadcast and
//! confirmation polling under two bounded retry budgets.  An embedding
//! runs the machine by performing each requested [`machine::Action`]
//! against a real RPC gateway and feeding the observed
//! [`machine::Event`] back in; every decision the loop makes is taken
//! here, under contract.

pub mod config;
pub mod machine;
pub mod laws;
