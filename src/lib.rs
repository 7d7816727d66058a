//! Futarchy-style governance: proposals are gated by binary pari-mutuel
//! prediction markets whose pools, fees, resolution and redemption are
//! modelled here as verified state transitions over plain records.
pub mod constants;
pub mod errors;
pub mod fees;
pub mod governance;
pub mod key;
pub mod market;
pub mod redemption;
pub mod state;
pub mod time;
pub mod validation;
