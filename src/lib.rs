//! A ticketed-event marketplace engine: events, tickets, escrow balances and
//! platform fees, with every operation stated as a step of an abstract model.
pub mod fees;
pub mod laws;
pub mod market;
pub mod model;
pub mod status;
pub mod types;
