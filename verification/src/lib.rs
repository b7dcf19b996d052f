//! StellarLend: a collateralized lending protocol with interest accrual,
//! liquidations, emergency controls, user roles and limits, analytics, an
//! AMM registry, a price oracle and governance. Every operation works on a
//! `state::Protocol` value and states its effect in its contract; the host
//! supplies the ledger clock, moves tokens and publishes the queued notices.
pub mod math;
pub mod keyed;
pub mod errors;
pub mod interest;
pub mod events;
pub mod users;
pub mod emergency;
pub mod decimal;
pub mod analytics;
pub mod state;
pub mod deposit;
pub mod borrow;
pub mod address;
pub mod transfer;
pub mod repay;
pub mod withdraw;
pub mod liquidate;
pub mod amm;
pub mod oracle;
pub mod governance;
pub mod contract;
pub mod laws;
