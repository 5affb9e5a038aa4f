//! Push-notification dispatch: request gate, secret resolution, recipient
//! resolution, message construction and outcome aggregation, with contracts.

pub mod error;
pub mod secrets;
pub mod provider;
pub mod recipients;
pub mod gate;
