//! Per-line volume discounts for a shopping cart.
//!
//! Given a cart's line items and, for each item, an optional merchant-configured
//! tier schedule ("buy N, get X% off"), this library determines, for every
//! eligible line, the single best-matching discount tier and emits a discount
//! instruction for that line.
//!
//! - [`tiers`] decodes a schedule's JSON text into tier rows, treating
//!   malformed text as an empty schedule;
//! - [`resolver`] picks, for a line's quantity, the single applicable tier
//!   under the "highest qualifying threshold wins" rule;
//! - [`discounts`] turns a resolved tier into a discount instruction and
//!   assembles the full response;
//! - [`json`] is the trusted boundary around `serde_json`.

pub mod discounts;
pub mod json;
pub mod resolver;
pub mod tiers;
