//! Statutory deadline and late-filing penalty assessment for annual company
//! filings, together with the plain record types of the payment-approval
//! console that sits beside it.

pub mod calendar;
pub mod compliance;
pub mod models;
mod text;
