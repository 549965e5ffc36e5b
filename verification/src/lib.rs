//! A single-owner cell whose value is made on first use and kept from then on.
//!
//! [`Lazy`] is the cell; `cell` holds it with its contracts, `laws` holds
//! what follows from those contracts across several calls.

pub mod cell;
pub mod laws;

pub use cell::Lazy;
