//! Issuing payment invoices and confirming them from payment callbacks.
//!
//! The library holds the invoice lifecycle: an in-memory store of invoices,
//! the creation of a pending invoice and the application of a payment
//! notification. Transport, locking and serialisation live with the caller.

pub mod invoice;
pub mod store;
pub mod service;
pub mod lifecycle;
