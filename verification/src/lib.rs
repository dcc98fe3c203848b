//! Core of a small user-listing service: two routes over one relational
//! table. This crate holds the decision logic of the two handlers — which
//! statement to run, with which bound parameters, and which reply each
//! database outcome maps to — together with a model of the table itself,
//! against which the service-level guarantees are proved. The HTTP listener,
//! the connection pool and the driver calls live outside the crate and hand
//! plain values in and out.

pub mod handlers;
pub mod table;
pub mod user;
