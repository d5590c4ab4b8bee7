//! A request counter: a count of the requests served, incremented once per
//! request under a lock, and the bodies of the routes that serve it.

pub mod counter;
pub mod laws;
pub mod render;
pub mod routes;
