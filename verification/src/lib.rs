//! Core logic of a small single-page counter application: route matching,
//! the fetch-once counter state machine, and the decimal codec its body
//! format uses. The browser wiring around it lives elsewhere; everything
//! here is ordinary computation on plain values.

pub mod counter;
pub mod digits;
pub mod route;
