//! The sealed-trait pattern as a verified transformation over a structured
//! model of Rust items.
//!
//! A trait declaration is rewritten to require a marker supertrait that lives
//! in a companion module of restricted visibility; an impl of that trait is
//! accompanied by an impl of the marker for the same self type. Both sides
//! derive the companion module's name from the trait's identifier alone.
pub mod naming;
pub mod syntax;
pub mod expand;
pub mod laws;
