//! Decision logic of an application's self-update: is there a newer version,
//! and if so, how is it fetched, verified and applied.
//!
//! The library performs no I/O. The host fetches, stages and installs; it hands
//! what it observed to the functions here and acts on what they return.

pub mod checker;
pub mod greeting;
pub mod installer;
pub mod outside;
pub mod task;
pub mod transcript;
pub mod version;
