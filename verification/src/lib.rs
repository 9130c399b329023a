//! The core of a to-do list: an ordered list of items, the intents that change
//! it, and the bytes under which it is kept between sessions.

pub mod controller;
pub mod error;
pub mod gateway;
pub mod item;
pub mod laws;
pub mod store;
