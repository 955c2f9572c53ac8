//! What the service answers on each of its routes.

pub mod hello;
