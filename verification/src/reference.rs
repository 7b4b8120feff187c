//! The example interface: a small library described through the IR and the
//! runtime patterns, exercising functions, types, callbacks and services.

pub mod ambiguous1;
pub mod ambiguous2;
pub mod callbacks;
pub mod functions;
pub mod services;
pub mod success_enum;
pub mod types;
