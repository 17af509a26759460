//! The core of an embedded-engine bridge: the request/response protocol a host
//! speaks across a foreign-function boundary, with its timeout policy, its
//! error taxonomy and its streaming relay, stated as contracts and proved.
//!
//! The library decides; it does not wait. Wherever the engine, the file
//! system or the host has to be asked, a function here says what to ask and
//! another takes the answer, so that every decision is made on plain values
//! and holds for every answer.

pub mod boundary;
pub mod daemon;
pub mod errors;
pub mod exchange;
pub mod executor;
pub mod json;
pub mod lifecycle;
pub mod location;
pub mod scan;
pub mod stream;
pub mod text;
pub mod timeout;
pub mod translate;
pub mod volume;
pub mod wire;
