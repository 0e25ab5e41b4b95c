//! Bridge between a blocking audio capture stage and an asynchronous relay
//! publisher: the frames that cross it, the bounded channel that orders them,
//! and the decisions that each side takes on what happens around it.

pub mod bridge;
pub mod capture;
pub mod channel;
pub mod config;
pub mod frame;
pub mod publish;
pub mod run;
pub mod trace;
pub mod track;
