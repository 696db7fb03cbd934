//! Decision logic of a desktop host that embeds a bundled server process:
//! deployment of the server bundle, launch planning, supervision of the child
//! process, lifecycle status records and the helpers of the offline cache.
//!
//! Every function here is pure or talks to the outside world through a small
//! declared boundary; the host performs the file, process and channel work
//! and feeds the results back as plain values.

pub mod cache;
mod clock;
pub mod controller;
pub mod launch;
pub mod locate;
pub mod meta;
pub mod scale;
pub mod status;
pub mod sync;
pub mod supervisor;
pub mod text;
pub mod traces;
