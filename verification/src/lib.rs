//! Decision logic of a bridge between a local media pipeline and a remote
//! publish/subscribe broadcast session.
//!
//! Nothing here touches the network or the pipeline. Every function takes plain
//! values and returns plain values, so the code that owns the session and the
//! pipeline can ask this crate what to do next and carry it out.

pub mod catalog;
pub mod error;
pub mod frame;
pub mod h264;
pub mod negotiate;
pub mod publish;
pub mod session;
pub mod subscribe;
pub mod text;
