//! Agent-side supervision library for a remotely controlled child server
//! process: the lifecycle state machine, the binary command codec, the
//! persisted identity record, the control-channel state machine, and the
//! derivations (download endpoint, launch arguments) that surround them.

pub mod channel;
pub mod codec;
pub mod config;
pub mod install;
pub mod launch;
pub mod state;
pub mod supervisor;
pub mod text;
