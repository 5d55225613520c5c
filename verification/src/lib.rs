//! Verified core of a desktop launcher that supervises a script-based
//! backend process: a bounded log buffer, per-stream pipe monitors, an
//! interpreter resolver, a bind-once control channel, and the start/stop/
//! install state machine that drives them.
mod clock;
pub mod log_sink;
pub mod pipe;
pub mod control;
pub mod decimal;
pub mod resolver;
pub mod supervisor;
