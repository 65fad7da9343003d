//! Service supervision engine of a root supervisor process: the static service
//! table, the per-service lifecycle state machine, the startup sequencer and the
//! decisions of the monitor/restart loop.
//!
//! The engine performs no process control itself. The caller spawns, polls and
//! sleeps, and hands each outcome to the engine as a plain value; every state
//! change of the record table is a verified function of those outcomes.

pub mod config;
pub mod defs;
pub mod manager;
