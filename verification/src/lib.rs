//! Upgrade orchestration and streaming-download logic for a locally installed
//! proxy daemon.
//!
//! The crate holds the decisions: how versions are read and ordered, which
//! release asset is downloaded, where a download is written and how its
//! progress advances, and in which order the steps of an upgrade or a restart
//! follow one another. Network, file system and process work is left to the
//! caller, which performs the action that a state asks for and hands back the
//! event that came of it.

pub mod download;
pub mod manager;
pub mod proxy;
pub mod release;
pub mod restart;
pub mod rules;
pub mod upgrade;
pub mod version;
