//! The update pipeline of a multi-artifact game client: release discovery,
//! version comparison and planning, hash-verified staging, and the atomic
//! swap of live files — with the elevation, restart and cancellation rules
//! the run obeys. Everything here is verified; the surrounding process
//! (network transfers, file handles, windows) lives outside and hands in
//! plain values.
pub mod colors;
pub mod component;
pub mod entrypoint;
pub mod filesystem;
pub mod github;
pub mod integrity;
pub mod iw3mp;
pub mod miles32;
pub mod process;
pub mod replace;
pub mod security_info;
pub mod text;
pub mod updater;
pub mod version;
pub mod worker;
pub mod wstring;
