//! Building a server from a modpack: a verified core.
//!
//! The heart of the crate is a batch download engine. [`batch`] hands the
//! artifacts of a pack out to a bounded number of workers; [`fetch`] takes one
//! artifact through existence check, mirror attempts with backoff, integrity
//! verification and finalization; [`integrity`] computes and compares
//! digests; [`resolve`] finds an artifact's true file name; [`guarantees`]
//! states what holds of every run. Around it stand the rules for reading
//! packs, installing loaders and writing the server's files.
//!
//! Nothing here performs input or output. The machines say what is to be
//! done and are told what happened; everything else is a function from plain
//! values to plain values.

pub mod batch;
pub mod cli;
pub mod client;
pub mod curseforge;
pub mod fetch;
pub mod filter;
pub mod guarantees;
pub mod installer;
pub mod integrity;
pub mod metadata;
pub mod mirror;
pub mod models;
pub mod modrinth;
pub mod outcome;
pub mod resolve;
pub mod scripts;
pub mod text;
pub mod utils;
