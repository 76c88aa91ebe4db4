//! Verified core of a package-build orchestrator.
//!
//! A build run acquires source material (git checkouts, downloaded
//! archives, local paths), applies per-source patch lists, resolves the
//! build script from an ambiguous authoring surface, executes it under a
//! generated environment preamble, and packages exactly the files the
//! script produced.  The decisions of that run — dispatch, destinations,
//! script resolution, log substitution, file-set diffing, and the
//! step-by-step pipeline — live here with proved contracts; the
//! surrounding process, network, and filesystem work stays outside and
//! feeds plain values in.

pub mod error;
pub mod extract;
pub mod pipeline;
pub mod runner;
pub mod script;
pub mod snapshot;
pub mod source;
pub mod text;
