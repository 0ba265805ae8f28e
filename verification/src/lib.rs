//! A one-way "push" synchronisation engine.
//!
//! The crate fingerprints local content, keeps user-supplied paths inside a
//! configured root, classifies a file against the record a metadata store
//! holds for it, and decides step by step what an upload has to do next.
//! Everything that touches a disk, a socket or a database is left to the
//! caller: the engine hands out an action, the caller performs it and reports
//! what happened.

pub mod bdrive;
pub mod conf;
pub mod db;
pub mod fs;
pub mod ssh;
