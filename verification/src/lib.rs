//! A content-import pipeline for EPUB-style zip containers.
//!
//! Given an archive path and an application-managed storage root, the
//! pipeline derives a per-item destination directory from the archive's
//! file stem, short-circuits when that directory already exists, and
//! otherwise plans the extraction of every member into it, rejecting any
//! member path that would escape the destination. The shell around the
//! library performs the filesystem work and feeds its outcomes back in as
//! plain values.

pub mod archive;
pub mod errors;
pub mod importer;
pub mod members;
pub mod paths;
pub mod status;
pub mod tool;
