//! Heuristic extraction of embedded, brotli-compressed assets from an
//! executable image.
//!
//! The library scans a designated read-only data region of a container for
//! fixed-size asset descriptors, translates the virtual addresses they hold
//! into file offsets, validates each candidate (bounds, name shape, and a
//! speculative decompression used as a validity oracle), and hands back the
//! accepted assets in scan order.  Container parsing and the compression
//! codec are outside collaborators, reached through a few trusted wrappers;
//! everything else is verified.

pub mod asset;
pub mod codec;
pub mod descriptor;
pub mod dumper;
pub mod error;
pub mod format;
pub mod inspect;
pub mod scan;
pub mod translate;
