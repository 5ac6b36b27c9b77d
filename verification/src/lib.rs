//! Extraction of bibliographic metadata from ebook containers, and a small
//! template formatter for displaying it.
//!
//! The pipeline runs: a path is classified by extension into a container
//! format; a zip archive is scanned for its package document; the package
//! document is run through a streaming state machine that collects the
//! Dublin Core fields into a [`book::Metadata`] record; and a format string
//! renders fields of that record into display text.

pub mod book;
pub mod container;
pub mod filetypes;
pub mod formatting;
pub mod package;
pub mod strutil;
