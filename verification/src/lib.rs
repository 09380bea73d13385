//! Streaming gzip compression of single files, without the file system.
//!
//! The crate decides and transforms; its caller reads and writes. A transfer
//! is validated by [`transfer::compress_file`] or
//! [`transfer::decompress_file`], which resolve the output path by the rules
//! of [`naming`] and refuse one that is the input's own by those of [`path`].
//! It is then driven chunk by chunk through a [`transfer::Stream`], and it
//! counts as complete only once [`transfer::Finalizing::complete`] has been
//! told that the last bytes reached the output.

pub mod codec;
pub mod command;
pub mod error;
pub mod naming;
pub mod path;
pub mod transfer;
