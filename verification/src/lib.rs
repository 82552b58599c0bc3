//! The decisions of the TernReader web tools, verified.
//!
//! The service reports the latest firmware of the reader and hands it out,
//! and converts images and books for it. The heart of this library is the
//! firmware resolver, which decides on every request whether to serve a
//! firmware file that an operator placed in the cache directory, a binary
//! downloaded before, or a fresh download, and for how long the release
//! metadata fetched last may still be used. The resolver does no I/O: it
//! says what is to be done, and is told what came of it.
//!
//! - [`resolver`] is the state machine, [`protocol`] what it exchanges
//!   with its caller, and [`model`] what it does, as a function on views.
//! - [`course`] states the whole resolution as one function of what can be
//!   observed, and proves that the resolver follows it; [`laws`] holds
//!   what is true of every run.
//! - [`release`] and [`scan`] hold the rules on releases, assets and
//!   firmware files in the cache directory.
//! - [`options`], [`sizes`], [`fonts`] and [`filename`] read what a
//!   conversion request asks for, and [`conversion`] says what is
//!   answered where a conversion fails.
//! - [`paths`], [`clock`], [`info`] and [`text`] are what the others rest
//!   on.

pub mod clock;
pub mod conversion;
pub mod course;
pub mod filename;
pub mod fonts;
pub mod info;
pub mod laws;
pub mod model;
pub mod options;
pub mod paths;
pub mod protocol;
pub mod release;
pub mod resolver;
pub mod scan;
pub mod sizes;
pub mod text;
