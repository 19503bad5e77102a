//! Self-extracting asset bundles.
//!
//! A packed binary is a base executable followed by a compressed archive of
//! assets and a twelve-byte footer. At startup the binary finds the archive
//! in its own image, takes the entry script and its source map out of it,
//! runs the script, and serves the script's native calls from the UI loop.
//!
//! * [`container`]: the layout of the packed image, the packer and the loader.
//! * [`archive`]: what is believed of the `zip` crate.
//! * [`builder`]: from a list of asset files to the archive and the image.
//! * [`resolver`]: from the archive to the two required texts.
//! * [`source_map`]: what is believed of the `sourcemap` crate.
//! * [`remap`]: from generated stack frames to frames in the authored source.
//! * [`report`]: the readable trace with the offending line and a caret.
//! * [`host`]: what the image must yield before the engine starts, and what
//!   the outcome of the run means for the process.
//! * [`bridge`]: what the UI loop does with each event.
//! * [`fault`]: the failure conditions and the exit status.
//! * [`text`]: decimal numerals and path separators.

pub mod fault;
pub mod container;
pub mod archive;
pub mod source_map;
pub mod text;
pub mod remap;
pub mod report;
pub mod builder;
pub mod resolver;
pub mod bridge;
pub mod host;
