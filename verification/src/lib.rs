//! Organizes media files by capture date: classification by extension,
//! multi-source capture-date extraction with ordered fallback, synthesis of a
//! date-partitioned destination path, and planning of the copy/move step.

pub mod pserror;
pub mod strutil;
pub mod timestamp;
pub mod dates;
pub mod paths;
pub mod photo;
pub mod discovery;
pub mod relocate;
pub mod config;
pub mod configurator;
pub mod zipfiles;
