//! The two fixed files of a bundle.

pub mod info_plist;
pub mod launch;
