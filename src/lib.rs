//! Core of a terminal directory browser: directory listings, navigation with
//! rollback, a recoverable holding area for deleted objects, colour schemes
//! and a few text views.

pub mod colors;
pub mod conf;
pub mod current_dir;
pub mod errors;
pub mod ftype;
pub mod listing;
pub mod nav;
pub mod os_release;
pub mod paths;
pub mod preview;
pub mod recycle_bin;
