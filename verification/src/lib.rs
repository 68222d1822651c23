//! Version resolution and installation mapping for the Python toolchain.
//!
//! The crate decides which upstream tags are installable versions, which
//! pre-built release serves a version on a platform, and where the
//! interpreter and its package directories are found after an install. Every
//! operation is a function from plain values to plain values; fetching,
//! reading files and running processes are left to the caller.
//!
//! - [`proto`] holds the operations themselves.
//! - [`version`] and [`tags`] say which tags name a version and which
//!   version each names; [`grammar`] holds what is proved of that.
//! - [`release`] holds the release index and the resolution of a download.
//! - [`locate`] says where an install keeps the interpreter and its global
//!   packages, and [`host`] how the host names an executable and a path.
//! - [`shim`], [`command`] and [`tool`] hold what the operations hand back;
//!   the shims are a map in which no name occurs twice.
//! - [`text`] holds helpers on strings.

pub mod command;
pub mod grammar;
pub mod host;
pub mod locate;
pub mod proto;
pub mod release;
pub mod shim;
pub mod tags;
pub mod text;
pub mod tool;
pub mod version;
