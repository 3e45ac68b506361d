//! Verified core of a POSIX directory-stream binding.
//!
//! A directory stream is an OS-owned handle over a directory's entry list,
//! read one record at a time through native calls that signal both failure
//! and end-of-stream with the same null return, distinguishable only through
//! the per-thread error slot. The native calls themselves cannot be verified;
//! everything the binding *decides* can be, and lives here:
//!
//! - [`error`]: the structured errors a failing call is translated into;
//! - [`dirent`]: ownership of the native handle, the recovery of an entry's
//!   name from its NUL-terminated record, and the clear-then-call-then-check
//!   protocol that tells a read failure from true exhaustion;
//! - [`stream`]: the logical state machine of a stream cursor, with the
//!   position and exhaustion laws proved of it;
//! - [`stat`]: the pure computations fed to the metadata syscalls: device
//!   number packing, timestamp encodings, and `*at` flag resolution.
//!
//! The thin native layer that performs the actual system calls consumes this
//! crate; it reports each call's raw outcome (handle or null, record or null,
//! the error code in the slot) and lets the verified functions decide what
//! that outcome means.

pub mod dirent;
pub mod error;
pub mod stat;
pub mod stream;
