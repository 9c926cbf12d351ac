//! The rules of a session with libguestfs, the engine that looks into
//! virtual disk images, stated and proved.
//!
//! The engine is driven through one native handle. Every capability is a
//! function on that handle which takes C strings and hands back a status,
//! or a pointer that is null on failure, and notes the reason of a failure
//! on the handle. This library decides what goes to the engine and what its
//! answers mean; it does not call the engine. A caller asks a session for a
//! [`guestfs::Call`], makes that call, and hands what the engine gave back
//! to the session, together with the engine's note of its last failure as
//! it was read right after the call.
//!
//! - [`guestfs::ffi_utils`] turns texts into C strings and back, and copies
//!   the engine's null-terminated arrays.
//! - [`guestfs::GuestFs`] is one session: the owner of the handle, which is
//!   shut down once and released once.
//! - [`filesystem::GuestFileSystem`] is a session that several views hold
//!   together; the handle is released when the last of them lets go.
//! - [`guestfs::types`] owns what the engine allocates.

use vstd::prelude::*;

pub mod error;
pub mod filesystem;
pub mod guestfs;

pub use crate::error::Error;
pub use crate::filesystem::{AclType, Augeas, GuestFile, GuestFileSystem};
pub use crate::guestfs::GuestFs;

verus! {

/// The result of every fallible operation of this crate.
pub type Result<T> = core::result::Result<T, crate::error::Error>;

} // verus!
