//! What this library takes from the host's system crates.
//!
//! Nothing here is proved: each function states what the crate it calls
//! defines, and the rest of the library is verified against those statements.

use vstd::prelude::*;

verus! {

/// The watch mask that asks for every kind of file system event.
pub const ALL_EVENTS_MASK: u32 = 0xfff;

/// The error number for "no such file or directory".
pub const NO_SUCH_ENTRY: i32 = 2;

/// The bits of `inotify::WatchMask::ALL_EVENTS`.
///
/// The inotify crate defines that mask as the union of its twelve event
/// bits, `0x001` up to `0x800`; unverified, the contract claims that
/// `bits()` hands back exactly that union.
#[verifier::external_body]
pub(crate) fn all_events_mask() -> (mask: u32)
    ensures
        mask == ALL_EVENTS_MASK,
{
    inotify::WatchMask::ALL_EVENTS.bits()
}

/// The value of `libc::ENOENT`.
///
/// The libc crate defines this constant per target. For Linux and Android,
/// the targets that have inotify, it is 2; unverified, the contract claims
/// that value, and it does not hold on the few targets that number their
/// errors otherwise.
#[verifier::external_body]
pub(crate) fn no_such_entry() -> (errno: i32)
    ensures
        errno == NO_SUCH_ENTRY,
{
    libc::ENOENT
}

} // verus!
