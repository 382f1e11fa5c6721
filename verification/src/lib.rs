//! Boot pipeline for a self-contained executable that carries its own root
//! filesystem image: locating the embedded image inside the running binary,
//! planning the loop device, overlay and environment mounts, ordering the
//! irreversible kernel steps, and preparing the final process replacement.
//!
//! This crate holds the verified planning and decision logic; the kernel
//! calls themselves (mounts, namespace changes, the final exec) are issued
//! by a thin unverified driver that follows the plans produced here.

use vstd::prelude::*;

pub mod image;
pub mod mount;
pub mod pipeline;
pub mod shell;

verus! {

/// The directory under which the overlay scaffold is staged.
///
/// The path is a directory that the process no longer needs once the
/// pipeline has started, so hiding it behind mounts costs nothing.
pub fn staging_directory() -> (r: &'static str)
    ensures
        r@ == "/proc/self/fd"@,
{
    "/proc/self/fd"
}

} // verus!
