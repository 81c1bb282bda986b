//! Retrieve the calling thread's kernel-level identifier as a `u64`.
//!
//! The operating system hands the identifier back as a 32-bit quantity;
//! this crate widens it to an unsigned 64-bit integer, zero-extending the
//! 32-bit pattern so that no value ever looks negative to a caller.

use vstd::prelude::*;

verus! {

/// The unsigned 64-bit value obtained by zero-extending the 32-bit pattern
/// of a signed raw identifier: the value itself when it is non-negative,
/// its two's-complement reinterpretation otherwise.
pub open spec fn widened(raw: i32) -> u64 {
    if raw >= 0 {
        raw as u64
    } else {
        (raw + 0x1_0000_0000) as u64
    }
}

/// Relies on `nix::unistd::gettid`, a safe wrapper over the kernel's
/// thread-id system call, which returns the calling thread's identifier
/// and is documented to always succeed. Which number comes back depends
/// on the calling thread, so nothing is claimed of the result here;
/// `widen_raw_id` states exactly what is returned for each raw value.
#[verifier::external_body]
fn raw_thread_id() -> i32 {
    nix::unistd::gettid().as_raw()
}

/// Widen a raw 32-bit identifier to `u64` by zero-extension.
pub fn widen_raw_id(raw: i32) -> (r: u64)
    ensures
        r == widened(raw),
        r <= u32::MAX,
        raw >= 0 ==> r == raw,
{
    if raw >= 0 {
        raw as u64
    } else {
        (raw as i64 + 0x1_0000_0000i64) as u64
    }
}

/// Get the current thread's thread id, widened to `u64`.
///
/// The value fits in 32 bits; it is stable for the life of the calling
/// thread and distinct from the id of every other concurrently live
/// thread, though neither is a fact this crate can state of a single call.
pub fn gettid() -> (r: u64)
    ensures
        r <= u32::MAX,
        exists|raw: i32| r == widened(raw),
{
    gettid_impl()
}

/// The platform strategy: one system call, then the widening.
pub fn gettid_impl() -> (r: u64)
    ensures
        r <= u32::MAX,
        exists|raw: i32| r == widened(raw),
{
    let raw: i32 = raw_thread_id();
    widen_raw_id(raw)
}

/// Widening loses no information: two raw identifiers that widen to the
/// same value are the same identifier.
pub proof fn lemma_widened_injective(a: i32, b: i32)
    requires
        widened(a) == widened(b),
    ensures
        a == b,
{
}

/// Every widened identifier is representable without truncation as an
/// unsigned 64-bit integer, and in fact fits in 32 bits; a non-negative
/// raw value is preserved exactly.
pub proof fn lemma_widened_range(raw: i32)
    ensures
        widened(raw) <= u32::MAX,
        raw >= 0 ==> widened(raw) == raw,
{
}

} // verus!
