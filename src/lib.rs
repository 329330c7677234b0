//! Building blocks for libraries that work both on many threads and on one.
//!
//! Two families of items carry the same names. [`sync`] is for programs that
//! run on several threads: its markers are `Send` and `Sync`, its lock and
//! owner handle are thread-safe and its scalars are atomic. [`unsync`] is for
//! programs that run on one thread: every type satisfies its markers, and its
//! lock, owner handle and scalars do without synchronisation. Each scalar has
//! the same size and alignment in both families.
//!
//! The crate root exposes the single-thread family. Code that is written
//! against the names alone compiles against either family unchanged; a
//! function that really hands a value to another thread must ask for `Send`
//! or `Sync` itself, never for the markers.

use vstd::prelude::*;

pub mod sync;
pub mod unsync;

pub use unsync::{
    AtomicBool, AtomicI16, AtomicI32, AtomicI8, AtomicIsize, AtomicU16, AtomicU32, AtomicU8,
    AtomicUsize, BoxFuture, MaybeSend, MaybeSync, Mutex, Rc,
};

verus! {

/// Holds of `T` only where `T` satisfies the markers of both families.
proof fn satisfies_both_send_markers<T: unsync::MaybeSend + sync::MaybeSend + ?Sized>() {
}

/// Holds of `T` only where `T` satisfies the markers of both families.
proof fn satisfies_both_sync_markers<T: unsync::MaybeSync + sync::MaybeSync + ?Sized>() {
}

/// Every type that may be moved to another thread satisfies the transfer
/// marker of both families: the same guarantee in the thread-safe one, a
/// weaker one in the single-thread one. The bound is the statement; the body
/// type-checks only because it holds.
pub proof fn send_types_are_maybe_send<T: Send + ?Sized>() {
    satisfies_both_send_markers::<T>();
}

/// Every type whose references may be shared between threads satisfies the
/// sharing marker of both families.
pub proof fn sync_types_are_maybe_sync<T: Sync + ?Sized>() {
    satisfies_both_sync_markers::<T>();
}

/// Every type, also one that may not be sent or shared between threads,
/// satisfies both markers of the single-thread family.
pub proof fn every_type_has_single_thread_markers<T: ?Sized>() {
    single_thread_markers::<T>();
}

/// The single-thread lock around a value that may be moved to another thread
/// satisfies both markers of its family, and may itself be moved to another
/// thread.
pub proof fn locks_of_send_values_have_markers<T: Send + ?Sized>() {
    single_thread_markers::<unsync::Mutex<T>>();
    satisfies_both_send_markers::<unsync::Mutex<T>>();
}

/// Holds of `T` only where `T` satisfies both markers of the single-thread
/// family.
proof fn single_thread_markers<T: unsync::MaybeSend + unsync::MaybeSync + ?Sized>() {
}

} // verus!
