//! The thread-safe family: the markers are `Send` and `Sync` themselves, the
//! lock is `parking_lot`'s, the owner handle counts atomically and the scalars
//! are atomics.

use vstd::prelude::*;

pub mod atomic;

pub use core::marker::{Send as MaybeSend, Sync as MaybeSync};

pub use parking_lot::Mutex;

pub use std::sync::Arc as Rc;

pub use self::atomic::{
    AtomicBool, AtomicI16, AtomicI32, AtomicI8, AtomicIsize, AtomicU16, AtomicU32, AtomicU8,
    AtomicUsize,
};

verus! {

/// An owned future of any type that yields a `T`. It is `Send`, so a pool of
/// worker threads may drive it.
pub type BoxFuture<'a, T> = core::pin::Pin<
    Box<dyn core::future::Future<Output = T> + Send + 'a>,
>;

} // verus!
