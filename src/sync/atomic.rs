//! Scalars shared between threads: thin wrappers around core's atomics that
//! always use sequentially consistent ordering.

use vstd::prelude::*;

use core::sync::atomic::Ordering;

verus! {

/// Relies on `AtomicBool::compare_exchange`: on success it returns the value that
/// was replaced, which equals `current`; on failure the value held, which
/// differs from `current`.
#[verifier::external_body]
fn compare_exchange_bool(
    atomic: &core::sync::atomic::AtomicBool,
    current: bool,
    new: bool,
) -> (r: Result<bool, bool>)
    ensures
        match r {
            Ok(v) => v == current,
            Err(v) => v != current,
        },
{
    atomic.compare_exchange(current, new, Ordering::SeqCst, Ordering::SeqCst)
}

/// A `bool` that may be changed through a shared reference from any
/// thread. It has the size and alignment of a `bool`, as the single-thread
/// `AtomicBool` has.
#[derive(Debug, Default)]
pub struct AtomicBool {
    inner: core::sync::atomic::AtomicBool,
}

impl AtomicBool {
    /// Creates an atomic that holds `value`.
    pub fn new(value: bool) -> Self {
        AtomicBool { inner: core::sync::atomic::AtomicBool::new(value) }
    }

    /// Returns the value held now.
    pub fn load(&self) -> bool {
        self.inner.load(Ordering::SeqCst)
    }

    /// Replaces the value held with `value`.
    pub fn store(&self, value: bool) {
        self.inner.store(value, Ordering::SeqCst)
    }

    /// Stores `new` if the value held is `current`, in one indivisible step.
    /// Returns `Ok` with the value that was held when it was replaced, `Err`
    /// with the value held otherwise, which then differs from `current`.
    pub fn compare_exchange(&self, current: bool, new: bool) -> (r: Result<bool, bool>)
        ensures
            match r {
                Ok(v) => v == current,
                Err(v) => v != current,
            },
    {
        compare_exchange_bool(&self.inner, current, new)
    }
}

/// Relies on `AtomicI8::compare_exchange`: on success it returns the value that
/// was replaced, which equals `current`; on failure the value held, which
/// differs from `current`.
#[verifier::external_body]
fn compare_exchange_i8(
    atomic: &core::sync::atomic::AtomicI8,
    current: i8,
    new: i8,
) -> (r: Result<i8, i8>)
    ensures
        match r {
            Ok(v) => v == current,
            Err(v) => v != current,
        },
{
    atomic.compare_exchange(current, new, Ordering::SeqCst, Ordering::SeqCst)
}

/// An `i8` that may be changed through a shared reference from any
/// thread. It has the size and alignment of an `i8`, as the single-thread
/// `AtomicI8` has.
#[derive(Debug, Default)]
pub struct AtomicI8 {
    inner: core::sync::atomic::AtomicI8,
}

impl AtomicI8 {
    /// Creates an atomic that holds `value`.
    pub fn new(value: i8) -> Self {
        AtomicI8 { inner: core::sync::atomic::AtomicI8::new(value) }
    }

    /// Returns the value held now.
    pub fn load(&self) -> i8 {
        self.inner.load(Ordering::SeqCst)
    }

    /// Replaces the value held with `value`.
    pub fn store(&self, value: i8) {
        self.inner.store(value, Ordering::SeqCst)
    }

    /// Stores `new` if the value held is `current`, in one indivisible step.
    /// Returns `Ok` with the value that was held when it was replaced, `Err`
    /// with the value held otherwise, which then differs from `current`.
    pub fn compare_exchange(&self, current: i8, new: i8) -> (r: Result<i8, i8>)
        ensures
            match r {
                Ok(v) => v == current,
                Err(v) => v != current,
            },
    {
        compare_exchange_i8(&self.inner, current, new)
    }
}

/// Relies on `AtomicI16::compare_exchange`: on success it returns the value that
/// was replaced, which equals `current`; on failure the value held, which
/// differs from `current`.
#[verifier::external_body]
fn compare_exchange_i16(
    atomic: &core::sync::atomic::AtomicI16,
    current: i16,
    new: i16,
) -> (r: Result<i16, i16>)
    ensures
        match r {
            Ok(v) => v == current,
            Err(v) => v != current,
        },
{
    atomic.compare_exchange(current, new, Ordering::SeqCst, Ordering::SeqCst)
}

/// An `i16` that may be changed through a shared reference from any
/// thread. It has the size and alignment of an `i16`, as the single-thread
/// `AtomicI16` has.
#[derive(Debug, Default)]
pub struct AtomicI16 {
    inner: core::sync::atomic::AtomicI16,
}

impl AtomicI16 {
    /// Creates an atomic that holds `value`.
    pub fn new(value: i16) -> Self {
        AtomicI16 { inner: core::sync::atomic::AtomicI16::new(value) }
    }

    /// Returns the value held now.
    pub fn load(&self) -> i16 {
        self.inner.load(Ordering::SeqCst)
    }

    /// Replaces the value held with `value`.
    pub fn store(&self, value: i16) {
        self.inner.store(value, Ordering::SeqCst)
    }

    /// Stores `new` if the value held is `current`, in one indivisible step.
    /// Returns `Ok` with the value that was held when it was replaced, `Err`
    /// with the value held otherwise, which then differs from `current`.
    pub fn compare_exchange(&self, current: i16, new: i16) -> (r: Result<i16, i16>)
        ensures
            match r {
                Ok(v) => v == current,
                Err(v) => v != current,
            },
    {
        compare_exchange_i16(&self.inner, current, new)
    }
}

/// Relies on `AtomicI32::compare_exchange`: on success it returns the value that
/// was replaced, which equals `current`; on failure the value held, which
/// differs from `current`.
#[verifier::external_body]
fn compare_exchange_i32(
    atomic: &core::sync::atomic::AtomicI32,
    current: i32,
    new: i32,
) -> (r: Result<i32, i32>)
    ensures
        match r {
            Ok(v) => v == current,
            Err(v) => v != current,
        },
{
    atomic.compare_exchange(current, new, Ordering::SeqCst, Ordering::SeqCst)
}

/// An `i32` that may be changed through a shared reference from any
/// thread. It has the size and alignment of an `i32`, as the single-thread
/// `AtomicI32` has.
#[derive(Debug, Default)]
pub struct AtomicI32 {
    inner: core::sync::atomic::AtomicI32,
}

impl AtomicI32 {
    /// Creates an atomic that holds `value`.
    pub fn new(value: i32) -> Self {
        AtomicI32 { inner: core::sync::atomic::AtomicI32::new(value) }
    }

    /// Returns the value held now.
    pub fn load(&self) -> i32 {
        self.inner.load(Ordering::SeqCst)
    }

    /// Replaces the value held with `value`.
    pub fn store(&self, value: i32) {
        self.inner.store(value, Ordering::SeqCst)
    }

    /// Stores `new` if the value held is `current`, in one indivisible step.
    /// Returns `Ok` with the value that was held when it was replaced, `Err`
    /// with the value held otherwise, which then differs from `current`.
    pub fn compare_exchange(&self, current: i32, new: i32) -> (r: Result<i32, i32>)
        ensures
            match r {
                Ok(v) => v == current,
                Err(v) => v != current,
            },
    {
        compare_exchange_i32(&self.inner, current, new)
    }
}

/// Relies on `AtomicIsize::compare_exchange`: on success it returns the value that
/// was replaced, which equals `current`; on failure the value held, which
/// differs from `current`.
#[verifier::external_body]
fn compare_exchange_isize(
    atomic: &core::sync::atomic::AtomicIsize,
    current: isize,
    new: isize,
) -> (r: Result<isize, isize>)
    ensures
        match r {
            Ok(v) => v == current,
            Err(v) => v != current,
        },
{
    atomic.compare_exchange(current, new, Ordering::SeqCst, Ordering::SeqCst)
}

/// An `isize` that may be changed through a shared reference from any
/// thread. It has the size and alignment of an `isize`, as the single-thread
/// `AtomicIsize` has.
#[derive(Debug, Default)]
pub struct AtomicIsize {
    inner: core::sync::atomic::AtomicIsize,
}

impl AtomicIsize {
    /// Creates an atomic that holds `value`.
    pub fn new(value: isize) -> Self {
        AtomicIsize { inner: core::sync::atomic::AtomicIsize::new(value) }
    }

    /// Returns the value held now.
    pub fn load(&self) -> isize {
        self.inner.load(Ordering::SeqCst)
    }

    /// Replaces the value held with `value`.
    pub fn store(&self, value: isize) {
        self.inner.store(value, Ordering::SeqCst)
    }

    /// Stores `new` if the value held is `current`, in one indivisible step.
    /// Returns `Ok` with the value that was held when it was replaced, `Err`
    /// with the value held otherwise, which then differs from `current`.
    pub fn compare_exchange(&self, current: isize, new: isize) -> (r: Result<isize, isize>)
        ensures
            match r {
                Ok(v) => v == current,
                Err(v) => v != current,
            },
    {
        compare_exchange_isize(&self.inner, current, new)
    }
}

/// Relies on `AtomicU8::compare_exchange`: on success it returns the value that
/// was replaced, which equals `current`; on failure the value held, which
/// differs from `current`.
#[verifier::external_body]
fn compare_exchange_u8(
    atomic: &core::sync::atomic::AtomicU8,
    current: u8,
    new: u8,
) -> (r: Result<u8, u8>)
    ensures
        match r {
            Ok(v) => v == current,
            Err(v) => v != current,
        },
{
    atomic.compare_exchange(current, new, Ordering::SeqCst, Ordering::SeqCst)
}

/// A `u8` that may be changed through a shared reference from any
/// thread. It has the size and alignment of a `u8`, as the single-thread
/// `AtomicU8` has.
#[derive(Debug, Default)]
pub struct AtomicU8 {
    inner: core::sync::atomic::AtomicU8,
}

impl AtomicU8 {
    /// Creates an atomic that holds `value`.
    pub fn new(value: u8) -> Self {
        AtomicU8 { inner: core::sync::atomic::AtomicU8::new(value) }
    }

    /// Returns the value held now.
    pub fn load(&self) -> u8 {
        self.inner.load(Ordering::SeqCst)
    }

    /// Replaces the value held with `value`.
    pub fn store(&self, value: u8) {
        self.inner.store(value, Ordering::SeqCst)
    }

    /// Stores `new` if the value held is `current`, in one indivisible step.
    /// Returns `Ok` with the value that was held when it was replaced, `Err`
    /// with the value held otherwise, which then differs from `current`.
    pub fn compare_exchange(&self, current: u8, new: u8) -> (r: Result<u8, u8>)
        ensures
            match r {
                Ok(v) => v == current,
                Err(v) => v != current,
            },
    {
        compare_exchange_u8(&self.inner, current, new)
    }
}

/// Relies on `AtomicU16::compare_exchange`: on success it returns the value that
/// was replaced, which equals `current`; on failure the value held, which
/// differs from `current`.
#[verifier::external_body]
fn compare_exchange_u16(
    atomic: &core::sync::atomic::AtomicU16,
    current: u16,
    new: u16,
) -> (r: Result<u16, u16>)
    ensures
        match r {
            Ok(v) => v == current,
            Err(v) => v != current,
        },
{
    atomic.compare_exchange(current, new, Ordering::SeqCst, Ordering::SeqCst)
}

/// A `u16` that may be changed through a shared reference from any
/// thread. It has the size and alignment of a `u16`, as the single-thread
/// `AtomicU16` has.
#[derive(Debug, Default)]
pub struct AtomicU16 {
    inner: core::sync::atomic::AtomicU16,
}

impl AtomicU16 {
    /// Creates an atomic that holds `value`.
    pub fn new(value: u16) -> Self {
        AtomicU16 { inner: core::sync::atomic::AtomicU16::new(value) }
    }

    /// Returns the value held now.
    pub fn load(&self) -> u16 {
        self.inner.load(Ordering::SeqCst)
    }

    /// Replaces the value held with `value`.
    pub fn store(&self, value: u16) {
        self.inner.store(value, Ordering::SeqCst)
    }

    /// Stores `new` if the value held is `current`, in one indivisible step.
    /// Returns `Ok` with the value that was held when it was replaced, `Err`
    /// with the value held otherwise, which then differs from `current`.
    pub fn compare_exchange(&self, current: u16, new: u16) -> (r: Result<u16, u16>)
        ensures
            match r {
                Ok(v) => v == current,
                Err(v) => v != current,
            },
    {
        compare_exchange_u16(&self.inner, current, new)
    }
}

/// Relies on `AtomicU32::compare_exchange`: on success it returns the value that
/// was replaced, which equals `current`; on failure the value held, which
/// differs from `current`.
#[verifier::external_body]
fn compare_exchange_u32(
    atomic: &core::sync::atomic::AtomicU32,
    current: u32,
    new: u32,
) -> (r: Result<u32, u32>)
    ensures
        match r {
            Ok(v) => v == current,
            Err(v) => v != current,
        },
{
    atomic.compare_exchange(current, new, Ordering::SeqCst, Ordering::SeqCst)
}

/// A `u32` that may be changed through a shared reference from any
/// thread. It has the size and alignment of a `u32`, as the single-thread
/// `AtomicU32` has.
#[derive(Debug, Default)]
pub struct AtomicU32 {
    inner: core::sync::atomic::AtomicU32,
}

impl AtomicU32 {
    /// Creates an atomic that holds `value`.
    pub fn new(value: u32) -> Self {
        AtomicU32 { inner: core::sync::atomic::AtomicU32::new(value) }
    }

    /// Returns the value held now.
    pub fn load(&self) -> u32 {
        self.inner.load(Ordering::SeqCst)
    }

    /// Replaces the value held with `value`.
    pub fn store(&self, value: u32) {
        self.inner.store(value, Ordering::SeqCst)
    }

    /// Stores `new` if the value held is `current`, in one indivisible step.
    /// Returns `Ok` with the value that was held when it was replaced, `Err`
    /// with the value held otherwise, which then differs from `current`.
    pub fn compare_exchange(&self, current: u32, new: u32) -> (r: Result<u32, u32>)
        ensures
            match r {
                Ok(v) => v == current,
                Err(v) => v != current,
            },
    {
        compare_exchange_u32(&self.inner, current, new)
    }
}

/// Relies on `AtomicUsize::compare_exchange`: on success it returns the value that
/// was replaced, which equals `current`; on failure the value held, which
/// differs from `current`.
#[verifier::external_body]
fn compare_exchange_usize(
    atomic: &core::sync::atomic::AtomicUsize,
    current: usize,
    new: usize,
) -> (r: Result<usize, usize>)
    ensures
        match r {
            Ok(v) => v == current,
            Err(v) => v != current,
        },
{
    atomic.compare_exchange(current, new, Ordering::SeqCst, Ordering::SeqCst)
}

/// A `usize` that may be changed through a shared reference from any
/// thread. It has the size and alignment of a `usize`, as the single-thread
/// `AtomicUsize` has.
#[derive(Debug, Default)]
pub struct AtomicUsize {
    inner: core::sync::atomic::AtomicUsize,
}

impl AtomicUsize {
    /// Creates an atomic that holds `value`.
    pub fn new(value: usize) -> Self {
        AtomicUsize { inner: core::sync::atomic::AtomicUsize::new(value) }
    }

    /// Returns the value held now.
    pub fn load(&self) -> usize {
        self.inner.load(Ordering::SeqCst)
    }

    /// Replaces the value held with `value`.
    pub fn store(&self, value: usize) {
        self.inner.store(value, Ordering::SeqCst)
    }

    /// Stores `new` if the value held is `current`, in one indivisible step.
    /// Returns `Ok` with the value that was held when it was replaced, `Err`
    /// with the value held otherwise, which then differs from `current`.
    pub fn compare_exchange(&self, current: usize, new: usize) -> (r: Result<usize, usize>)
        ensures
            match r {
                Ok(v) => v == current,
                Err(v) => v != current,
            },
    {
        compare_exchange_usize(&self.inner, current, new)
    }
}

} // verus!
