//! Scalars that change through a shared reference on a single thread, with
//! the surface and the layout of the thread-safe family's atomics.

use vstd::prelude::*;

use core::cell::Cell;

verus! {

#[verifier::external_type_specification]
#[verifier::external_body]
#[verifier::reject_recursive_types(T)]
pub struct ExCell<T: ?Sized>(Cell<T>);

/// Relies on `Cell::new`: a cell that holds `value`.
pub assume_specification<T>[ Cell::<T>::new ](value: T) -> Cell<T>;

/// Relies on `Cell::get`: a copy of what the cell holds now. Its contents
/// change behind shared references, so nothing is stated of the copy.
pub assume_specification<T: Copy>[ Cell::<T>::get ](cell: &Cell<T>) -> T;

/// Relies on `Cell::set`: replaces what the cell holds.
pub assume_specification<T>[ Cell::<T>::set ](cell: &Cell<T>, val: T);

/// A `bool` that may be changed through a shared reference, on one thread
/// only. It has the size and alignment of a `bool`, as the thread-safe
/// `AtomicBool` has.
#[derive(Debug, Default)]
pub struct AtomicBool {
    cell: Cell<bool>,
}

impl AtomicBool {
    /// Creates a cell that holds `value`.
    pub fn new(value: bool) -> Self {
        AtomicBool { cell: Cell::new(value) }
    }

    /// Returns the value held now.
    pub fn load(&self) -> bool {
        self.cell.get()
    }

    /// Replaces the value held with `value`.
    pub fn store(&self, value: bool) {
        self.cell.set(value)
    }

    /// What a compare-and-exchange decides once it has read `held`: `Ok`
    /// with `held` where it equals `current`, so that `new` is stored, and
    /// `Err` with `held` otherwise, so that nothing is stored.
    pub fn exchange_outcome(held: bool, current: bool) -> (r: Result<bool, bool>)
        ensures
            r == (if held == current {
                Ok::<bool, bool>(held)
            } else {
                Err::<bool, bool>(held)
            }),
    {
        if held == current {
            Ok(held)
        } else {
            Err(held)
        }
    }

    /// Stores `new` if the value held is `current`. Returns `Ok` with the
    /// value that was held when it was replaced, `Err` with the value held
    /// otherwise, which then differs from `current`: the outcome that
    /// `exchange_outcome` gives for the value read, with `new` stored exactly
    /// when it is `Ok`.
    pub fn compare_exchange(&self, current: bool, new: bool) -> (r: Result<bool, bool>)
        ensures
            match r {
                Ok(v) => v == current,
                Err(v) => v != current,
            },
    {
        let held = self.cell.get();
        let outcome = Self::exchange_outcome(held, current);
        if outcome.is_ok() {
            self.cell.set(new);
        }
        outcome
    }
}

/// An `i8` that may be changed through a shared reference, on one thread
/// only. It has the size and alignment of an `i8`, as the thread-safe
/// `AtomicI8` has.
#[derive(Debug, Default)]
pub struct AtomicI8 {
    cell: Cell<i8>,
}

impl AtomicI8 {
    /// Creates a cell that holds `value`.
    pub fn new(value: i8) -> Self {
        AtomicI8 { cell: Cell::new(value) }
    }

    /// Returns the value held now.
    pub fn load(&self) -> i8 {
        self.cell.get()
    }

    /// Replaces the value held with `value`.
    pub fn store(&self, value: i8) {
        self.cell.set(value)
    }

    /// What a compare-and-exchange decides once it has read `held`: `Ok`
    /// with `held` where it equals `current`, so that `new` is stored, and
    /// `Err` with `held` otherwise, so that nothing is stored.
    pub fn exchange_outcome(held: i8, current: i8) -> (r: Result<i8, i8>)
        ensures
            r == (if held == current {
                Ok::<i8, i8>(held)
            } else {
                Err::<i8, i8>(held)
            }),
    {
        if held == current {
            Ok(held)
        } else {
            Err(held)
        }
    }

    /// Stores `new` if the value held is `current`. Returns `Ok` with the
    /// value that was held when it was replaced, `Err` with the value held
    /// otherwise, which then differs from `current`: the outcome that
    /// `exchange_outcome` gives for the value read, with `new` stored exactly
    /// when it is `Ok`.
    pub fn compare_exchange(&self, current: i8, new: i8) -> (r: Result<i8, i8>)
        ensures
            match r {
                Ok(v) => v == current,
                Err(v) => v != current,
            },
    {
        let held = self.cell.get();
        let outcome = Self::exchange_outcome(held, current);
        if outcome.is_ok() {
            self.cell.set(new);
        }
        outcome
    }
}

/// An `i16` that may be changed through a shared reference, on one thread
/// only. It has the size and alignment of an `i16`, as the thread-safe
/// `AtomicI16` has.
#[derive(Debug, Default)]
pub struct AtomicI16 {
    cell: Cell<i16>,
}

impl AtomicI16 {
    /// Creates a cell that holds `value`.
    pub fn new(value: i16) -> Self {
        AtomicI16 { cell: Cell::new(value) }
    }

    /// Returns the value held now.
    pub fn load(&self) -> i16 {
        self.cell.get()
    }

    /// Replaces the value held with `value`.
    pub fn store(&self, value: i16) {
        self.cell.set(value)
    }

    /// What a compare-and-exchange decides once it has read `held`: `Ok`
    /// with `held` where it equals `current`, so that `new` is stored, and
    /// `Err` with `held` otherwise, so that nothing is stored.
    pub fn exchange_outcome(held: i16, current: i16) -> (r: Result<i16, i16>)
        ensures
            r == (if held == current {
                Ok::<i16, i16>(held)
            } else {
                Err::<i16, i16>(held)
            }),
    {
        if held == current {
            Ok(held)
        } else {
            Err(held)
        }
    }

    /// Stores `new` if the value held is `current`. Returns `Ok` with the
    /// value that was held when it was replaced, `Err` with the value held
    /// otherwise, which then differs from `current`: the outcome that
    /// `exchange_outcome` gives for the value read, with `new` stored exactly
    /// when it is `Ok`.
    pub fn compare_exchange(&self, current: i16, new: i16) -> (r: Result<i16, i16>)
        ensures
            match r {
                Ok(v) => v == current,
                Err(v) => v != current,
            },
    {
        let held = self.cell.get();
        let outcome = Self::exchange_outcome(held, current);
        if outcome.is_ok() {
            self.cell.set(new);
        }
        outcome
    }
}

/// An `i32` that may be changed through a shared reference, on one thread
/// only. It has the size and alignment of an `i32`, as the thread-safe
/// `AtomicI32` has.
#[derive(Debug, Default)]
pub struct AtomicI32 {
    cell: Cell<i32>,
}

impl AtomicI32 {
    /// Creates a cell that holds `value`.
    pub fn new(value: i32) -> Self {
        AtomicI32 { cell: Cell::new(value) }
    }

    /// Returns the value held now.
    pub fn load(&self) -> i32 {
        self.cell.get()
    }

    /// Replaces the value held with `value`.
    pub fn store(&self, value: i32) {
        self.cell.set(value)
    }

    /// What a compare-and-exchange decides once it has read `held`: `Ok`
    /// with `held` where it equals `current`, so that `new` is stored, and
    /// `Err` with `held` otherwise, so that nothing is stored.
    pub fn exchange_outcome(held: i32, current: i32) -> (r: Result<i32, i32>)
        ensures
            r == (if held == current {
                Ok::<i32, i32>(held)
            } else {
                Err::<i32, i32>(held)
            }),
    {
        if held == current {
            Ok(held)
        } else {
            Err(held)
        }
    }

    /// Stores `new` if the value held is `current`. Returns `Ok` with the
    /// value that was held when it was replaced, `Err` with the value held
    /// otherwise, which then differs from `current`: the outcome that
    /// `exchange_outcome` gives for the value read, with `new` stored exactly
    /// when it is `Ok`.
    pub fn compare_exchange(&self, current: i32, new: i32) -> (r: Result<i32, i32>)
        ensures
            match r {
                Ok(v) => v == current,
                Err(v) => v != current,
            },
    {
        let held = self.cell.get();
        let outcome = Self::exchange_outcome(held, current);
        if outcome.is_ok() {
            self.cell.set(new);
        }
        outcome
    }
}

/// An `isize` that may be changed through a shared reference, on one thread
/// only. It has the size and alignment of an `isize`, as the thread-safe
/// `AtomicIsize` has.
#[derive(Debug, Default)]
pub struct AtomicIsize {
    cell: Cell<isize>,
}

impl AtomicIsize {
    /// Creates a cell that holds `value`.
    pub fn new(value: isize) -> Self {
        AtomicIsize { cell: Cell::new(value) }
    }

    /// Returns the value held now.
    pub fn load(&self) -> isize {
        self.cell.get()
    }

    /// Replaces the value held with `value`.
    pub fn store(&self, value: isize) {
        self.cell.set(value)
    }

    /// What a compare-and-exchange decides once it has read `held`: `Ok`
    /// with `held` where it equals `current`, so that `new` is stored, and
    /// `Err` with `held` otherwise, so that nothing is stored.
    pub fn exchange_outcome(held: isize, current: isize) -> (r: Result<isize, isize>)
        ensures
            r == (if held == current {
                Ok::<isize, isize>(held)
            } else {
                Err::<isize, isize>(held)
            }),
    {
        if held == current {
            Ok(held)
        } else {
            Err(held)
        }
    }

    /// Stores `new` if the value held is `current`. Returns `Ok` with the
    /// value that was held when it was replaced, `Err` with the value held
    /// otherwise, which then differs from `current`: the outcome that
    /// `exchange_outcome` gives for the value read, with `new` stored exactly
    /// when it is `Ok`.
    pub fn compare_exchange(&self, current: isize, new: isize) -> (r: Result<isize, isize>)
        ensures
            match r {
                Ok(v) => v == current,
                Err(v) => v != current,
            },
    {
        let held = self.cell.get();
        let outcome = Self::exchange_outcome(held, current);
        if outcome.is_ok() {
            self.cell.set(new);
        }
        outcome
    }
}

/// A `u8` that may be changed through a shared reference, on one thread
/// only. It has the size and alignment of a `u8`, as the thread-safe
/// `AtomicU8` has.
#[derive(Debug, Default)]
pub struct AtomicU8 {
    cell: Cell<u8>,
}

impl AtomicU8 {
    /// Creates a cell that holds `value`.
    pub fn new(value: u8) -> Self {
        AtomicU8 { cell: Cell::new(value) }
    }

    /// Returns the value held now.
    pub fn load(&self) -> u8 {
        self.cell.get()
    }

    /// Replaces the value held with `value`.
    pub fn store(&self, value: u8) {
        self.cell.set(value)
    }

    /// What a compare-and-exchange decides once it has read `held`: `Ok`
    /// with `held` where it equals `current`, so that `new` is stored, and
    /// `Err` with `held` otherwise, so that nothing is stored.
    pub fn exchange_outcome(held: u8, current: u8) -> (r: Result<u8, u8>)
        ensures
            r == (if held == current {
                Ok::<u8, u8>(held)
            } else {
                Err::<u8, u8>(held)
            }),
    {
        if held == current {
            Ok(held)
        } else {
            Err(held)
        }
    }

    /// Stores `new` if the value held is `current`. Returns `Ok` with the
    /// value that was held when it was replaced, `Err` with the value held
    /// otherwise, which then differs from `current`: the outcome that
    /// `exchange_outcome` gives for the value read, with `new` stored exactly
    /// when it is `Ok`.
    pub fn compare_exchange(&self, current: u8, new: u8) -> (r: Result<u8, u8>)
        ensures
            match r {
                Ok(v) => v == current,
                Err(v) => v != current,
            },
    {
        let held = self.cell.get();
        let outcome = Self::exchange_outcome(held, current);
        if outcome.is_ok() {
            self.cell.set(new);
        }
        outcome
    }
}

/// A `u16` that may be changed through a shared reference, on one thread
/// only. It has the size and alignment of a `u16`, as the thread-safe
/// `AtomicU16` has.
#[derive(Debug, Default)]
pub struct AtomicU16 {
    cell: Cell<u16>,
}

impl AtomicU16 {
    /// Creates a cell that holds `value`.
    pub fn new(value: u16) -> Self {
        AtomicU16 { cell: Cell::new(value) }
    }

    /// Returns the value held now.
    pub fn load(&self) -> u16 {
        self.cell.get()
    }

    /// Replaces the value held with `value`.
    pub fn store(&self, value: u16) {
        self.cell.set(value)
    }

    /// What a compare-and-exchange decides once it has read `held`: `Ok`
    /// with `held` where it equals `current`, so that `new` is stored, and
    /// `Err` with `held` otherwise, so that nothing is stored.
    pub fn exchange_outcome(held: u16, current: u16) -> (r: Result<u16, u16>)
        ensures
            r == (if held == current {
                Ok::<u16, u16>(held)
            } else {
                Err::<u16, u16>(held)
            }),
    {
        if held == current {
            Ok(held)
        } else {
            Err(held)
        }
    }

    /// Stores `new` if the value held is `current`. Returns `Ok` with the
    /// value that was held when it was replaced, `Err` with the value held
    /// otherwise, which then differs from `current`: the outcome that
    /// `exchange_outcome` gives for the value read, with `new` stored exactly
    /// when it is `Ok`.
    pub fn compare_exchange(&self, current: u16, new: u16) -> (r: Result<u16, u16>)
        ensures
            match r {
                Ok(v) => v == current,
                Err(v) => v != current,
            },
    {
        let held = self.cell.get();
        let outcome = Self::exchange_outcome(held, current);
        if outcome.is_ok() {
            self.cell.set(new);
        }
        outcome
    }
}

/// A `u32` that may be changed through a shared reference, on one thread
/// only. It has the size and alignment of a `u32`, as the thread-safe
/// `AtomicU32` has.
#[derive(Debug, Default)]
pub struct AtomicU32 {
    cell: Cell<u32>,
}

impl AtomicU32 {
    /// Creates a cell that holds `value`.
    pub fn new(value: u32) -> Self {
        AtomicU32 { cell: Cell::new(value) }
    }

    /// Returns the value held now.
    pub fn load(&self) -> u32 {
        self.cell.get()
    }

    /// Replaces the value held with `value`.
    pub fn store(&self, value: u32) {
        self.cell.set(value)
    }

    /// What a compare-and-exchange decides once it has read `held`: `Ok`
    /// with `held` where it equals `current`, so that `new` is stored, and
    /// `Err` with `held` otherwise, so that nothing is stored.
    pub fn exchange_outcome(held: u32, current: u32) -> (r: Result<u32, u32>)
        ensures
            r == (if held == current {
                Ok::<u32, u32>(held)
            } else {
                Err::<u32, u32>(held)
            }),
    {
        if held == current {
            Ok(held)
        } else {
            Err(held)
        }
    }

    /// Stores `new` if the value held is `current`. Returns `Ok` with the
    /// value that was held when it was replaced, `Err` with the value held
    /// otherwise, which then differs from `current`: the outcome that
    /// `exchange_outcome` gives for the value read, with `new` stored exactly
    /// when it is `Ok`.
    pub fn compare_exchange(&self, current: u32, new: u32) -> (r: Result<u32, u32>)
        ensures
            match r {
                Ok(v) => v == current,
                Err(v) => v != current,
            },
    {
        let held = self.cell.get();
        let outcome = Self::exchange_outcome(held, current);
        if outcome.is_ok() {
            self.cell.set(new);
        }
        outcome
    }
}

/// A `usize` that may be changed through a shared reference, on one thread
/// only. It has the size and alignment of a `usize`, as the thread-safe
/// `AtomicUsize` has.
#[derive(Debug, Default)]
pub struct AtomicUsize {
    cell: Cell<usize>,
}

impl AtomicUsize {
    /// Creates a cell that holds `value`.
    pub fn new(value: usize) -> Self {
        AtomicUsize { cell: Cell::new(value) }
    }

    /// Returns the value held now.
    pub fn load(&self) -> usize {
        self.cell.get()
    }

    /// Replaces the value held with `value`.
    pub fn store(&self, value: usize) {
        self.cell.set(value)
    }

    /// What a compare-and-exchange decides once it has read `held`: `Ok`
    /// with `held` where it equals `current`, so that `new` is stored, and
    /// `Err` with `held` otherwise, so that nothing is stored.
    pub fn exchange_outcome(held: usize, current: usize) -> (r: Result<usize, usize>)
        ensures
            r == (if held == current {
                Ok::<usize, usize>(held)
            } else {
                Err::<usize, usize>(held)
            }),
    {
        if held == current {
            Ok(held)
        } else {
            Err(held)
        }
    }

    /// Stores `new` if the value held is `current`. Returns `Ok` with the
    /// value that was held when it was replaced, `Err` with the value held
    /// otherwise, which then differs from `current`: the outcome that
    /// `exchange_outcome` gives for the value read, with `new` stored exactly
    /// when it is `Ok`.
    pub fn compare_exchange(&self, current: usize, new: usize) -> (r: Result<usize, usize>)
        ensures
            match r {
                Ok(v) => v == current,
                Err(v) => v != current,
            },
    {
        let held = self.cell.get();
        let outcome = Self::exchange_outcome(held, current);
        if outcome.is_ok() {
            self.cell.set(new);
        }
        outcome
    }
}

} // verus!
