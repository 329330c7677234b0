//! The single-thread family: markers that every type satisfies, a lock built
//! on `RefCell`, a non-atomic owner handle and scalar cells without
//! synchronisation.

use vstd::prelude::*;

use core::cell::{BorrowMutError, RefCell, RefMut};

pub mod atomic;

pub use std::rc::Rc;

pub use self::atomic::{
    AtomicBool, AtomicI16, AtomicI32, AtomicI8, AtomicIsize, AtomicU16, AtomicU32, AtomicU8,
    AtomicUsize,
};

verus! {

/// An owned future of any type that yields a `T`, driven on the thread that
/// made it: unlike the thread-safe family's, it need not be `Send`.
pub type BoxFuture<'a, T> = core::pin::Pin<Box<dyn core::future::Future<Output = T> + 'a>>;

/// Stands in for `Send` where a value only has to be sendable when the
/// program runs on several threads. In this family every type satisfies it,
/// so it allows nothing to cross a thread boundary: a function that really
/// moves a value to another thread must ask for `Send` itself.
pub trait MaybeSend {}

/// Every type may be sent, since nothing here is ever sent.
impl<T: ?Sized> MaybeSend for T {}

/// Stands in for `Sync` where a reference only has to be shareable when the
/// program runs on several threads. In this family every type satisfies it,
/// so it allows no reference to cross a thread boundary: a function that
/// really shares a reference with another thread must ask for `Sync` itself.
pub trait MaybeSync {}

/// Every type may be shared, since nothing here is ever shared.
impl<T: ?Sized> MaybeSync for T {}

#[verifier::external_type_specification]
#[verifier::external_body]
#[verifier::reject_recursive_types(T)]
pub struct ExRefCell<T: ?Sized>(RefCell<T>);

#[verifier::external_type_specification]
#[verifier::external_body]
#[verifier::reject_recursive_types(T)]
pub struct ExRefMut<'b, T: ?Sized + 'b>(RefMut<'b, T>);

#[verifier::external_type_specification]
#[verifier::external_body]
pub struct ExBorrowMutError(BorrowMutError);

/// Relies on `RefCell::new`: a cell that owns `value`, not borrowed.
pub assume_specification<T>[ RefCell::<T>::new ](value: T) -> RefCell<T>;

/// Relies on `RefCell::try_borrow_mut`: an exclusive borrow of the contents,
/// or an error while another borrow of the same cell is alive; it never panics.
pub assume_specification<T: ?Sized>[ RefCell::<T>::try_borrow_mut ](cell: &RefCell<T>) -> Result<
    RefMut<'_, T>,
    BorrowMutError,
>;

/// Relies on `RefCell::get_mut`: the contents, reached through the exclusive
/// borrow of the cell itself.
pub assume_specification<T: ?Sized>[ RefCell::<T>::get_mut ](cell: &mut RefCell<T>) -> &mut T;

/// Mutual exclusion for a program that runs on one thread: a thin wrapper
/// around `RefCell` with the surface of `parking_lot::Mutex`.
///
/// Locking twice while the first guard is alive does not deadlock as the
/// thread-safe lock does: `try_lock` returns `None`. A `lock` that panics
/// with a borrow error there, in place of waiting, is not offered here, since
/// the functions of this library never panic; the facade crate built on this
/// library gives it as a call of `try_lock`.
#[derive(Debug, Default)]
#[verifier::reject_recursive_types(T)]
pub struct Mutex<T: ?Sized> {
    cell: RefCell<T>,
}

impl<T> Mutex<T> {
    /// Creates a new mutex in an unlocked state ready for use.
    pub fn new(value: T) -> Self {
        Mutex { cell: RefCell::new(value) }
    }
}

impl<T: ?Sized> Mutex<T> {
    /// Attempts to acquire the mutex without blocking: `None` while a guard
    /// of this mutex is alive, a guard otherwise. The mutex is unlocked again
    /// when the guard is dropped.
    pub fn try_lock(&self) -> (r: Option<RefMut<'_, T>>) {
        match self.cell.try_borrow_mut() {
            Ok(guard) => Some(guard),
            Err(_) => None,
        }
    }

    /// Returns a mutable reference to the contents. The exclusive borrow of
    /// the mutex already rules out every guard, so nothing is locked.
    pub fn get_mut(&mut self) -> &mut T {
        self.cell.get_mut()
    }
}

} // verus!
