use maybe_sync::{sync, unsync, BoxFuture, MaybeSend, MaybeSync};

fn single_thread_send<T: unsync::MaybeSend + ?Sized>() {}

fn single_thread_sync<T: unsync::MaybeSync + ?Sized>() {}

fn thread_safe_send<T: sync::MaybeSend + ?Sized>() {}

fn thread_safe_sync<T: sync::MaybeSync + ?Sized>() {}

fn root_markers<T: MaybeSend + MaybeSync + ?Sized>() {}

fn sendable_in_both<T: Send + ?Sized>() {
    single_thread_send::<T>();
    thread_safe_send::<T>();
}

fn shareable_in_both<T: Sync + ?Sized>() {
    single_thread_sync::<T>();
    thread_safe_sync::<T>();
}

fn is_send<T: Send + ?Sized>(_: &T) {}

#[test]
fn send_types_satisfy_both_transfer_markers() {
    sendable_in_both::<u32>();
    sendable_in_both::<String>();
    sendable_in_both::<Vec<u8>>();
    sendable_in_both::<str>();
    sendable_in_both::<std::sync::Arc<u64>>();
    sendable_in_both::<std::cell::Cell<u8>>();
}

#[test]
fn sync_types_satisfy_both_sharing_markers() {
    shareable_in_both::<u32>();
    shareable_in_both::<String>();
    shareable_in_both::<[u16]>();
    shareable_in_both::<std::sync::Arc<u64>>();
    shareable_in_both::<sync::AtomicU32>();
    shareable_in_both::<sync::Mutex<Vec<u8>>>();
}

#[test]
fn every_type_satisfies_single_thread_markers() {
    single_thread_send::<std::rc::Rc<u32>>();
    single_thread_sync::<std::rc::Rc<u32>>();
    single_thread_sync::<std::cell::Cell<u32>>();
    single_thread_sync::<std::cell::RefCell<String>>();
    root_markers::<unsync::Mutex<std::rc::Rc<u8>>>();
    root_markers::<unsync::AtomicUsize>();
    root_markers::<dyn std::any::Any>();
}

#[test]
fn single_thread_owner_handle_satisfies_markers() {
    root_markers::<maybe_sync::Rc<u32>>();
    single_thread_send::<unsync::Rc<std::cell::Cell<u8>>>();
}

#[test]
fn thread_safe_owner_handle_is_send() {
    let handle: sync::Rc<u32> = sync::Rc::new(7);
    is_send(&handle);
    thread_safe_send::<sync::Rc<String>>();
    thread_safe_sync::<sync::Rc<String>>();
}

#[test]
fn single_thread_boxed_future_may_hold_non_send_state() {
    let shared = std::rc::Rc::new(5u32);
    let future: BoxFuture<'static, std::rc::Rc<u32>> = Box::pin(std::future::ready(shared));
    root_markers::<BoxFuture<'static, std::rc::Rc<u32>>>();
    drop(future);
}

#[test]
fn thread_safe_boxed_future_is_send() {
    let future: sync::BoxFuture<'static, u32> = Box::pin(std::future::ready(42u32));
    is_send(&future);
    thread_safe_send::<sync::BoxFuture<'static, String>>();
}

fn thread_safe_lock_has_markers<T: Send + ?Sized>() {
    thread_safe_send::<sync::Mutex<T>>();
    thread_safe_sync::<sync::Mutex<T>>();
}

#[test]
fn locks_of_send_values_satisfy_markers() {
    thread_safe_lock_has_markers::<u32>();
    thread_safe_lock_has_markers::<std::cell::Cell<u8>>();
    thread_safe_lock_has_markers::<[u8]>();
    sendable_in_both::<unsync::Mutex<String>>();
    root_markers::<unsync::Mutex<std::cell::Cell<u8>>>();
}
