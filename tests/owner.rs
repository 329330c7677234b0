use maybe_sync::{sync, Mutex, Rc};

#[test]
fn remaining_clone_keeps_payload() {
    let first = Rc::new(String::from("shared"));
    let second = Rc::clone(&first);
    let third = second.clone();
    let watch = Rc::downgrade(&first);
    drop(first);
    drop(second);
    assert_eq!(third.as_str(), "shared");
    assert_eq!(Rc::strong_count(&third), 1);
    assert!(watch.upgrade().is_some());
    drop(third);
    assert!(watch.upgrade().is_none());
}

#[test]
fn thread_safe_remaining_clone_keeps_payload() {
    let first = sync::Rc::new(vec![1u32, 2]);
    let second = sync::Rc::clone(&first);
    let watch = sync::Rc::downgrade(&second);
    drop(first);
    assert_eq!(*second, vec![1u32, 2]);
    assert_eq!(sync::Rc::strong_count(&second), 1);
    drop(second);
    assert!(watch.upgrade().is_none());
}

#[test]
fn payload_mutated_through_shared_mutex() {
    let a = Rc::new(Mutex::new(0u32));
    let b = a.clone();
    *b.try_lock().unwrap() += 4;
    drop(b);
    assert_eq!(*a.try_lock().unwrap(), 4);
}
