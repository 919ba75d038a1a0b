use std::sync::atomic::{AtomicUsize, Ordering};
use std::sync::{Arc, Mutex};

use proxy_utils::bind::EgressError;
use proxy_utils::protector::{protect_socket, set_socket_protector, ProtectorSlot, SocketProtector};

struct Recorder {
    calls: AtomicUsize,
    fds: Mutex<Vec<i32>>,
}

impl SocketProtector for Recorder {
    fn protected(&self, fd: i32) -> bool {
        self.fds.lock().unwrap().contains(&fd)
    }

    fn protect(&self, fd: i32) {
        self.calls.fetch_add(1, Ordering::SeqCst);
        self.fds.lock().unwrap().push(fd);
    }
}

#[test]
fn unset_protector_is_an_error() {
    let slot: ProtectorSlot<dyn SocketProtector> = ProtectorSlot::new();
    assert_eq!(protect_socket(&slot, 5), Err(EgressError::ProtectorUnset));
}

#[test]
fn registered_protector_called_once_per_call() {
    let rec = Arc::new(Recorder { calls: AtomicUsize::new(0), fds: Mutex::new(vec![]) });
    let mut slot: ProtectorSlot<dyn SocketProtector> = ProtectorSlot::new();
    set_socket_protector(&mut slot, rec.clone() as Arc<dyn SocketProtector>);
    assert!(!rec.protected(7));
    assert_eq!(protect_socket(&slot, 7), Ok(()));
    assert!(rec.protected(7));
    assert_eq!(rec.calls.load(Ordering::SeqCst), 1);
    assert_eq!(protect_socket(&slot, 9), Ok(()));
    assert_eq!(rec.calls.load(Ordering::SeqCst), 2);
    assert_eq!(*rec.fds.lock().unwrap(), vec![7, 9]);
}

#[test]
fn last_registered_protector_wins() {
    let first = Arc::new(Recorder { calls: AtomicUsize::new(0), fds: Mutex::new(vec![]) });
    let second = Arc::new(Recorder { calls: AtomicUsize::new(0), fds: Mutex::new(vec![]) });
    let mut slot: ProtectorSlot<dyn SocketProtector> = ProtectorSlot::new();
    set_socket_protector(&mut slot, first.clone() as Arc<dyn SocketProtector>);
    set_socket_protector(&mut slot, second.clone() as Arc<dyn SocketProtector>);
    assert_eq!(first.calls.load(Ordering::SeqCst), 0);
    assert_eq!(protect_socket(&slot, 4), Ok(()));
    assert_eq!(first.calls.load(Ordering::SeqCst), 0);
    assert_eq!(second.calls.load(Ordering::SeqCst), 1);
    assert_eq!(*second.fds.lock().unwrap(), vec![4]);
}
