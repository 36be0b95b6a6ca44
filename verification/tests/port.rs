use std::sync::atomic::{AtomicUsize, Ordering};
use std::sync::Arc;

use vmb::{DiscoveryCallback, DiscoveryEvent};

#[test]
fn discovery_callback_dispatches() {
    let counter = Arc::new(AtomicUsize::new(0));
    let c = counter.clone();
    let cb = DiscoveryCallback::new(move |event| {
        if matches!(event, DiscoveryEvent::Detected(_)) {
            c.fetch_add(1, Ordering::SeqCst);
        }
    });
    cb.invoke(DiscoveryEvent::Detected("cam-a".into()));
    cb.invoke(DiscoveryEvent::Missing("cam-b".into()));
    cb.invoke(DiscoveryEvent::Detected("cam-c".into()));
    assert_eq!(counter.load(Ordering::SeqCst), 2);
}
